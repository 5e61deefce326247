use vstd::prelude::*;

use crate::device::{Device, DevicePanStatus};
use crate::error::Error;
use crate::properties::{decoded, well_shaped, PropertiesModel};
use crate::value::{find_value, lookup, PropValue};

verus! {

/// One object of the bus-wide enumeration: its path and, for each interface
/// it exposes, that interface's property map.
#[derive(Debug)]
pub struct ManagedObject {
    pub path: String,
    pub interfaces: Vec<(String, Vec<(String, PropValue)>)>,
}

/// Whether an object exposes the named interface.
pub open spec fn exposes(o: ManagedObject, iface: Seq<char>) -> bool {
    lookup(o.interfaces@, iface) is Some
}

/// The interface through which an adapter advertises.
pub open spec fn advertising_iface() -> Seq<char> {
    "org.bluez.LEAdvertisingManager1"@
}

/// The interface of a remote peripheral.
pub open spec fn device_iface() -> Seq<char> {
    "org.bluez.Device1"@
}

/// Whether `path` names a peripheral directly below the adapter at
/// `adapter`: the adapter's path, then `/dev_`, then one more segment.
pub open spec fn is_device_path(adapter: Seq<char>, path: Seq<char>) -> bool {
    let prefix = adapter + "/dev_"@;
    &&& prefix.len() <= path.len()
    &&& path.take(prefix.len() as int) == prefix
    &&& forall|k: int| prefix.len() <= k < path.len() ==> path[k] != '/'
}

/// The path and decoded properties of each peripheral that an enumeration
/// lists below the adapter, in enumeration order. Objects whose peripheral
/// properties do not decode are skipped.
pub open spec fn listed_devices(adapter: Seq<char>, objs: Seq<ManagedObject>) -> Seq<(Seq<char>, PropertiesModel)>
    decreases objs.len(),
{
    if objs.len() == 0 {
        Seq::empty()
    } else {
        let init = listed_devices(adapter, objs.drop_last());
        let o = objs.last();
        match lookup(o.interfaces@, device_iface()) {
            Some(props) => if is_device_path(adapter, o.path@) && well_shaped(props@) {
                init.push((o.path@, decoded(props@)))
            } else {
                init
            },
            None => init,
        }
    }
}

/// The local host interface, known by its object path.
#[derive(Debug, Clone)]
pub struct Adapter {
    pub object_path: String,
}

fn has_device_path(adapter: &str, path: &str) -> (r: bool)
    ensures
        r == is_device_path(adapter@, path@),
{
    let prefix = adapter.to_owned().concat("/dev_");
    let pn = prefix.as_str().unicode_len();
    let n = path.unicode_len();
    if n < pn {
        return false;
    }
    let mut i: usize = 0;
    while i < pn
        invariant
            pn == prefix@.len(),
            n == path@.len(),
            pn <= n,
            i <= pn,
            prefix@ == adapter@ + "/dev_"@,
            forall|j: int| 0 <= j < i ==> path@[j] == prefix@[j],
        decreases pn - i,
    {
        if path.get_char(i) != prefix.as_str().get_char(i) {
            assert(path@.take(pn as int)[i as int] != prefix@[i as int]);
            return false;
        }
        i = i + 1;
    }
    assert(path@.take(pn as int) =~= prefix@);
    while i < n
        invariant
            pn <= i <= n,
            n == path@.len(),
            pn == prefix@.len(),
            prefix@ == adapter@ + "/dev_"@,
            path@.take(pn as int) == prefix@,
            forall|k: int| pn <= k < i ==> path@[k] != '/',
        decreases n - i,
    {
        if path.get_char(i) == '/' {
            return false;
        }
        i = i + 1;
    }
    true
}

impl Adapter {
    /// The first object of the enumeration that exposes the advertising
    /// interface; `Discovery` where none does.
    pub fn new(objects: &Vec<ManagedObject>) -> (r: Result<Adapter, Error>)
        ensures
            r is Ok <==> exists|i: int| 0 <= i < objects@.len() && exposes(objects@[i], advertising_iface()),
            r matches Ok(a) ==> exists|i: int|
                0 <= i < objects@.len() && exposes(objects@[i], advertising_iface())
                    && a.object_path@ == objects@[i].path@
                    && forall|j: int| 0 <= j < i ==> !exposes(#[trigger] objects@[j], advertising_iface()),
            r is Err ==> r == Err::<Adapter, Error>(Error::Discovery),
    {
        let mut i: usize = 0;
        while i < objects.len()
            invariant
                i <= objects@.len(),
                forall|j: int| 0 <= j < i ==> !exposes(#[trigger] objects@[j], advertising_iface()),
            decreases objects.len() - i,
        {
            let o = &objects[i];
            if find_value(&o.interfaces, "org.bluez.LEAdvertisingManager1").is_some() {
                return Ok(Adapter { object_path: o.path.clone() });
            }
            i = i + 1;
        }
        Err(Error::Discovery)
    }

    /// One disconnected `Device` for each peripheral that the enumeration
    /// lists directly below this adapter and that exposes the peripheral
    /// interface, with its decoded properties; those that do not decode are
    /// skipped.
    pub fn devices(&self, objects: &Vec<ManagedObject>) -> (r: Vec<Device>)
        ensures
            r@.len() == listed_devices(self.object_path@, objects@).len(),
            forall|k: int| 0 <= k < r@.len() ==> {
                &&& (#[trigger] r@[k]).object_path@ == listed_devices(self.object_path@, objects@)[k].0
                &&& r@[k].properties@ == listed_devices(self.object_path@, objects@)[k].1
                &&& r@[k].pan_status == DevicePanStatus::Disconnected
            },
    {
        let mut out: Vec<Device> = Vec::new();
        let mut i: usize = 0;
        while i < objects.len()
            invariant
                i <= objects@.len(),
                out@.len() == listed_devices(self.object_path@, objects@.take(i as int)).len(),
                forall|k: int| 0 <= k < out@.len() ==> {
                    &&& (#[trigger] out@[k]).object_path@ == listed_devices(self.object_path@, objects@.take(i as int))[k].0
                    &&& out@[k].properties@ == listed_devices(self.object_path@, objects@.take(i as int))[k].1
                    &&& out@[k].pan_status == DevicePanStatus::Disconnected
                },
            decreases objects.len() - i,
        {
            let ghost before = objects@.take(i as int);
            assert(objects@.take(i + 1).drop_last() =~= before);
            assert(objects@.take(i + 1).last() == objects@[i as int]);
            let o = &objects[i];
            match find_value(&o.interfaces, "org.bluez.Device1") {
                Some(props) => {
                    if has_device_path(self.object_path.as_str(), o.path.as_str()) {
                        let mut d = Device::new(o.path.clone());
                        match d.assign_properties(props) {
                            Ok(()) => {
                                out.push(d);
                            },
                            Err(_) => {},
                        }
                    }
                },
                None => {},
            }
            i = i + 1;
        }
        assert(objects@.take(i as int) =~= objects@);
        out
    }
}

} // verus!
