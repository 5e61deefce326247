use vstd::prelude::*;

use crate::error::Error;
use crate::properties::{decode, decoded, well_shaped, DeviceProperties, PropertiesModel};
use crate::value::PropValue;

verus! {

/// Where a device's network tethering session stands.
#[derive(Debug, Clone, PartialEq, Eq)]
pub enum DevicePanStatus {
    Disconnected,
    Connecting,
    Connected(String),
}

impl Default for DevicePanStatus {
    fn default() -> (r: Self)
        ensures
            r == DevicePanStatus::Disconnected,
    {
        DevicePanStatus::Disconnected
    }
}

/// One remote peripheral: its object path, its last property snapshot and
/// its tethering status.
#[derive(Debug)]
pub struct Device {
    pub object_path: String,
    pub properties: DeviceProperties,
    pub pan_status: DevicePanStatus,
}

impl Device {
    /// A device at `path` with zero-valued properties, disconnected.
    pub fn new(path: String) -> (d: Device)
        ensures
            d.object_path@ == path@,
            d.properties@ == crate::properties::default_model(),
            d.pan_status == DevicePanStatus::Disconnected,
    {
        Device {
            object_path: path,
            properties: DeviceProperties::default(),
            pan_status: DevicePanStatus::default(),
        }
    }

    /// Replaces the property snapshot with the decoded map, or leaves it
    /// untouched where the map does not decode.
    pub fn assign_properties(&mut self, data: &Vec<(String, PropValue)>) -> (r: Result<(), Error>)
        ensures
            r is Ok <==> well_shaped(data@),
            r is Ok ==> final(self).properties@ == decoded(data@),
            r is Err ==> r == Err::<(), Error>(Error::Decode) && final(self).properties == old(self).properties,
            final(self).object_path == old(self).object_path,
            final(self).pan_status == old(self).pan_status,
    {
        match decode(data) {
            Ok(p) => {
                self.properties = p;
                Ok(())
            },
            Err(e) => Err(e),
        }
    }

    /// Installs the reply to a request for all of the device's properties.
    /// The snapshot is replaced whole by the decoded reply, or kept whole
    /// where the request or the decode failed; never a mixture of the two.
    pub fn refresh(&mut self, reply: Result<Vec<(String, PropValue)>, Error>) -> (r: Result<(), Error>)
        ensures
            reply matches Err(e) ==> r == Err::<(), Error>(e) && final(self).properties == old(self).properties,
            reply matches Ok(m) ==> {
                &&& r is Ok <==> well_shaped(m@)
                &&& r is Ok ==> final(self).properties@ == decoded(m@)
                &&& r is Err ==> r == Err::<(), Error>(Error::Decode) && final(self).properties == old(self).properties
            },
            final(self).properties@ == old(self).properties@ || (reply matches Ok(m) && final(self).properties@ == decoded(m@)),
            final(self).object_path == old(self).object_path,
            final(self).pan_status == old(self).pan_status,
    {
        match reply {
            Ok(m) => self.assign_properties(&m),
            Err(e) => Err(e),
        }
    }

    /// Installs a fresh reading of the signal strength, changing no other
    /// field; a failed reading changes nothing.
    pub fn update_rssi(&mut self, reading: Result<i16, Error>)
        ensures
            reading matches Ok(n) ==> final(self).properties@ == (PropertiesModel {
                rssi: n as int,
                ..old(self).properties@
            }),
            reading is Err ==> final(self).properties == old(self).properties,
            final(self).object_path == old(self).object_path,
            final(self).pan_status == old(self).pan_status,
    {
        match reading {
            Ok(n) => {
                self.properties.rssi = n;
            },
            Err(_) => {},
        }
    }

    /// Marks the session as being set up; called before the connect request
    /// is sent.
    pub fn connect_pan(&mut self)
        ensures
            final(self).pan_status == DevicePanStatus::Connecting,
            final(self).properties == old(self).properties,
            final(self).object_path == old(self).object_path,
    {
        self.pan_status = DevicePanStatus::Connecting;
    }

    /// Installs the reply to a connect request: the interface name it
    /// carries on success. A failed request reverts the status to
    /// `Disconnected`, so that no device stays `Connecting` for good.
    pub fn finish_connect_pan(&mut self, reply: Result<String, Error>) -> (r: Result<(), Error>)
        ensures
            reply matches Ok(name) ==> r is Ok && final(self).pan_status == DevicePanStatus::Connected(name),
            reply matches Err(e) ==> r == Err::<(), Error>(e) && final(self).pan_status == DevicePanStatus::Disconnected,
            final(self).properties == old(self).properties,
            final(self).object_path == old(self).object_path,
    {
        match reply {
            Ok(name) => {
                self.pan_status = DevicePanStatus::Connected(name);
                Ok(())
            },
            Err(e) => {
                self.pan_status = DevicePanStatus::Disconnected;
                Err(e)
            },
        }
    }

    /// Installs the reply to a disconnect request: a success leaves the
    /// session `Disconnected` whatever it was; a failure changes nothing.
    pub fn disconnect_pan(&mut self, reply: Result<(), Error>) -> (r: Result<(), Error>)
        ensures
            reply is Ok ==> r is Ok && final(self).pan_status == DevicePanStatus::Disconnected,
            reply matches Err(e) ==> r == Err::<(), Error>(e) && final(self).pan_status == old(self).pan_status,
            final(self).properties == old(self).properties,
            final(self).object_path == old(self).object_path,
    {
        match reply {
            Ok(()) => {
                self.pan_status = DevicePanStatus::Disconnected;
                Ok(())
            },
            Err(e) => Err(e),
        }
    }

    /// Resynchronizes the status with what the host reports: its connected
    /// flag and, where that is set, the bound interface name (which is not
    /// consulted otherwise). Returns the status installed; a failed reading
    /// changes nothing.
    pub fn refresh_pan_status(
        &mut self,
        connected: Result<bool, Error>,
        interface: Result<String, Error>,
    ) -> (r: Result<DevicePanStatus, Error>)
        ensures
            connected matches Err(e) ==> r == Err::<DevicePanStatus, Error>(e),
            connected == Ok::<bool, Error>(false) ==> r == Ok::<DevicePanStatus, Error>(DevicePanStatus::Disconnected),
            connected == Ok::<bool, Error>(true) ==> match interface {
                Ok(name) => r == Ok::<DevicePanStatus, Error>(DevicePanStatus::Connected(name)),
                Err(e) => r == Err::<DevicePanStatus, Error>(e),
            },
            r matches Ok(s) ==> final(self).pan_status == s,
            r is Err ==> final(self).pan_status == old(self).pan_status,
            final(self).properties == old(self).properties,
            final(self).object_path == old(self).object_path,
    {
        match connected {
            Ok(true) => match interface {
                Ok(name) => {
                    self.pan_status = DevicePanStatus::Connected(name.clone());
                    Ok(DevicePanStatus::Connected(name))
                },
                Err(e) => Err(e),
            },
            Ok(false) => {
                self.pan_status = DevicePanStatus::Disconnected;
                Ok(DevicePanStatus::Disconnected)
            },
            Err(e) => Err(e),
        }
    }
}

} // verus!
