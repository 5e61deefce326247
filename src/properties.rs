use vstd::prelude::*;

use crate::error::Error;
use crate::value::{find_value, lookup, PropValue};

verus! {

/// The registered company identifier of Apple.
pub const APPLE_COMPANY_ID: u16 = 0x004C;

/// The vendors this library knows by their company identifier.
#[derive(Debug, Clone, Copy, PartialEq, Eq, Structural)]
pub enum ManufacturerCompany {
    Apple,
    Unknown,
}

/// The vendor that a company identifier stands for.
pub open spec fn company_of(id: u16) -> ManufacturerCompany {
    if id == APPLE_COMPANY_ID {
        ManufacturerCompany::Apple
    } else {
        ManufacturerCompany::Unknown
    }
}

impl Default for ManufacturerCompany {
    fn default() -> (r: Self)
        ensures
            r == ManufacturerCompany::Unknown,
    {
        ManufacturerCompany::Unknown
    }
}

impl From<u16> for ManufacturerCompany {
    fn from(value: u16) -> (r: Self)
        ensures
            r == company_of(value),
    {
        if value == APPLE_COMPANY_ID {
            ManufacturerCompany::Apple
        } else {
            ManufacturerCompany::Unknown
        }
    }
}

impl vstd::std_specs::convert::FromSpecImpl<u16> for ManufacturerCompany {
    open spec fn obeys_from_spec() -> bool {
        true
    }

    open spec fn from_spec(v: u16) -> Self {
        company_of(v)
    }
}

/// Only the identifier `0x004C` names Apple; every other one is unknown.
pub proof fn lemma_company_lookup(id: u16)
    ensures
        company_of(id) == ManufacturerCompany::Apple <==> id == 0x004C,
        id != 0x004C ==> company_of(id) == ManufacturerCompany::Unknown,
{
}

/// A vendor-specific advertising payload.
#[derive(Debug, Clone)]
pub struct ManufacturerData {
    pub company: ManufacturerCompany,
    pub data: Vec<u8>,
}

impl Default for ManufacturerData {
    fn default() -> (r: Self)
        ensures
            r.company == ManufacturerCompany::Unknown,
            r.data@ == Seq::<u8>::empty(),
    {
        ManufacturerData { company: ManufacturerCompany::Unknown, data: Vec::new() }
    }
}

/// The typed record of a peripheral's properties.
#[derive(Debug, Clone)]
pub struct DeviceProperties {
    pub services_resolved: bool,
    pub manufacturer_data: ManufacturerData,
    pub blocked: bool,
    pub adapter: String,
    pub rssi: i16,
    pub name: String,
    pub address: String,
    pub paired: bool,
    pub icon: String,
    pub alias: String,
    pub trusted: bool,
    pub address_type: String,
    pub class: u64,
    pub uuids: Vec<u128>,
    pub legacy_pairing: bool,
    pub connected: bool,
}

/// The mathematical content of a `DeviceProperties`.
pub struct PropertiesModel {
    pub services_resolved: bool,
    pub company: ManufacturerCompany,
    pub manufacturer_bytes: Seq<u8>,
    pub blocked: bool,
    pub adapter: Seq<char>,
    pub rssi: int,
    pub name: Seq<char>,
    pub address: Seq<char>,
    pub paired: bool,
    pub icon: Seq<char>,
    pub alias: Seq<char>,
    pub trusted: bool,
    pub address_type: Seq<char>,
    pub class: u64,
    pub uuids: Seq<u128>,
    pub legacy_pairing: bool,
    pub connected: bool,
}

impl View for DeviceProperties {
    type V = PropertiesModel;

    open spec fn view(&self) -> PropertiesModel {
        PropertiesModel {
            services_resolved: self.services_resolved,
            company: self.manufacturer_data.company,
            manufacturer_bytes: self.manufacturer_data.data@,
            blocked: self.blocked,
            adapter: self.adapter@,
            rssi: self.rssi as int,
            name: self.name@,
            address: self.address@,
            paired: self.paired,
            icon: self.icon@,
            alias: self.alias@,
            trusted: self.trusted,
            address_type: self.address_type@,
            class: self.class,
            uuids: self.uuids@,
            legacy_pairing: self.legacy_pairing,
            connected: self.connected,
        }
    }
}

/// The record in which every field holds its zero value.
pub open spec fn default_model() -> PropertiesModel {
    PropertiesModel {
        services_resolved: false,
        company: ManufacturerCompany::Unknown,
        manufacturer_bytes: Seq::empty(),
        blocked: false,
        adapter: Seq::empty(),
        rssi: 0,
        name: Seq::empty(),
        address: Seq::empty(),
        paired: false,
        icon: Seq::empty(),
        alias: Seq::empty(),
        trusted: false,
        address_type: Seq::empty(),
        class: 0,
        uuids: Seq::empty(),
        legacy_pairing: false,
        connected: false,
    }
}

impl Default for DeviceProperties {
    fn default() -> (r: Self)
        ensures
            r@ == default_model(),
    {
        DeviceProperties {
            services_resolved: false,
            manufacturer_data: ManufacturerData::default(),
            blocked: false,
            adapter: String::new(),
            rssi: 0,
            name: String::new(),
            address: String::new(),
            paired: false,
            icon: String::new(),
            alias: String::new(),
            trusted: false,
            address_type: String::new(),
            class: 0,
            uuids: Vec::new(),
            legacy_pairing: false,
            connected: false,
        }
    }
}


/// The value of an unsigned or boolean wire value; a boolean counts as 0 or 1.
pub open spec fn unsigned_of(v: PropValue) -> Option<u64> {
    match v {
        PropValue::Bool(b) => Some(if b { 1u64 } else { 0u64 }),
        PropValue::Byte(n) => Some(n as u64),
        PropValue::UInt16(n) => Some(n as u64),
        PropValue::UInt32(n) => Some(n as u64),
        PropValue::UInt64(n) => Some(n),
        _ => None,
    }
}

/// The value of an integer wire value that fits in 64 signed bits.
pub open spec fn signed_of(v: PropValue) -> Option<int> {
    match v {
        PropValue::Byte(n) => Some(n as int),
        PropValue::UInt16(n) => Some(n as int),
        PropValue::UInt32(n) => Some(n as int),
        PropValue::Int16(n) => Some(n as int),
        PropValue::Int32(n) => Some(n as int),
        PropValue::Int64(n) => Some(n as int),
        _ => None,
    }
}

/// The text of a string wire value.
pub open spec fn text_of(v: PropValue) -> Option<Seq<char>> {
    match v {
        PropValue::Str(s) => Some(s@),
        _ => None,
    }
}

/// `n` narrowed to 16 signed bits: its low 16 bits in two's complement.
pub open spec fn wrap_i16(n: int) -> int {
    let low = n % 65536;
    if low >= 32768 {
        low - 65536
    } else {
        low
    }
}

/// Every value narrowed to 16 signed bits that already fits stays as it is.
pub proof fn lemma_wrap_i16_in_range(n: int)
    requires
        -32768 <= n <= 32767,
    ensures
        wrap_i16(n) == n,
{
}

/// The bytes of an array of byte values.
pub open spec fn bytes_of(items: Seq<PropValue>) -> Option<Seq<u8>>
    decreases items.len(),
{
    if items.len() == 0 {
        Some(Seq::empty())
    } else {
        match (bytes_of(items.drop_last()), items.last()) {
            (Some(init), PropValue::Byte(b)) => Some(init.push(b)),
            _ => None,
        }
    }
}

/// Vendor and payload of a manufacturer-data value: a dictionary whose first
/// entry maps the company identifier to a variant that wraps a byte array. A
/// key of another type leaves the identifier at zero.
pub open spec fn manufacturer_of(v: PropValue) -> Option<(ManufacturerCompany, Seq<u8>)> {
    match v {
        PropValue::Dict(entries) => {
            if entries@.len() == 0 {
                None
            } else {
                let id: u16 = match entries@[0].0 {
                    PropValue::UInt16(n) => n,
                    _ => 0,
                };
                match entries@[0].1 {
                    PropValue::Variant(inner) => match *inner {
                        PropValue::Array(items) => match bytes_of(items@) {
                            Some(bytes) => Some((company_of(id), bytes)),
                            None => None,
                        },
                        _ => None,
                    },
                    _ => None,
                }
            }
        },
        _ => None,
    }
}

/// The UUID that a text denotes, as its 128-bit value; `None` where the text
/// is no UUID.
pub uninterp spec fn parsed_uuid(s: Seq<char>) -> Option<u128>;

/// Relies on `uuid::Uuid::parse_str`, whose result depends on the text alone
/// and which rejects the empty text, and on `Uuid::as_u128` for the value.
#[verifier::external_body]
fn parse_uuid(s: &str) -> (r: Option<u128>)
    ensures
        r == parsed_uuid(s@),
        s@.len() == 0 ==> r is None,
{
    uuid::Uuid::parse_str(s).ok().map(|u| u.as_u128())
}

/// The UUIDs of an array of strings, or `None` if any element is not a
/// string that parses.
pub open spec fn uuid_list(items: Seq<PropValue>) -> Option<Seq<u128>>
    decreases items.len(),
{
    if items.len() == 0 {
        Some(Seq::empty())
    } else {
        match (uuid_list(items.drop_last()), items.last()) {
            (Some(init), PropValue::Str(s)) => match parsed_uuid(s@) {
                Some(u) => Some(init.push(u)),
                None => None,
            },
            _ => None,
        }
    }
}

/// The UUIDs of a UUID-list value.
pub open spec fn uuids_of(v: PropValue) -> Option<Seq<u128>> {
    match v {
        PropValue::Array(items) => uuid_list(items@),
        _ => None,
    }
}

proof fn lemma_bytes_fail_extends(items: Seq<PropValue>, i: int)
    requires
        0 <= i <= items.len(),
        bytes_of(items.take(i)) is None,
    ensures
        bytes_of(items) is None,
    decreases items.len() - i,
{
    if i < items.len() {
        assert(items.take(i + 1).drop_last() =~= items.take(i));
        lemma_bytes_fail_extends(items, i + 1);
    } else {
        assert(items.take(i) =~= items);
    }
}

proof fn lemma_uuids_fail_extends(items: Seq<PropValue>, i: int)
    requires
        0 <= i <= items.len(),
        uuid_list(items.take(i)) is None,
    ensures
        uuid_list(items) is None,
    decreases items.len() - i,
{
    if i < items.len() {
        assert(items.take(i + 1).drop_last() =~= items.take(i));
        lemma_uuids_fail_extends(items, i + 1);
    } else {
        assert(items.take(i) =~= items);
    }
}

fn unsigned_value(v: &PropValue) -> (r: Option<u64>)
    ensures
        r == unsigned_of(*v),
{
    match v {
        PropValue::Bool(b) => Some(if *b { 1u64 } else { 0u64 }),
        PropValue::Byte(n) => Some(*n as u64),
        PropValue::UInt16(n) => Some(*n as u64),
        PropValue::UInt32(n) => Some(*n as u64),
        PropValue::UInt64(n) => Some(*n),
        _ => None,
    }
}

fn signed_value(v: &PropValue) -> (r: Option<i64>)
    ensures
        r matches Some(n) ==> signed_of(*v) == Some(n as int),
        r is None <==> signed_of(*v) is None,
{
    match v {
        PropValue::Byte(n) => Some(*n as i64),
        PropValue::UInt16(n) => Some(*n as i64),
        PropValue::UInt32(n) => Some(*n as i64),
        PropValue::Int16(n) => Some(*n as i64),
        PropValue::Int32(n) => Some(*n as i64),
        PropValue::Int64(n) => Some(*n),
        _ => None,
    }
}

fn text_value(v: &PropValue) -> (r: Option<String>)
    ensures
        r matches Some(s) ==> text_of(*v) == Some(s@),
        r is None <==> text_of(*v) is None,
{
    match v {
        PropValue::Str(s) => Some(s.clone()),
        _ => None,
    }
}

/// `n` narrowed to 16 signed bits, keeping its low 16 bits.
pub fn narrow_i16(n: i64) -> (r: i16)
    ensures
        r as int == wrap_i16(n as int),
{
    match n.checked_rem_euclid(65536) {
        Some(low) => {
            if low >= 32768 {
                (low - 65536) as i16
            } else {
                low as i16
            }
        },
        None => 0,
    }
}

fn byte_values(items: &Vec<PropValue>) -> (r: Option<Vec<u8>>)
    ensures
        r matches Some(b) ==> bytes_of(items@) == Some(b@),
        r is None <==> bytes_of(items@) is None,
{
    let mut out: Vec<u8> = Vec::new();
    let mut i: usize = 0;
    while i < items.len()
        invariant
            i <= items@.len(),
            bytes_of(items@.take(i as int)) == Some(out@),
        decreases items.len() - i,
    {
        assert(items@.take(i + 1).drop_last() =~= items@.take(i as int));
        match &items[i] {
            PropValue::Byte(b) => {
                out.push(*b);
            },
            _ => {
                proof {
                    lemma_bytes_fail_extends(items@, i + 1);
                }
                return None;
            },
        }
        i = i + 1;
    }
    assert(items@.take(i as int) =~= items@);
    Some(out)
}

fn manufacturer_value(v: &PropValue) -> (r: Option<ManufacturerData>)
    ensures
        r matches Some(d) ==> manufacturer_of(*v) == Some((d.company, d.data@)),
        r is None <==> manufacturer_of(*v) is None,
{
    match v {
        PropValue::Dict(entries) => {
            if entries.len() == 0 {
                return None;
            }
            let id: u16 = match &entries[0].0 {
                PropValue::UInt16(n) => *n,
                _ => 0,
            };
            match &entries[0].1 {
                PropValue::Variant(inner) => match &**inner {
                    PropValue::Array(items) => match byte_values(items) {
                        Some(bytes) => Some(ManufacturerData { company: ManufacturerCompany::from(id), data: bytes }),
                        None => None,
                    },
                    _ => None,
                },
                _ => None,
            }
        },
        _ => None,
    }
}

fn uuid_values(v: &PropValue) -> (r: Option<Vec<u128>>)
    ensures
        r matches Some(u) ==> uuids_of(*v) == Some(u@),
        r is None <==> uuids_of(*v) is None,
{
    match v {
        PropValue::Array(items) => uuid_items(items),
        _ => None,
    }
}

fn uuid_items(items: &Vec<PropValue>) -> (r: Option<Vec<u128>>)
    ensures
        r matches Some(u) ==> uuid_list(items@) == Some(u@),
        r is None <==> uuid_list(items@) is None,
{
    let mut out: Vec<u128> = Vec::new();
    let mut i: usize = 0;
    while i < items.len()
        invariant
            i <= items@.len(),
            uuid_list(items@.take(i as int)) == Some(out@),
        decreases items.len() - i,
    {
        assert(items@.take(i + 1).drop_last() =~= items@.take(i as int));
        assert(items@.take(i + 1).last() == items@[i as int]);
        let parsed = match &items[i] {
            PropValue::Str(s) => parse_uuid(s.as_str()),
            _ => None,
        };
        match parsed {
            Some(u) => {
                out.push(u);
            },
            None => {
                proof {
                    lemma_uuids_fail_extends(items@, i + 1);
                }
                return None;
            },
        }
        i = i + 1;
    }
    assert(items@.take(i as int) =~= items@);
    Some(out)
}

/// The key is absent, or holds an unsigned or boolean value.
pub open spec fn flag_ok(m: Seq<(String, PropValue)>, key: Seq<char>) -> bool {
    match lookup(m, key) {
        Some(v) => unsigned_of(v) is Some,
        None => true,
    }
}

/// The flag under `key`: whether its value is nonzero; false where absent.
pub open spec fn flag_field(m: Seq<(String, PropValue)>, key: Seq<char>) -> bool {
    match lookup(m, key) {
        Some(v) => unsigned_of(v).unwrap() != 0,
        None => false,
    }
}

/// The key is absent, or holds a string.
pub open spec fn text_ok(m: Seq<(String, PropValue)>, key: Seq<char>) -> bool {
    match lookup(m, key) {
        Some(v) => text_of(v) is Some,
        None => true,
    }
}

/// The text under `key`; empty where absent.
pub open spec fn text_field(m: Seq<(String, PropValue)>, key: Seq<char>) -> Seq<char> {
    match lookup(m, key) {
        Some(v) => text_of(v).unwrap(),
        None => Seq::empty(),
    }
}

/// Every recognized key that is present holds a value of its expected shape.
pub open spec fn well_shaped(m: Seq<(String, PropValue)>) -> bool {
    &&& flag_ok(m, "ServicesResolved"@)
    &&& (lookup(m, "ManufacturerData"@) matches Some(v) ==> manufacturer_of(v) is Some)
    &&& flag_ok(m, "Blocked"@)
    &&& text_ok(m, "Path"@)
    &&& (lookup(m, "RSSI"@) matches Some(v) ==> signed_of(v) is Some)
    &&& text_ok(m, "Adapter"@)
    &&& text_ok(m, "Name"@)
    &&& text_ok(m, "Address"@)
    &&& flag_ok(m, "Paired"@)
    &&& text_ok(m, "Icon"@)
    &&& text_ok(m, "Alias"@)
    &&& flag_ok(m, "Trusted"@)
    &&& text_ok(m, "AddressType"@)
    &&& (lookup(m, "Class"@) matches Some(v) ==> unsigned_of(v) is Some)
    &&& (lookup(m, "UUIDs"@) matches Some(v) ==> uuids_of(v) is Some)
    &&& flag_ok(m, "LegacyPairing"@)
    &&& flag_ok(m, "Connected"@)
}

/// The record that a well-shaped property map decodes to: each field from
/// its key where present, else its zero value. `Adapter` wins over `Path`.
pub open spec fn decoded(m: Seq<(String, PropValue)>) -> PropertiesModel {
    PropertiesModel {
        services_resolved: flag_field(m, "ServicesResolved"@),
        company: match lookup(m, "ManufacturerData"@) {
            Some(v) => manufacturer_of(v).unwrap().0,
            None => ManufacturerCompany::Unknown,
        },
        manufacturer_bytes: match lookup(m, "ManufacturerData"@) {
            Some(v) => manufacturer_of(v).unwrap().1,
            None => Seq::empty(),
        },
        blocked: flag_field(m, "Blocked"@),
        adapter: match lookup(m, "Adapter"@) {
            Some(v) => text_of(v).unwrap(),
            None => text_field(m, "Path"@),
        },
        rssi: match lookup(m, "RSSI"@) {
            Some(v) => wrap_i16(signed_of(v).unwrap()),
            None => 0,
        },
        name: text_field(m, "Name"@),
        address: text_field(m, "Address"@),
        paired: flag_field(m, "Paired"@),
        icon: text_field(m, "Icon"@),
        alias: text_field(m, "Alias"@),
        trusted: flag_field(m, "Trusted"@),
        address_type: text_field(m, "AddressType"@),
        class: match lookup(m, "Class"@) {
            Some(v) => unsigned_of(v).unwrap(),
            None => 0,
        },
        uuids: match lookup(m, "UUIDs"@) {
            Some(v) => uuids_of(v).unwrap(),
            None => Seq::empty(),
        },
        legacy_pairing: flag_field(m, "LegacyPairing"@),
        connected: flag_field(m, "Connected"@),
    }
}

fn read_flag(m: &Vec<(String, PropValue)>, key: &str) -> (r: Result<bool, Error>)
    ensures
        r is Ok <==> flag_ok(m@, key@),
        r matches Ok(b) ==> b == flag_field(m@, key@),
        r is Err ==> r == Err::<bool, Error>(Error::Decode),
{
    match find_value(m, key) {
        Some(v) => match unsigned_value(v) {
            Some(n) => Ok(n != 0),
            None => Err(Error::Decode),
        },
        None => Ok(false),
    }
}

fn read_text(m: &Vec<(String, PropValue)>, key: &str) -> (r: Result<Option<String>, Error>)
    ensures
        r is Ok <==> text_ok(m@, key@),
        r matches Ok(Some(s)) ==> lookup(m@, key@) is Some && s@ == text_field(m@, key@),
        r matches Ok(None) ==> lookup(m@, key@) is None,
        r is Err ==> r == Err::<Option<String>, Error>(Error::Decode),
{
    match find_value(m, key) {
        Some(v) => match text_value(v) {
            Some(s) => Ok(Some(s)),
            None => Err(Error::Decode),
        },
        None => Ok(None),
    }
}

fn or_empty(t: Option<String>) -> (r: String)
    ensures
        t matches Some(s) ==> r@ == s@,
        t is None ==> r@ == Seq::<char>::empty(),
{
    match t {
        Some(s) => s,
        None => String::new(),
    }
}

/// Decodes a property map into the typed record. Unrecognized keys are
/// ignored; a recognized key whose value has the wrong shape fails the whole
/// decode.
pub fn decode(m: &Vec<(String, PropValue)>) -> (r: Result<DeviceProperties, Error>)
    ensures
        r is Ok <==> well_shaped(m@),
        r matches Ok(p) ==> p@ == decoded(m@),
        r is Err ==> r == Err::<DeviceProperties, Error>(Error::Decode),
{
    let services_resolved = match read_flag(m, "ServicesResolved") {
        Ok(b) => b,
        Err(e) => return Err(e),
    };
    let manufacturer_data = match find_value(m, "ManufacturerData") {
        Some(v) => match manufacturer_value(v) {
            Some(d) => d,
            None => return Err(Error::Decode),
        },
        None => ManufacturerData::default(),
    };
    let blocked = match read_flag(m, "Blocked") {
        Ok(b) => b,
        Err(e) => return Err(e),
    };
    let path = match read_text(m, "Path") {
        Ok(t) => t,
        Err(e) => return Err(e),
    };
    let rssi: i16 = match find_value(m, "RSSI") {
        Some(v) => match signed_value(v) {
            Some(n) => narrow_i16(n),
            None => return Err(Error::Decode),
        },
        None => 0,
    };
    let adapter = match read_text(m, "Adapter") {
        Ok(Some(a)) => a,
        Ok(None) => or_empty(path),
        Err(e) => return Err(e),
    };
    let name = match read_text(m, "Name") {
        Ok(t) => or_empty(t),
        Err(e) => return Err(e),
    };
    let address = match read_text(m, "Address") {
        Ok(t) => or_empty(t),
        Err(e) => return Err(e),
    };
    let paired = match read_flag(m, "Paired") {
        Ok(b) => b,
        Err(e) => return Err(e),
    };
    let icon = match read_text(m, "Icon") {
        Ok(t) => or_empty(t),
        Err(e) => return Err(e),
    };
    let alias = match read_text(m, "Alias") {
        Ok(t) => or_empty(t),
        Err(e) => return Err(e),
    };
    let trusted = match read_flag(m, "Trusted") {
        Ok(b) => b,
        Err(e) => return Err(e),
    };
    let address_type = match read_text(m, "AddressType") {
        Ok(t) => or_empty(t),
        Err(e) => return Err(e),
    };
    let class: u64 = match find_value(m, "Class") {
        Some(v) => match unsigned_value(v) {
            Some(n) => n,
            None => return Err(Error::Decode),
        },
        None => 0,
    };
    let uuids = match find_value(m, "UUIDs") {
        Some(v) => match uuid_values(v) {
            Some(u) => u,
            None => return Err(Error::Decode),
        },
        None => Vec::new(),
    };
    let legacy_pairing = match read_flag(m, "LegacyPairing") {
        Ok(b) => b,
        Err(e) => return Err(e),
    };
    let connected = match read_flag(m, "Connected") {
        Ok(b) => b,
        Err(e) => return Err(e),
    };
    let props = DeviceProperties {
        services_resolved,
        manufacturer_data,
        blocked,
        adapter,
        rssi,
        name,
        address,
        paired,
        icon,
        alias,
        trusted,
        address_type,
        class,
        uuids,
        legacy_pairing,
        connected,
    };
    assert(props@ == decoded(m@));
    Ok(props)
}

/// Decoding a partial map: every field whose key is absent keeps its zero
/// value, whatever the other keys hold.
pub proof fn lemma_absent_keys_keep_defaults(m: Seq<(String, PropValue)>)
    ensures
        lookup(m, "ServicesResolved"@) is None ==> decoded(m).services_resolved == default_model().services_resolved,
        lookup(m, "ManufacturerData"@) is None ==> decoded(m).company == default_model().company
            && decoded(m).manufacturer_bytes == default_model().manufacturer_bytes,
        lookup(m, "Blocked"@) is None ==> decoded(m).blocked == default_model().blocked,
        lookup(m, "Adapter"@) is None && lookup(m, "Path"@) is None ==> decoded(m).adapter == default_model().adapter,
        lookup(m, "RSSI"@) is None ==> decoded(m).rssi == default_model().rssi,
        lookup(m, "Name"@) is None ==> decoded(m).name == default_model().name,
        lookup(m, "Address"@) is None ==> decoded(m).address == default_model().address,
        lookup(m, "Paired"@) is None ==> decoded(m).paired == default_model().paired,
        lookup(m, "Icon"@) is None ==> decoded(m).icon == default_model().icon,
        lookup(m, "Alias"@) is None ==> decoded(m).alias == default_model().alias,
        lookup(m, "Trusted"@) is None ==> decoded(m).trusted == default_model().trusted,
        lookup(m, "AddressType"@) is None ==> decoded(m).address_type == default_model().address_type,
        lookup(m, "Class"@) is None ==> decoded(m).class == default_model().class,
        lookup(m, "UUIDs"@) is None ==> decoded(m).uuids == default_model().uuids,
        lookup(m, "LegacyPairing"@) is None ==> decoded(m).legacy_pairing == default_model().legacy_pairing,
        lookup(m, "Connected"@) is None ==> decoded(m).connected == default_model().connected,
{
}

/// The empty map is well shaped and decodes to the all-zero record.
pub proof fn lemma_empty_map_decodes_to_default()
    ensures
        well_shaped(Seq::<(String, PropValue)>::empty()),
        decoded(Seq::<(String, PropValue)>::empty()) == default_model(),
{
    let m = Seq::<(String, PropValue)>::empty();
    assert(decoded(m) == default_model());
}

/// One element of the UUID list that is no UUID fails the whole decode: no
/// partial list is ever produced.
pub proof fn lemma_malformed_uuid_fails(m: Seq<(String, PropValue)>, items: Vec<PropValue>, i: int)
    requires
        lookup(m, "UUIDs"@) == Some(PropValue::Array(items)),
        0 <= i < items@.len(),
        match items@[i] {
            PropValue::Str(s) => parsed_uuid(s@) is None,
            _ => true,
        },
    ensures
        !well_shaped(m),
{
    let xs = items@;
    assert(xs.take(i + 1).drop_last() =~= xs.take(i));
    assert(xs.take(i + 1).last() == xs[i]);
    lemma_uuids_fail_extends(xs, i + 1);
}

} // verus!
