use blez::error::Error;
use blez::properties::{decode, narrow_i16, DeviceProperties, ManufacturerCompany};
use blez::value::PropValue;

fn entry(key: &str, value: PropValue) -> (String, PropValue) {
    (key.to_string(), value)
}

fn text(s: &str) -> PropValue {
    PropValue::Str(s.to_string())
}

fn uuid_value(s: &str) -> u128 {
    uuid::Uuid::parse_str(s).unwrap().as_u128()
}

#[test]
fn empty_map_gives_default_record() {
    let p = decode(&Vec::new()).unwrap();
    let d = DeviceProperties::default();
    assert_eq!(p.rssi, d.rssi);
    assert_eq!(p.name, "");
    assert_eq!(p.adapter, "");
    assert!(!p.connected);
    assert!(!p.services_resolved);
    assert_eq!(p.class, 0);
    assert!(p.uuids.is_empty());
    assert_eq!(p.manufacturer_data.company, ManufacturerCompany::Unknown);
    assert!(p.manufacturer_data.data.is_empty());
}

#[test]
fn partial_map_overrides_only_given_keys() {
    let m = vec![
        entry("Name", text("Speaker")),
        entry("Paired", PropValue::Bool(true)),
        entry("Class", PropValue::UInt32(0x240404)),
        entry("SomethingElse", PropValue::Int32(7)),
    ];
    let p = decode(&m).unwrap();
    assert_eq!(p.name, "Speaker");
    assert!(p.paired);
    assert_eq!(p.class, 0x240404);
    assert_eq!(p.address, "");
    assert_eq!(p.alias, "");
    assert_eq!(p.rssi, 0);
    assert!(!p.trusted);
    assert!(!p.blocked);
    assert!(p.uuids.is_empty());
}

#[test]
fn all_keys_decode() {
    let m = vec![
        entry("ServicesResolved", PropValue::Bool(true)),
        entry("Blocked", PropValue::Byte(0)),
        entry("Path", text("/org/bluez/hci1")),
        entry("RSSI", PropValue::Int16(-71)),
        entry("Adapter", text("/org/bluez/hci0")),
        entry("Name", text("Phone")),
        entry("Address", text("AA:BB:CC:DD:EE:FF")),
        entry("Paired", PropValue::UInt16(1)),
        entry("Icon", text("phone")),
        entry("Alias", text("My phone")),
        entry("Trusted", PropValue::UInt64(2)),
        entry("AddressType", text("public")),
        entry("Class", PropValue::UInt64(5898764)),
        entry("LegacyPairing", PropValue::Bool(false)),
        entry("Connected", PropValue::Bool(true)),
    ];
    let p = decode(&m).unwrap();
    assert!(p.services_resolved);
    assert!(!p.blocked);
    assert_eq!(p.adapter, "/org/bluez/hci0");
    assert_eq!(p.rssi, -71);
    assert_eq!(p.name, "Phone");
    assert_eq!(p.address, "AA:BB:CC:DD:EE:FF");
    assert!(p.paired);
    assert_eq!(p.icon, "phone");
    assert_eq!(p.alias, "My phone");
    assert!(p.trusted);
    assert_eq!(p.address_type, "public");
    assert_eq!(p.class, 5898764);
    assert!(!p.legacy_pairing);
    assert!(p.connected);
}

#[test]
fn path_used_when_adapter_absent() {
    let m = vec![entry("Path", text("/org/bluez/hci1"))];
    assert_eq!(decode(&m).unwrap().adapter, "/org/bluez/hci1");
}

#[test]
fn rssi_in_range_kept() {
    let m = vec![entry("RSSI", PropValue::Int64(-40))];
    assert_eq!(decode(&m).unwrap().rssi, -40);
}

#[test]
fn rssi_out_of_range_truncates() {
    let m = vec![entry("RSSI", PropValue::Int64(40000))];
    assert_eq!(decode(&m).unwrap().rssi, -25536);
    let m = vec![entry("RSSI", PropValue::Int64(-32769))];
    assert_eq!(decode(&m).unwrap().rssi, 32767);
    assert_eq!(narrow_i16(65536 + 5), 5);
    assert_eq!(narrow_i16(i64::MIN), 0);
    assert_eq!(narrow_i16(i64::MAX), -1);
}

#[test]
fn company_ids() {
    assert_eq!(ManufacturerCompany::from(0x004Cu16), ManufacturerCompany::Apple);
    assert_eq!(ManufacturerCompany::from(0x0000u16), ManufacturerCompany::Unknown);
    assert_eq!(ManufacturerCompany::from(0xFFFFu16), ManufacturerCompany::Unknown);
    assert_eq!(ManufacturerCompany::from(0x004Du16), ManufacturerCompany::Unknown);
    assert_eq!(ManufacturerCompany::default(), ManufacturerCompany::Unknown);
}

fn manufacturer(key: PropValue, bytes: Vec<u8>) -> PropValue {
    let items = bytes.into_iter().map(PropValue::Byte).collect();
    PropValue::Dict(vec![(key, PropValue::Variant(Box::new(PropValue::Array(items))))])
}

#[test]
fn manufacturer_data_decodes() {
    let m = vec![entry("ManufacturerData", manufacturer(PropValue::UInt16(0x004C), vec![2, 21, 9]))];
    let p = decode(&m).unwrap();
    assert_eq!(p.manufacturer_data.company, ManufacturerCompany::Apple);
    assert_eq!(p.manufacturer_data.data, vec![2, 21, 9]);

    let m = vec![entry("ManufacturerData", manufacturer(PropValue::UInt16(0x0006), vec![1]))];
    let p = decode(&m).unwrap();
    assert_eq!(p.manufacturer_data.company, ManufacturerCompany::Unknown);
    assert_eq!(p.manufacturer_data.data, vec![1]);
}

#[test]
fn manufacturer_key_of_other_type_ignored() {
    let m = vec![entry("ManufacturerData", manufacturer(text("76"), vec![4]))];
    let p = decode(&m).unwrap();
    assert_eq!(p.manufacturer_data.company, ManufacturerCompany::Unknown);
    assert_eq!(p.manufacturer_data.data, vec![4]);
}

#[test]
fn manufacturer_data_malformed_fails() {
    let m = vec![entry("ManufacturerData", PropValue::Dict(Vec::new()))];
    assert!(matches!(decode(&m), Err(Error::Decode)));
    let unwrapped = PropValue::Dict(vec![(PropValue::UInt16(0x004C), PropValue::Array(vec![PropValue::Byte(1)]))]);
    let m = vec![entry("ManufacturerData", unwrapped)];
    assert!(matches!(decode(&m), Err(Error::Decode)));
}

#[test]
fn uuid_list_decodes() {
    let s = "0000180d-0000-1000-8000-00805f9b34fb";
    let m = vec![entry("UUIDs", PropValue::Array(vec![text(s)]))];
    let p = decode(&m).unwrap();
    assert_eq!(p.uuids, vec![uuid_value(s)]);
    assert_eq!(p.uuids, vec![0x0000180d_0000_1000_8000_00805f9b34fbu128]);
}

#[test]
fn malformed_uuid_fails_whole_decode() {
    let m = vec![entry(
        "UUIDs",
        PropValue::Array(vec![text("0000180d-0000-1000-8000-00805f9b34fb"), text("not-a-uuid")]),
    )];
    assert!(matches!(decode(&m), Err(Error::Decode)));
    let m = vec![entry("UUIDs", PropValue::Array(vec![text("")]))];
    assert!(matches!(decode(&m), Err(Error::Decode)));
}

#[test]
fn wrong_shape_fails() {
    let m = vec![entry("Name", PropValue::Bool(true))];
    assert!(matches!(decode(&m), Err(Error::Decode)));
    let m = vec![entry("Paired", text("yes"))];
    assert!(matches!(decode(&m), Err(Error::Decode)));
    let m = vec![entry("RSSI", PropValue::UInt64(3))];
    assert!(matches!(decode(&m), Err(Error::Decode)));
    let m = vec![entry("Class", PropValue::Int32(3))];
    assert!(matches!(decode(&m), Err(Error::Decode)));
}
