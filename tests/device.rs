use blez::device::{Device, DevicePanStatus};
use blez::error::Error;
use blez::value::PropValue;

fn named(name: &str) -> Vec<(String, PropValue)> {
    vec![
        ("Name".to_string(), PropValue::Str(name.to_string())),
        ("RSSI".to_string(), PropValue::Int16(-50)),
    ]
}

fn transport() -> Error {
    Error::Transport("timed out".to_string())
}

#[test]
fn new_device_is_disconnected_and_empty() {
    let d = Device::new("/org/bluez/hci0/dev_00".to_string());
    assert_eq!(d.object_path, "/org/bluez/hci0/dev_00");
    assert_eq!(d.pan_status, DevicePanStatus::Disconnected);
    assert_eq!(d.properties.name, "");
}

#[test]
fn connect_reports_connecting_then_connected() {
    let mut d = Device::new("/org/bluez/hci0/dev_00".to_string());
    d.connect_pan();
    assert_eq!(d.pan_status, DevicePanStatus::Connecting);
    assert!(d.finish_connect_pan(Ok("bnep0".to_string())).is_ok());
    assert_eq!(d.pan_status, DevicePanStatus::Connected("bnep0".to_string()));
}

#[test]
fn connect_failure_reverts_to_disconnected() {
    let mut d = Device::new("/p".to_string());
    d.connect_pan();
    assert_eq!(d.finish_connect_pan(Err(transport())), Err(transport()));
    assert_eq!(d.pan_status, DevicePanStatus::Disconnected);
}

#[test]
fn disconnect_from_every_status() {
    for start in [
        DevicePanStatus::Disconnected,
        DevicePanStatus::Connecting,
        DevicePanStatus::Connected("bnep0".to_string()),
    ] {
        let mut d = Device::new("/p".to_string());
        d.pan_status = start;
        assert!(d.disconnect_pan(Ok(())).is_ok());
        assert_eq!(d.pan_status, DevicePanStatus::Disconnected);
    }
}

#[test]
fn disconnect_failure_keeps_status() {
    let mut d = Device::new("/p".to_string());
    d.pan_status = DevicePanStatus::Connected("bnep1".to_string());
    assert_eq!(d.disconnect_pan(Err(transport())), Err(transport()));
    assert_eq!(d.pan_status, DevicePanStatus::Connected("bnep1".to_string()));
}

#[test]
fn refresh_replaces_whole_snapshot() {
    let mut d = Device::new("/p".to_string());
    assert!(d.refresh(Ok(named("First"))).is_ok());
    assert_eq!(d.properties.name, "First");
    assert_eq!(d.properties.rssi, -50);
    let second = vec![("Alias".to_string(), PropValue::Str("B".to_string()))];
    assert!(d.refresh(Ok(second)).is_ok());
    assert_eq!(d.properties.name, "");
    assert_eq!(d.properties.rssi, 0);
    assert_eq!(d.properties.alias, "B");
}

#[test]
fn refresh_failure_keeps_snapshot() {
    let mut d = Device::new("/p".to_string());
    d.refresh(Ok(named("First"))).unwrap();
    assert_eq!(d.refresh(Err(transport())), Err(transport()));
    assert_eq!(d.properties.name, "First");
    let bad = vec![
        ("Name".to_string(), PropValue::Str("Second".to_string())),
        ("RSSI".to_string(), PropValue::Str("loud".to_string())),
    ];
    assert_eq!(d.refresh(Ok(bad)), Err(Error::Decode));
    assert_eq!(d.properties.name, "First");
    assert_eq!(d.properties.rssi, -50);
}

#[test]
fn rssi_update_touches_only_rssi() {
    let mut d = Device::new("/p".to_string());
    d.refresh(Ok(named("First"))).unwrap();
    d.update_rssi(Ok(-80));
    assert_eq!(d.properties.rssi, -80);
    assert_eq!(d.properties.name, "First");
    d.update_rssi(Err(transport()));
    assert_eq!(d.properties.rssi, -80);
}

#[test]
fn pan_status_resynchronizes() {
    let mut d = Device::new("/p".to_string());
    let s = d.refresh_pan_status(Ok(true), Ok("bnep2".to_string()));
    assert_eq!(s, Ok(DevicePanStatus::Connected("bnep2".to_string())));
    assert_eq!(d.pan_status, DevicePanStatus::Connected("bnep2".to_string()));
    let s = d.refresh_pan_status(Ok(false), Err(transport()));
    assert_eq!(s, Ok(DevicePanStatus::Disconnected));
    assert_eq!(d.pan_status, DevicePanStatus::Disconnected);
    d.pan_status = DevicePanStatus::Connecting;
    assert_eq!(d.refresh_pan_status(Err(transport()), Ok("x".to_string())), Err(transport()));
    assert_eq!(d.refresh_pan_status(Ok(true), Err(transport())), Err(transport()));
    assert_eq!(d.pan_status, DevicePanStatus::Connecting);
}
