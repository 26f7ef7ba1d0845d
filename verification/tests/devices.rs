use vesync::device::{DeviceResponse, PowerCommand, ToggleAction};
use vesync::{ConnectionStatus, Status, VeSyncAccount, VeSyncDevice, VeSyncError};

fn session() -> VeSyncAccount {
    VeSyncAccount { tk: "T1".to_string(), accountID: "A1".to_string() }
}

fn record(name: &str, cid: &str, status: &str, connection: &str) -> DeviceResponse {
    DeviceResponse {
        deviceName: name.to_string(),
        deviceImg: "https://example.invalid/plug.png".to_string(),
        cid: cid.to_string(),
        deviceStatus: status.to_string(),
        connectionType: "wifi".to_string(),
        connectionStatus: connection.to_string(),
        deviceType: "wifi-switch-1.3".to_string(),
        model: "wifi-switch".to_string(),
        currentFirmVersion: "1.99".to_string(),
    }
}

fn device_with_status(status: Status) -> VeSyncDevice {
    let mut device = VeSyncDevice::from_id(&session(), "CID");
    device.deviceStatus = status;
    device
}

#[test]
fn from_id_defaults_to_unknown() {
    let device = VeSyncDevice::from_id(&session(), "plug-1");
    assert_eq!(device.deviceName, "");
    assert_eq!(device.cid, "plug-1");
    assert_eq!(device.deviceStatus, Status::Unknown);
    assert_eq!(device.connectionStatus, ConnectionStatus::Unknown);
    assert_eq!(device.account.tk, "T1");
    assert_eq!(device.account.accountID, "A1");
}

#[test]
fn listing_yields_one_device_per_record() {
    let records = vec![
        record("lamp", "c1", "on", "online"),
        record("fan", "c2", "off", "offline"),
        record("heater", "c3", "off", "online"),
    ];
    let devices = session().get_devices(&records).unwrap();
    assert_eq!(devices.len(), 3);

    assert_eq!(devices[0].deviceName, "lamp");
    assert_eq!(devices[0].cid, "c1");
    assert_eq!(devices[0].deviceStatus, Status::On);
    assert_eq!(devices[0].connectionStatus, ConnectionStatus::Online);
    assert_eq!(devices[0].account.tk, "T1");
    assert_eq!(devices[0].account.accountID, "A1");

    assert_eq!(devices[1].deviceName, "fan");
    assert_eq!(devices[1].cid, "c2");
    assert_eq!(devices[1].deviceStatus, Status::Off);
    assert_eq!(devices[1].connectionStatus, ConnectionStatus::Offline);

    assert_eq!(devices[2].deviceName, "heater");
    assert_eq!(devices[2].cid, "c3");
    assert_eq!(devices[2].deviceStatus, Status::Off);
    assert_eq!(devices[2].connectionStatus, ConnectionStatus::Online);
}

#[test]
fn listing_of_no_records_is_empty() {
    let devices = session().get_devices(&Vec::new()).unwrap();
    assert!(devices.is_empty());
}

#[test]
fn listing_fails_whole_on_invalid_status_literal() {
    let records = vec![
        record("lamp", "c1", "on", "online"),
        record("fan", "c2", "dimmed", "online"),
        record("heater", "c3", "off", "online"),
    ];
    let r = session().get_devices(&records);
    assert!(matches!(r, Err(VeSyncError::Decode)));
}

#[test]
fn listing_fails_whole_on_invalid_connection_literal() {
    let records = vec![record("lamp", "c1", "on", "sleeping")];
    let r = session().get_devices(&records);
    assert!(matches!(r, Err(VeSyncError::Decode)));
}

#[test]
fn status_literals_are_exact() {
    assert_eq!(Status::from_literal("on").unwrap(), Status::On);
    assert_eq!(Status::from_literal("off").unwrap(), Status::Off);
    assert!(matches!(Status::from_literal("On"), Err(VeSyncError::Decode)));
    assert!(matches!(Status::from_literal(""), Err(VeSyncError::Decode)));
    assert_eq!(
        ConnectionStatus::from_literal("online").unwrap(),
        ConnectionStatus::Online
    );
    assert_eq!(
        ConnectionStatus::from_literal("offline").unwrap(),
        ConnectionStatus::Offline
    );
    assert!(matches!(
        ConnectionStatus::from_literal("onlin"),
        Err(VeSyncError::Decode)
    ));
}

#[test]
fn device_on_from_off_sends_one_put_then_caches() {
    // Cached status Off: turning the device on takes exactly one PUT.
    let mut device = device_with_status(Status::Off);
    let command = device.device_on().expect("a write is needed");
    assert_eq!(command.path, "/v1/wifi-switch-1.3/CID/status/on");
    assert_eq!(command.desired, Status::On);

    // Confirmed success: the cache moves to the requested state.
    assert_eq!(device.apply_power(Status::On, true), Ok(()));
    assert_eq!(device.deviceStatus, Status::On);
}

#[test]
fn set_power_is_idempotent() {
    let mut device = device_with_status(Status::Off);
    let command = device.device_on().expect("a write is needed");
    assert_eq!(command.desired, Status::On);
    assert_eq!(device.apply_power(Status::On, true), Ok(()));
    // Same desired state again: no second network write is requested.
    assert!(device.device_on().is_none());
    assert!(device.device_off().is_some());
}

#[test]
fn failed_write_leaves_cache_unchanged() {
    let mut device = device_with_status(Status::Off);
    let r = device.apply_power(Status::On, false);
    assert_eq!(r, Err(VeSyncError::Command));
    assert_eq!(device.deviceStatus, Status::Off);
}

#[test]
fn toggle_from_known_status_is_one_write() {
    let device = device_with_status(Status::On);
    match device.device_toggle() {
        ToggleAction::Send(PowerCommand { path, desired }) => {
            assert_eq!(desired, Status::Off);
            assert_eq!(path, "/v1/wifi-switch-1.3/CID/status/off");
        }
        ToggleAction::Refresh(_) => panic!("toggle from On must write, not refresh"),
    }

    let device = device_with_status(Status::Off);
    match device.device_toggle() {
        ToggleAction::Send(PowerCommand { path, desired }) => {
            assert_eq!(desired, Status::On);
            assert_eq!(path, "/v1/wifi-switch-1.3/CID/status/on");
        }
        ToggleAction::Refresh(_) => panic!("toggle from Off must write, not refresh"),
    }
}

#[test]
fn toggle_from_unknown_refreshes_once_then_writes_once() {
    let mut device = device_with_status(Status::Unknown);
    // First round: one refresh read, no write yet.
    match device.device_toggle() {
        ToggleAction::Refresh(path) => assert_eq!(path, "/v1/device/CID/detail"),
        ToggleAction::Send(_) => panic!("toggle from Unknown must refresh first"),
    }
    // The refreshed detail reports "on".
    assert_eq!(device.update("on"), Ok(()));
    assert_eq!(device.deviceStatus, Status::On);
    // Second round: exactly one write, to the opposite state.
    match device.device_toggle() {
        ToggleAction::Send(PowerCommand { path, desired }) => {
            assert_eq!(desired, Status::Off);
            assert_eq!(path, "/v1/wifi-switch-1.3/CID/status/off");
        }
        ToggleAction::Refresh(_) => panic!("a known status must not refresh again"),
    }
}

#[test]
fn update_with_invalid_literal_is_fetch_error() {
    let mut device = device_with_status(Status::Off);
    let r = device.update("standby");
    assert_eq!(r, Err(VeSyncError::Fetch));
    assert_eq!(device.deviceStatus, Status::Off);
}

#[test]
fn read_paths_are_keyed_by_device_id() {
    let device = device_with_status(Status::Unknown);
    assert_eq!(device.detail_path(), "/v1/device/CID/detail");
    assert_eq!(device.energy_week_path(), "/v1/device/CID/energy/week");
    assert_eq!(
        device.configurations_path(),
        "/v1/device/CID/configurations"
    );
}
