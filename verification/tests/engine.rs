use game_engine::bluetooth::{BluetoothLEManager, BluetoothLERequest};
use game_engine::engine::{
    bluetooth_command_request, bluetooth_status, connect_request, disconnect_request, enable_virtual_bluetooth_requests,
    load_critter_by_id_event, load_critter_event, parse_command, play_audio_event, request_id, scan_request,
};
use game_engine::events::BevyToJsEvent;
use game_engine::ieee::{Real32, Real64};
use game_engine::zephyr::ZephyrCommand;

#[test]
fn request_ids() {
    assert_eq!(request_id("audio-", 1700000000123), "audio-1700000000123");
    assert_eq!(request_id("bt-scan-", 0), "bt-scan-0");
}

#[test]
fn command_parsing() {
    assert!(matches!(parse_command("{\"cmd\":\"battery\"}"), ZephyrCommand::GetBatteryLevel));
    assert!(matches!(parse_command("{\"cmd\":\"info\"}"), ZephyrCommand::GetDeviceInfo));
    assert!(matches!(parse_command("reboot"), ZephyrCommand::GetDeviceInfo));
    match bluetooth_command_request("dev", "battery please") {
        BluetoothLERequest::SendCommand { device_id, command, timeout_ms } => {
            assert_eq!(device_id.0, "dev");
            assert!(matches!(command, ZephyrCommand::GetBatteryLevel));
            assert_eq!(timeout_ms, Some(5000));
        }
        _ => panic!("expected a command"),
    }
}

#[test]
fn bluetooth_requests() {
    assert!(matches!(scan_request(Some(10)), BluetoothLERequest::StartScan { duration_ms: Some(10), device_filter: None }));
    assert!(matches!(connect_request("a"), BluetoothLERequest::Connect { device_id } if device_id.0 == "a"));
    assert!(matches!(disconnect_request("a"), BluetoothLERequest::Disconnect { device_id } if device_id.0 == "a"));
    let r = enable_virtual_bluetooth_requests(Real64 { bits: 0 });
    assert_eq!(r.len(), 3);
    assert!(matches!(r[0], BluetoothLERequest::EnableVirtualNetwork));
    assert!(matches!(&r[1], BluetoothLERequest::RegisterVirtualDevice { device } if device.info.id.0 == "virtual_collar_001"));
    assert!(matches!(&r[2], BluetoothLERequest::RegisterVirtualDevice { device } if device.info.id.0 == "virtual_feeder_001"));
}

#[test]
fn load_events() {
    let e = load_critter_event(7, "Bird", "bird");
    assert_eq!((e.critter_id, e.name.as_str(), e.species.as_str(), e.id.as_str()), (7, "Bird", "bird", "Bird"));
    let e = load_critter_by_id_event("bunny");
    assert_eq!((e.critter_id, e.name.as_str(), e.species.as_str(), e.id.as_str()), (0, "", "", "bunny"));
}

#[test]
fn audio_event_and_status() {
    match play_audio_event("audio-1".to_string(), "yipee.mp3", Real32 { bits: 0.8f32.to_bits() }) {
        BevyToJsEvent::PlayAudio { request_id, sound_id, volume } => {
            assert_eq!(request_id, "audio-1");
            assert_eq!(sound_id, "yipee.mp3");
            assert_eq!(f32::from_bits(volume.bits), 0.8);
        }
        _ => panic!("expected audio"),
    }
    let mut bt = BluetoothLEManager::new();
    let s = bluetooth_status(&bt);
    assert!(!s.scanning && !s.virtual_network_enabled);
    assert_eq!((s.connected_devices, s.discovered_devices), (0, 0));
    bt.handle_request(BluetoothLERequest::EnableVirtualNetwork, Real64 { bits: 0 });
    for r in enable_virtual_bluetooth_requests(Real64 { bits: 0 }) {
        bt.handle_request(r, Real64 { bits: 0 });
    }
    bt.handle_request(connect_request("virtual_collar_001"), Real64 { bits: 0 });
    bt.handle_request(scan_request(None), Real64 { bits: 0 });
    let s = bluetooth_status(&bt);
    assert!(s.scanning && s.virtual_network_enabled);
    assert_eq!((s.connected_devices, s.discovered_devices), (1, 2));
}
