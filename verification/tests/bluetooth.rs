use game_engine::bluetooth::{
    create_test_virtual_devices, connect_to_device, simulated_response, trigger_bluetoothle_scan,
    BluetoothLEConnectionState, BluetoothLEDeviceType, BluetoothLEError, BluetoothLEManager,
    BluetoothLERequest, BluetoothLEResponse, CollarType, DeviceId, DeviceInfo, SensorType,
    VirtualCommandHandler, VirtualDevice,
};
use game_engine::ieee::Real64;
use game_engine::keyed::KeyedList;
use game_engine::zephyr::{
    command_string, CollarCommand, FeedingCommand, FeedingSchedule, TrackerCommand, TrainingMode,
    ZephyrCommand, ZephyrResponse,
};

fn now(ms: f64) -> Real64 {
    Real64 { bits: ms.to_bits() }
}

fn plain_device(id: &str, handlers: &[(&str, &str)]) -> VirtualDevice {
    let mut table = KeyedList::new();
    for (p, t) in handlers {
        table.insert(
            p.to_string(),
            VirtualCommandHandler { command_pattern: p.to_string(), response_template: t.to_string(), delay_ms: 0 },
        );
    }
    VirtualDevice {
        info: DeviceInfo {
            id: DeviceId(id.to_string()),
            name: format!("{} device", id),
            device_type: BluetoothLEDeviceType::TestDevice { device_name: id.to_string() },
            rssi: -50,
            services: vec![],
            manufacturer_data: None,
            is_connected: false,
            last_seen: None,
            battery_level: None,
        },
        command_handlers: table,
        state: KeyedList::new(),
        auto_responses: false,
    }
}

#[test]
fn new_manager_is_idle() {
    let m = BluetoothLEManager::new();
    assert!(!m.scanning);
    assert_eq!(m.error_count, 0);
    assert_eq!(m.retry_backoff_ms, 100);
    assert!(!m.virtual_network_enabled);
    assert_eq!(m.virtual_devices.len(), 0);
    assert!(m.last_error.is_none());
    assert!(m.should_retry());
    let d = BluetoothLEManager::default();
    assert_eq!(d.retry_backoff_ms, 100);
}

#[test]
fn handle_error_doubles_backoff_and_stops_retries_after_three() {
    let mut m = BluetoothLEManager::new();
    m.handle_error(BluetoothLEError::AdapterNotFound);
    assert_eq!(m.error_count, 1);
    assert_eq!(m.retry_backoff_ms, 200);
    assert!(m.should_retry());
    m.handle_error(BluetoothLEError::ServiceDiscoveryFailed);
    assert_eq!(m.retry_backoff_ms, 400);
    assert!(m.should_retry());
    m.handle_error(BluetoothLEError::ConnectionFailed { reason: "lost".to_string() });
    assert_eq!(m.error_count, 3);
    assert_eq!(m.retry_backoff_ms, 800);
    assert!(!m.should_retry());
    assert!(matches!(m.last_error, Some(BluetoothLEError::ConnectionFailed { .. })));
}

#[test]
fn backoff_caps_after_ten_errors() {
    let mut m = BluetoothLEManager::new();
    for _ in 0..12 {
        m.handle_error(BluetoothLEError::AdapterNotFound);
    }
    assert_eq!(m.error_count, 12);
    assert_eq!(m.retry_backoff_ms, 102_400);
    assert!(!m.should_retry());
}

#[test]
fn error_messages() {
    assert_eq!(BluetoothLEError::AdapterNotFound.message(), "BluetoothLE adapter not found");
    assert_eq!(BluetoothLEError::DeviceNotFound { device_id: "d1".to_string() }.message(), "Device not found: d1");
    assert_eq!(BluetoothLEError::ConnectionFailed { reason: "x".to_string() }.message(), "Connection failed: x");
    assert_eq!(BluetoothLEError::PairingFailed { reason: "pin".to_string() }.message(), "Pairing failed: pin");
    assert_eq!(BluetoothLEError::ServiceDiscoveryFailed.message(), "Service discovery failed");
    assert_eq!(BluetoothLEError::CommandTimeout { command: "Reboot".to_string() }.message(), "Command timeout: Reboot");
    assert_eq!(BluetoothLEError::PlatformError { message: "web".to_string() }.message(), "Platform error: web");
}

#[test]
fn test_devices_are_collar_and_feeder() {
    let t = now(1234.0);
    let devices = create_test_virtual_devices(t);
    assert_eq!(devices.len(), 2);
    let collar = &devices[0];
    assert_eq!(collar.info.id.0, "virtual_collar_001");
    assert_eq!(collar.info.name, "Test Smart Collar");
    assert!(matches!(collar.info.device_type, BluetoothLEDeviceType::SmartCollar { collar_type: CollarType::TrainingCollar }));
    assert_eq!(collar.info.rssi, -45);
    assert_eq!(collar.info.services, vec!["uuid_collar_service".to_string()]);
    assert_eq!(collar.info.manufacturer_data.as_deref(), Some("ZephyrCollar_v2.1"));
    assert_eq!(collar.info.last_seen, Some(t));
    assert_eq!(collar.info.battery_level, Some(85));
    assert_eq!(collar.command_handlers.len(), 2);
    let h = collar.command_handlers.get("GetBatteryLevel").unwrap();
    assert_eq!(h.response_template, "85%");
    assert_eq!(h.delay_ms, 100);
    assert_eq!(collar.command_handlers.get("Vibrate").unwrap().response_template, "Vibrating");
    let feeder = &devices[1];
    assert_eq!(feeder.info.id.0, "virtual_feeder_001");
    assert!(matches!(feeder.info.device_type, BluetoothLEDeviceType::FeedingStation { capacity_ml: 2000 }));
    assert_eq!(feeder.info.rssi, -38);
    assert_eq!(feeder.info.battery_level, Some(92));
    assert_eq!(feeder.command_handlers.get("GetFoodLevel").unwrap().response_template, "1200g/2000g");
    assert_eq!(feeder.command_handlers.get("DispenseFood").unwrap().delay_ms, 200);
    assert!(feeder.auto_responses);
}

#[test]
fn register_then_execute_uses_matching_handler() {
    let mut m = BluetoothLEManager::new();
    let devices = create_test_virtual_devices(now(1.0));
    for d in devices {
        m.register_virtual_device(d);
    }
    assert!(m.discovered_devices.contains_key("virtual_collar_001"));
    assert!(m.discovered_devices.contains_key("virtual_feeder_001"));
    let id = DeviceId("virtual_collar_001".to_string());
    let r = m.execute_virtual_command(&id, "GetBatteryLevel", now(5.0));
    assert_eq!(r.as_deref(), Some("85%"));
    assert_eq!(m.virtual_command_log.len(), 1);
    assert_eq!(m.virtual_command_log[0].command, "GetBatteryLevel");
    assert_eq!(m.virtual_command_log[0].response.as_deref(), Some("85%"));
    assert_eq!(m.virtual_command_log[0].timestamp, now(5.0));
    // no handler matches: default reply, no response logged
    let r = m.execute_virtual_command(&id, "Reboot", now(6.0));
    assert_eq!(r.as_deref(), Some("OK"));
    assert_eq!(m.virtual_command_log.len(), 2);
    assert_eq!(m.virtual_command_log[1].response, None);
}

#[test]
fn unknown_virtual_device_gives_none() {
    let mut m = BluetoothLEManager::new();
    let r = m.execute_virtual_command(&DeviceId("ghost".to_string()), "GetBatteryLevel", now(1.0));
    assert_eq!(r, None);
    assert!(m.virtual_command_log.is_empty());
}

#[test]
fn first_matching_handler_in_table_order_wins() {
    let mut m = BluetoothLEManager::new();
    m.register_virtual_device(plain_device("d", &[("Level", "first"), ("Battery", "second")]));
    let r = m.execute_virtual_command(&DeviceId("d".to_string()), "GetBatteryLevel", now(0.0));
    assert_eq!(r.as_deref(), Some("first"));
}

#[test]
fn reregistering_replaces_device() {
    let mut m = BluetoothLEManager::new();
    m.register_virtual_device(plain_device("d", &[("A", "one")]));
    m.register_virtual_device(plain_device("d", &[("A", "two")]));
    assert_eq!(m.virtual_devices.len(), 1);
    let r = m.execute_virtual_command(&DeviceId("d".to_string()), "A", now(0.0));
    assert_eq!(r.as_deref(), Some("two"));
}

#[test]
fn scan_start_reports_virtual_devices_when_enabled() {
    let mut m = BluetoothLEManager::new();
    for d in create_test_virtual_devices(now(0.0)) {
        m.register_virtual_device(d);
    }
    let r = m.handle_request(BluetoothLERequest::StartScan { duration_ms: Some(1000), device_filter: None }, now(1.0));
    assert!(m.scanning);
    assert_eq!(r.len(), 1);
    assert!(matches!(r[0], BluetoothLEResponse::ScanStarted));
    let r = m.handle_request(BluetoothLERequest::EnableVirtualNetwork, now(1.0));
    assert!(matches!(r[0], BluetoothLEResponse::VirtualNetworkEnabled));
    let r = m.handle_request(BluetoothLERequest::StartScan { duration_ms: None, device_filter: None }, now(2.0));
    assert_eq!(r.len(), 3);
    match (&r[1], &r[2]) {
        (BluetoothLEResponse::DeviceDiscovered { device: a }, BluetoothLEResponse::DeviceDiscovered { device: b }) => {
            assert_eq!(a.id.0, "virtual_collar_001");
            assert_eq!(b.id.0, "virtual_feeder_001");
        }
        _ => panic!("expected two discoveries"),
    }
    let r = m.handle_request(BluetoothLERequest::StopScan, now(3.0));
    assert!(!m.scanning);
    assert!(matches!(r[0], BluetoothLEResponse::ScanStopped));
}

#[test]
fn connect_virtual_device() {
    let mut m = BluetoothLEManager::new();
    m.handle_request(BluetoothLERequest::EnableVirtualNetwork, now(0.0));
    let dev = create_test_virtual_devices(now(0.0)).remove(1);
    let r = m.handle_request(BluetoothLERequest::RegisterVirtualDevice { device: dev }, now(0.0));
    assert!(matches!(&r[0], BluetoothLEResponse::VirtualDeviceRegistered { device_id } if device_id.0 == "virtual_feeder_001"));
    let r = m.handle_request(connect_to_device(DeviceId("virtual_feeder_001".to_string())), now(1.0));
    assert!(matches!(&r[0], BluetoothLEResponse::Connected { device_id } if device_id.0 == "virtual_feeder_001"));
    assert!(matches!(m.connection_states.get("virtual_feeder_001"), Some(BluetoothLEConnectionState::Connected)));
    assert_eq!(m.connected_devices.get("virtual_feeder_001").unwrap().name, "Test Feeding Station");
}

#[test]
fn connect_real_device_is_left_connecting() {
    let mut m = BluetoothLEManager::new();
    let r = m.handle_request(BluetoothLERequest::Connect { device_id: DeviceId("real".to_string()) }, now(0.0));
    assert!(r.is_empty());
    assert!(matches!(m.connection_states.get("real"), Some(BluetoothLEConnectionState::Connecting)));
    assert!(!m.connected_devices.contains_key("real"));
}

#[test]
fn send_command_to_virtual_collar() {
    let mut m = BluetoothLEManager::new();
    m.handle_request(BluetoothLERequest::EnableVirtualNetwork, now(0.0));
    for d in create_test_virtual_devices(now(0.0)) {
        m.handle_request(BluetoothLERequest::RegisterVirtualDevice { device: d }, now(0.0));
    }
    let r = m.handle_request(
        BluetoothLERequest::SendCommand {
            device_id: DeviceId("virtual_collar_001".to_string()),
            command: ZephyrCommand::GetBatteryLevel,
            timeout_ms: Some(5000),
        },
        now(10.0),
    );
    assert_eq!(r.len(), 1);
    match &r[0] {
        BluetoothLEResponse::CommandResponse { device_id, command, response, latency_ms } => {
            assert_eq!(device_id.0, "virtual_collar_001");
            assert!(matches!(command, ZephyrCommand::GetBatteryLevel));
            assert!(matches!(response, ZephyrResponse::BatteryLevel { percentage: 85, voltage_mv: 3700 }));
            assert_eq!(*latency_ms, 50);
        }
        _ => panic!("expected a command response"),
    }
    assert_eq!(m.virtual_command_log.last().unwrap().response.as_deref(), Some("85%"));
    // a collar command whose text contains a handler pattern
    let vib = ZephyrCommand::CollarCommands { command: CollarCommand::Vibrate { intensity: 3, duration_ms: 250 } };
    let r = m.handle_request(
        BluetoothLERequest::SendCommand { device_id: DeviceId("virtual_collar_001".to_string()), command: vib, timeout_ms: None },
        now(11.0),
    );
    assert!(matches!(&r[0], BluetoothLEResponse::CommandResponse { response: ZephyrResponse::Success, .. }));
    assert_eq!(m.virtual_command_log.last().unwrap().response.as_deref(), Some("Vibrating"));
    assert_eq!(
        m.virtual_command_log.last().unwrap().command,
        "CollarCommands { command: Vibrate { intensity: 3, duration_ms: 250 } }"
    );
}

#[test]
fn send_command_without_virtual_network_is_ignored() {
    let mut m = BluetoothLEManager::new();
    let r = m.handle_request(
        BluetoothLERequest::SendCommand { device_id: DeviceId("x".to_string()), command: ZephyrCommand::Reboot, timeout_ms: None },
        now(0.0),
    );
    assert!(r.is_empty());
    assert!(m.virtual_command_log.is_empty());
    // enabled, but unknown device: no answer
    m.handle_request(BluetoothLERequest::EnableVirtualNetwork, now(0.0));
    let r = m.handle_request(
        BluetoothLERequest::SendCommand { device_id: DeviceId("x".to_string()), command: ZephyrCommand::Reboot, timeout_ms: None },
        now(0.0),
    );
    assert!(r.is_empty());
}

#[test]
fn unhandled_requests_change_nothing() {
    let mut m = BluetoothLEManager::new();
    m.handle_request(BluetoothLERequest::EnableVirtualNetwork, now(0.0));
    let reqs = vec![
        BluetoothLERequest::Pair { device_id: DeviceId("a".to_string()), pin: Some("0000".to_string()) },
        BluetoothLERequest::RemoveVirtualDevice { device_id: DeviceId("a".to_string()) },
        BluetoothLERequest::SimulateDeviceCommand { device_id: DeviceId("a".to_string()), command: "x".to_string() },
    ];
    for r in reqs {
        let out = m.handle_request(r, now(0.0));
        assert!(out.is_empty());
    }
    assert!(m.virtual_network_enabled);
    assert_eq!(m.connection_states.len(), 0);
}

#[test]
fn disable_virtual_network() {
    let mut m = BluetoothLEManager::new();
    m.handle_request(BluetoothLERequest::EnableVirtualNetwork, now(0.0));
    assert!(m.virtual_network_enabled);
    let r = m.handle_request(BluetoothLERequest::DisableVirtualNetwork, now(1.0));
    assert!(!m.virtual_network_enabled);
    assert_eq!(r.len(), 1);
    assert!(matches!(r[0], BluetoothLEResponse::VirtualNetworkDisabled));
}

#[test]
fn disconnect_connected_device() {
    let mut m = BluetoothLEManager::new();
    m.handle_request(BluetoothLERequest::EnableVirtualNetwork, now(0.0));
    for d in create_test_virtual_devices(now(0.0)) {
        m.handle_request(BluetoothLERequest::RegisterVirtualDevice { device: d }, now(0.0));
    }
    m.handle_request(BluetoothLERequest::Connect { device_id: DeviceId("virtual_collar_001".to_string()) }, now(1.0));
    assert!(m.connected_devices.contains_key("virtual_collar_001"));
    let r = m.handle_request(BluetoothLERequest::Disconnect { device_id: DeviceId("virtual_collar_001".to_string()) }, now(2.0));
    assert!(!m.connected_devices.contains_key("virtual_collar_001"));
    assert!(matches!(m.connection_states.get("virtual_collar_001"), Some(BluetoothLEConnectionState::Disconnected)));
    assert!(matches!(&r[0], BluetoothLEResponse::Disconnected { device_id, reason: None } if device_id.0 == "virtual_collar_001"));
    // the virtual device itself stays registered
    assert!(m.virtual_devices.contains_key("virtual_collar_001"));
}

#[test]
fn simulated_responses() {
    assert!(matches!(simulated_response(&ZephyrCommand::GetBatteryLevel), ZephyrResponse::BatteryLevel { percentage: 85, voltage_mv: 3700 }));
    match simulated_response(&ZephyrCommand::GetDeviceInfo) {
        ZephyrResponse::DeviceInfo { firmware_version, hardware_version, serial_number } => {
            assert_eq!(firmware_version, "1.0.0");
            assert_eq!(hardware_version, "v2.1");
            assert_eq!(serial_number, "VRT001");
        }
        _ => panic!("expected device info"),
    }
    assert!(matches!(simulated_response(&ZephyrCommand::Reboot), ZephyrResponse::Success));
}

#[test]
fn command_text_matches_derived_debug() {
    let cmds = vec![
        ZephyrCommand::GetDeviceInfo,
        ZephyrCommand::GetBatteryLevel,
        ZephyrCommand::SetLEDState { r: 255, g: 0, b: 17 },
        ZephyrCommand::Reboot,
        ZephyrCommand::CollarCommands { command: CollarCommand::Vibrate { intensity: 9, duration_ms: 1000 } },
        ZephyrCommand::CollarCommands { command: CollarCommand::PlaySound { sound_id: 2, volume: 80 } },
        ZephyrCommand::CollarCommands { command: CollarCommand::SetTrainingMode { mode: TrainingMode::Silent } },
        ZephyrCommand::CollarCommands { command: CollarCommand::GetLocation },
        ZephyrCommand::FeedingCommands { command: FeedingCommand::DispenseFood { amount_grams: 40 } },
        ZephyrCommand::FeedingCommands {
            command: FeedingCommand::SetFeedingSchedule {
                schedule: FeedingSchedule { times: vec!["08:00".to_string(), "18:30".to_string()], portions: vec![100, 120] },
            },
        },
        ZephyrCommand::FeedingCommands {
            command: FeedingCommand::SetFeedingSchedule { schedule: FeedingSchedule { times: vec![], portions: vec![] } },
        },
        ZephyrCommand::TrackerCommands { command: TrackerCommand::GetActivityData { start_time: 0, end_time: 18446744073709551615 } },
        ZephyrCommand::TrackerCommands { command: TrackerCommand::GetSensorData { sensor: SensorType::HeartRate } },
        ZephyrCommand::TrackerCommands { command: TrackerCommand::CalibrateDevice },
        ZephyrCommand::RawCommand {
            service_uuid: "svc \"q\"\n".to_string(),
            characteristic_uuid: "chr\\é".to_string(),
            data: vec![0, 1, 255],
        },
    ];
    for c in &cmds {
        assert_eq!(command_string(c), format!("{:?}", c));
    }
    assert_eq!(command_string(&cmds[2]), "SetLEDState { r: 255, g: 0, b: 17 }");
}

#[test]
fn scan_and_connect_requests() {
    match trigger_bluetoothle_scan(None, Some(3000)) {
        BluetoothLERequest::StartScan { duration_ms, device_filter } => {
            assert_eq!(duration_ms, Some(3000));
            assert!(device_filter.is_none());
        }
        _ => panic!("expected a scan"),
    }
    assert!(matches!(connect_to_device(DeviceId("z".to_string())), BluetoothLERequest::Connect { device_id } if device_id.0 == "z"));
}

#[test]
fn device_copy_keeps_contents() {
    let info = DeviceInfo {
        id: DeviceId("a".to_string()),
        name: "n".to_string(),
        device_type: BluetoothLEDeviceType::VirtualDevice {
            emulated_type: Box::new(BluetoothLEDeviceType::ActivityTracker { sensors: vec![SensorType::GPS, SensorType::Gyroscope] }),
        },
        rssi: -1,
        services: vec!["s1".to_string(), "s2".to_string()],
        manufacturer_data: Some("m".to_string()),
        is_connected: true,
        last_seen: Some(now(2.5)),
        battery_level: Some(3),
    };
    let c = info.copy();
    assert_eq!(format!("{:?}", c), format!("{:?}", info));
}
