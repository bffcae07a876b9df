use game_engine::events::{
    handle_js_to_bevy_event, BevyToJsEvent, JsEventOutcome, JsToBevyEvent, PendingRequests, SharedSettings,
};
use game_engine::ieee::{Real32, Real64};

fn vol(v: f32) -> Real32 {
    Real32 { bits: v.to_bits() }
}

fn at(ms: f64) -> Real64 {
    Real64 { bits: ms.to_bits() }
}

#[test]
fn test_event_bridge_integration() {
    let mut pending = PendingRequests::new();
    let mut settings = SharedSettings::default();
    // Send an audio event
    let event = BevyToJsEvent::PlayAudio {
        request_id: "integration-test".to_string(),
        sound_id: "test.mp3".to_string(),
        volume: vol(1.0),
    };
    pending.track(&event, at(100.0));
    // Check that pending request was tracked
    assert!(pending.audio_requests.contains_key("integration-test"));
    // Simulate JS response
    let response = JsToBevyEvent::AudioCompleted {
        request_id: "integration-test".to_string(),
        success: true,
        error_message: None,
        duration_seconds: Some(vol(1.5)),
    };
    let outcome = handle_js_to_bevy_event(&mut pending, &mut settings, &response);
    // Check that request was removed from pending
    assert!(!pending.audio_requests.contains_key("integration-test"));
    match outcome {
        JsEventOutcome::AudioFinished { request: Some(r) } => {
            assert_eq!(r.sound_id, "test.mp3");
            assert_eq!(f32::from_bits(r.volume.bits), 1.0);
            assert_eq!(r.timestamp, at(100.0));
        }
        _ => panic!("expected the tracked request"),
    }
}

#[test]
fn unknown_audio_completion_finds_nothing() {
    let mut pending = PendingRequests::new();
    let mut settings = SharedSettings::default();
    let response = JsToBevyEvent::AudioCompleted {
        request_id: "nope".to_string(),
        success: false,
        error_message: Some("boom".to_string()),
        duration_seconds: None,
    };
    let outcome = handle_js_to_bevy_event(&mut pending, &mut settings, &response);
    assert!(matches!(outcome, JsEventOutcome::AudioFinished { request: None }));
}

#[test]
fn scan_requests_are_tracked_and_answered() {
    let mut pending = PendingRequests::default();
    let mut settings = SharedSettings::default();
    pending.track(&BevyToJsEvent::BluetoothScan { request_id: "s1".to_string(), device_filter: "collar".to_string() }, at(1.0));
    pending.track(&BevyToJsEvent::BluetoothScan { request_id: "s2".to_string(), device_filter: "any".to_string() }, at(2.0));
    pending.track(&BevyToJsEvent::TestEvent { request_id: "t".to_string(), message: "hi".to_string() }, at(3.0));
    assert_eq!(pending.bluetooth_requests.len(), 2);
    assert_eq!(pending.audio_requests.len(), 0);
    let answer = JsToBevyEvent::BluetoothScanCompleted {
        request_id: "s1".to_string(),
        success: true,
        devices_found: vec!["a".to_string()],
        error_message: None,
    };
    match handle_js_to_bevy_event(&mut pending, &mut settings, &answer) {
        JsEventOutcome::ScanFinished { request: Some(r) } => assert_eq!(r.device_filter, "collar"),
        _ => panic!("expected the scan request"),
    }
    assert!(!pending.bluetooth_requests.contains_key("s1"));
    assert!(pending.bluetooth_requests.contains_key("s2"));
}

#[test]
fn settings_update_synchronizes_settings() {
    let mut pending = PendingRequests::new();
    let mut settings = SharedSettings::default();
    assert!(!settings.music_enabled);
    assert_eq!(f32::from_bits(settings.bgm_volume.bits), 0.6);
    assert_eq!(f32::from_bits(settings.sfx_volume.bits), 0.8);
    let pushed = SharedSettings { music_enabled: true, bgm_volume: vol(0.25), sfx_volume: vol(1.0) };
    let out = handle_js_to_bevy_event(
        &mut pending,
        &mut settings,
        &JsToBevyEvent::SettingsUpdated { request_id: "cfg".to_string(), settings: pushed },
    );
    assert!(matches!(out, JsEventOutcome::SettingsApplied));
    assert!(settings.music_enabled);
    assert_eq!(f32::from_bits(settings.bgm_volume.bits), 0.25);
    assert_eq!(f32::from_bits(settings.sfx_volume.bits), 1.0);
}

#[test]
fn other_events_are_only_noted() {
    let mut pending = PendingRequests::new();
    let mut settings = SharedSettings::default();
    pending.track(&BevyToJsEvent::PlayAudio { request_id: "a".to_string(), sound_id: "x".to_string(), volume: vol(0.5) }, at(0.0));
    let out = handle_js_to_bevy_event(&mut pending, &mut settings, &JsToBevyEvent::UserGesture { request_id: "g".to_string(), timestamp: at(9.0) });
    assert!(matches!(out, JsEventOutcome::Noted));
    let out = handle_js_to_bevy_event(
        &mut pending,
        &mut settings,
        &JsToBevyEvent::TestEventResponse { request_id: "a".to_string(), response_data: "d".to_string() },
    );
    assert!(matches!(out, JsEventOutcome::Noted));
    assert!(pending.audio_requests.contains_key("a"));
}
