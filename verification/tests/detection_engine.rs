use proximityd::config::app::{DetectionThresholds, ScannerConfig};
use proximityd::config::devices::{DeviceConfig, DevicesConfig};
use proximityd::detection::debounce::DebounceTimer;
use proximityd::detection::engine::DetectionEngine;
use proximityd::detection::loops::{
    daemon_settings, detection_loop_step, scan_loop_step, DaemonSettings, DetectionAction, DetectionEvent, ScanAction,
    ScanEvent,
};
use proximityd::state::{PresenceEvent, PresenceState};

const SEC: u128 = 1_000_000_000;

fn test_config() -> DetectionThresholds {
    DetectionThresholds { track_unknown: false, enter_rssi_threshold_dbm: -70, enter_duration_seconds: 1, exit_timeout_seconds: 2 }
}

fn test_devices() -> DevicesConfig {
    let mut devices = DevicesConfig::default();
    devices.insert(
        "AA:BB:CC:DD:EE:FF".to_string(),
        DeviceConfig { mac: "AA:BB:CC:DD:EE:FF".to_string(), name: "Test Phone".to_string() },
    );
    devices
}

#[test]
fn new_timer_has_no_qualified_time() {
    let timer = DebounceTimer::new(-50);
    assert!(timer.first_qualified_seen.is_none());
    assert_eq!(timer.last_rssi, -50);
}

#[test]
fn record_qualified_sighting_starts_timer() {
    let mut timer = DebounceTimer::new(-80);
    timer.record_sighting(-60, -70);
    assert!(timer.first_qualified_seen.is_some());
    assert_eq!(timer.last_rssi, -60);
}

#[test]
fn record_weak_sighting_does_not_start_timer() {
    let mut timer = DebounceTimer::new(-60);
    timer.record_sighting(-80, -70);
    assert!(timer.first_qualified_seen.is_none());
    assert_eq!(timer.last_rssi, -80);
}

#[test]
fn record_sighting_at_sets_last_seen_and_keeps_running_timer() {
    let mut timer = DebounceTimer::new(-80);
    let first = std::time::Instant::now();
    timer.record_sighting_at(-70, -70, first);
    assert_eq!(timer.last_seen, first);
    assert_eq!(timer.first_qualified_seen, Some(first));
    let later = first + std::time::Duration::from_secs(3);
    timer.record_sighting_at(-50, -70, later);
    assert_eq!(timer.last_seen, later);
    assert_eq!(timer.first_qualified_seen, Some(first));
    assert_eq!(timer.last_rssi, -50);
}

#[test]
fn reset_enter_clears_qualified_timer() {
    let mut timer = DebounceTimer::new(-80);
    timer.record_sighting(-60, -70);
    assert!(timer.first_qualified_seen.is_some());
    timer.reset_enter();
    assert!(timer.first_qualified_seen.is_none());
}

#[test]
fn evaluate_scan_unknown_device_ignored_when_track_unknown_false() {
    let mut engine = DetectionEngine::new(test_config(), test_devices());
    let event = engine.evaluate_scan("00:00:00:00:00:00", -60);
    assert!(event.is_none());
    assert!(engine.state_table().get("00:00:00:00:00:00").is_none());
}

#[test]
fn evaluate_scan_tracks_unknown_when_configured() {
    let mut config = test_config();
    config.track_unknown = true;
    let mut engine = DetectionEngine::new(config, test_devices());
    let event = engine.evaluate_scan("00:00:00:00:00:00", -60);
    assert!(event.is_none());
    assert!(engine.state_table().get("00:00:00:00:00:00").is_some());
}

#[test]
fn evaluate_scan_known_device_updates_state_table() {
    let mut engine = DetectionEngine::new(test_config(), test_devices());
    let event = engine.evaluate_scan("AA:BB:CC:DD:EE:FF", -60);
    assert!(event.is_none());
    let dev = engine.state_table().get("AA:BB:CC:DD:EE:FF").unwrap();
    assert_eq!(dev.rssi, -60);
}

#[test]
fn evaluate_scan_weak_rssi_does_not_trigger_enter() {
    let mut engine = DetectionEngine::new(test_config(), test_devices());
    let event = engine.evaluate_scan("AA:BB:CC:DD:EE:FF", -80);
    assert!(event.is_none());
    assert_eq!(engine.state_table().get_state("AA:BB:CC:DD:EE:FF"), Some(PresenceState::Pending));
}

#[test]
fn tracked_count_reflects_unique_devices() {
    let mut config = test_config();
    config.track_unknown = true;
    let mut engine = DetectionEngine::new(config, test_devices());
    assert_eq!(engine.tracked_count(), 0);
    engine.evaluate_scan("AA:BB:CC:DD:EE:FF", -60);
    assert_eq!(engine.tracked_count(), 1);
    engine.evaluate_scan("11:22:33:44:55:66", -60);
    assert_eq!(engine.tracked_count(), 2);
    engine.evaluate_scan("AA:BB:CC:DD:EE:FF", -55);
    assert_eq!(engine.tracked_count(), 2);
}

#[test]
fn enter_after_debounce_then_exit_after_timeout() {
    let mut engine = DetectionEngine::new(test_config(), test_devices());
    assert!(engine.evaluate_scan_at("AA:BB:CC:DD:EE:FF", -60, 0).is_none());
    assert!(engine.evaluate_scan_at("AA:BB:CC:DD:EE:FF", -60, SEC / 2).is_none());
    let ev = engine.evaluate_scan_at("AA:BB:CC:DD:EE:FF", -60, SEC + 1);
    assert!(matches!(ev, Some(PresenceEvent::Entered { .. })));
    assert!(engine.is_present("AA:BB:CC:DD:EE:FF"));
    assert!(engine.evaluate_scan_at("AA:BB:CC:DD:EE:FF", -55, SEC + 2).is_none());
    assert!(engine.check_exits_at(2 * SEC).is_empty());
    let exits = engine.check_exits_at(3 * SEC + 3);
    assert_eq!(exits.len(), 1);
    assert!(matches!(exits[0], PresenceEvent::Exited { .. }));
    assert!(!engine.is_present("AA:BB:CC:DD:EE:FF"));
    assert!(engine.check_exits_at(10 * SEC).is_empty());
}

#[test]
fn re_enter_needs_full_debounce() {
    let mut engine = DetectionEngine::new(test_config(), test_devices());
    engine.evaluate_scan_at("AA:BB:CC:DD:EE:FF", -60, 0);
    assert!(engine.evaluate_scan_at("AA:BB:CC:DD:EE:FF", -60, SEC + 1).is_some());
    assert_eq!(engine.check_exits_at(4 * SEC).len(), 1);
    assert!(engine.evaluate_scan_at("AA:BB:CC:DD:EE:FF", -60, 4 * SEC + 1).is_none());
    assert!(engine.evaluate_scan_at("AA:BB:CC:DD:EE:FF", -60, 5 * SEC).is_none());
    assert!(engine.evaluate_scan_at("AA:BB:CC:DD:EE:FF", -60, 5 * SEC + 2).is_some());
}

#[test]
fn scan_loop_decisions() {
    assert_eq!(scan_loop_step(ScanEvent::Shutdown, 10), ScanAction::Stop);
    assert_eq!(scan_loop_step(ScanEvent::ReceiverGone, 10), ScanAction::Stop);
    assert_eq!(scan_loop_step(ScanEvent::Sighting, 10), ScanAction::Forward);
    assert_eq!(scan_loop_step(ScanEvent::StreamEnded, 10), ScanAction::Recover { wait_secs: 30 });
    assert_eq!(scan_loop_step(ScanEvent::WindowClosed, 10), ScanAction::Rest { wait_secs: 10 });
}

#[test]
fn detection_loop_decisions() {
    assert_eq!(detection_loop_step(DetectionEvent::Shutdown), DetectionAction::Stop);
    assert_eq!(detection_loop_step(DetectionEvent::SenderGone), DetectionAction::Stop);
    assert_eq!(detection_loop_step(DetectionEvent::Sighting { rssi: Some(-40) }), DetectionAction::Evaluate { rssi: -40 });
    assert_eq!(detection_loop_step(DetectionEvent::Sighting { rssi: None }), DetectionAction::Evaluate { rssi: i16::MIN });
    assert_eq!(detection_loop_step(DetectionEvent::ExitTimer), DetectionAction::CheckExits);
}

#[test]
fn daemon_settings_defaults_and_overrides() {
    let unset = daemon_settings(None, 2);
    assert_eq!(unset, DaemonSettings { ble_enabled: true, scan_interval_secs: 30, exit_check_secs: 5 });
    let ble = ScannerConfig { enabled: false, scan_interval_sec: 12, router_ip: None, snmp_community: "public".to_string(), subnet: None };
    assert_eq!(daemon_settings(Some(&ble), 45), DaemonSettings { ble_enabled: false, scan_interval_secs: 12, exit_check_secs: 45 });
}
