use merchant_emulator::device::{Device, BATTERY_FLOOR, INITIAL_BATTERY};
use merchant_emulator::polling::{
    classify_status, DeviceManager, HeartbeatAction, LoopControl, PollNext, PollOutcome,
    PollStatus, ReportAction, HEALTH_CHECK_PERIOD_MS, HEARTBEAT_PERIOD_MS, INFO_UPDATE_PERIOD_MS,
    LONG_POLL_RETRY_DELAY_MS, MAX_LONG_POLL_FAILURES, NETWORK_SPEED,
};

fn device() -> Device {
    Device::with_identity("dev-1".to_string(), 1_700_000_000_000, "phone".to_string())
}

fn connected() -> DeviceManager {
    let mut d = device();
    d.connect_at("code".to_string(), "tok".to_string(), 1_700_000_000_500);
    DeviceManager::new(d)
}

fn answered(status: Option<&str>, command: Option<&str>) -> PollOutcome {
    PollOutcome::Answered {
        status: status.map(|s| s.to_string()),
        command: command.map(|s| s.to_string()),
    }
}

#[test]
fn new_device_is_disconnected_with_the_documented_defaults() {
    let d = device();
    assert_eq!(d.id, "dev-1");
    assert_eq!(d.name, "phone");
    assert_eq!(d.device_code, None);
    assert_eq!(d.token, None);
    assert_eq!(d.trader_id, None);
    assert!(!d.is_connected);
    assert_eq!(d.battery_level, 85);
    assert_eq!(INITIAL_BATTERY, 85);
    assert_eq!(d.network_info, "Wi-Fi");
    assert_eq!(d.device_model, "Google Pixel 7");
    assert_eq!(d.android_version, "13");
    assert_eq!(d.app_version, "1.0.0");
    assert_eq!(d.created_at, 1_700_000_000_000);
    assert_eq!(d.last_active_at, None);
}

#[test]
fn new_devices_get_distinct_hyphenated_ids() {
    let a = Device::new("a".to_string());
    let b = Device::new("b".to_string());
    assert_ne!(a.id, b.id);
    assert_eq!(a.id.len(), 36);
    let bytes = a.id.as_bytes();
    for (i, byte) in bytes.iter().enumerate() {
        if i == 8 || i == 13 || i == 18 || i == 23 {
            assert_eq!(*byte, b'-');
        } else {
            assert!(byte.is_ascii_hexdigit());
            assert!(!byte.is_ascii_uppercase());
        }
    }
    assert_eq!(bytes[14], b'4');
    assert!(a.created_at > 1_600_000_000_000);
    assert_eq!(a.name, "a");
    assert!(!a.is_connected);
}

#[test]
fn connect_sets_token_and_flag_together() {
    let mut d = device();
    d.connect_at("code".to_string(), "tok".to_string(), 42);
    assert!(d.is_connected);
    assert_eq!(d.token, Some("tok".to_string()));
    assert_eq!(d.device_code, Some("code".to_string()));
    assert_eq!(d.last_active_at, Some(42));
    assert_eq!(d.battery_level, 85);
}

#[test]
fn connect_stamps_the_current_time() {
    let mut d = device();
    d.connect("code".to_string(), "tok".to_string());
    assert!(d.is_connected);
    assert_eq!(d.token, Some("tok".to_string()));
    assert!(d.last_active_at.unwrap() > 1_600_000_000_000);
}

#[test]
fn disconnect_clears_token_and_flag_and_keeps_the_record() {
    let mut d = device();
    d.connect_at("code".to_string(), "tok".to_string(), 42);
    d.disconnect();
    assert!(!d.is_connected);
    assert_eq!(d.token, None);
    assert_eq!(d.device_code, Some("code".to_string()));
    assert_eq!(d.last_active_at, Some(42));
    assert_eq!(d.id, "dev-1");
}

#[test]
fn battery_drains_by_one_down_to_the_floor() {
    let mut d = device();
    d.drain_battery();
    assert_eq!(d.battery_level, 84);
    d.battery_level = 11;
    d.drain_battery();
    assert_eq!(d.battery_level, 10);
    assert_eq!(BATTERY_FLOOR, 10);
}

#[test]
fn battery_at_or_below_the_floor_never_drains() {
    for start in [10u8, 9, 5, 1, 0] {
        let mut d = device();
        d.battery_level = start;
        for _ in 0..200 {
            d.drain_battery();
            assert_eq!(d.battery_level, start);
        }
    }
}

#[test]
fn battery_stops_at_the_floor_after_many_ticks() {
    let mut d = device();
    for _ in 0..1000 {
        d.drain_battery();
    }
    assert_eq!(d.battery_level, 10);
}

#[test]
fn snapshot_copies_every_field() {
    let mut d = device();
    d.connect_at("code".to_string(), "tok".to_string(), 42);
    d.trader_id = Some("trader".to_string());
    let copy = d.snapshot();
    assert_eq!(copy.id, d.id);
    assert_eq!(copy.token, d.token);
    assert_eq!(copy.trader_id, d.trader_id);
    assert_eq!(copy.device_code, d.device_code);
    assert_eq!(copy.is_connected, d.is_connected);
    assert_eq!(copy.last_active_at, d.last_active_at);
    assert_eq!(copy.created_at, d.created_at);
    assert_eq!(copy.network_info, d.network_info);
}

#[test]
fn status_update_sets_battery_network_and_time() {
    let mut d = device();
    d.update_status(40, "5G".to_string(), 99);
    assert_eq!(d.battery_level, 40);
    assert_eq!(d.network_info, "5G");
    assert_eq!(d.last_active_at, Some(99));
    assert!(!d.is_connected);
}

#[test]
fn linked_trader_is_compared_by_text() {
    let mut d = device();
    assert!(!d.is_linked_to(&"t".to_string()));
    d.trader_id = Some("t".to_string());
    assert!(d.is_linked_to(&"t".to_string()));
    assert!(!d.is_linked_to(&"u".to_string()));
}

#[test]
fn loop_periods_match_the_design() {
    assert_eq!(HEARTBEAT_PERIOD_MS, 20);
    assert_eq!(HEALTH_CHECK_PERIOD_MS, 1000);
    assert_eq!(INFO_UPDATE_PERIOD_MS, 5000);
    assert_eq!(LONG_POLL_RETRY_DELAY_MS, 500);
    assert_eq!(MAX_LONG_POLL_FAILURES, 3);
}

#[test]
fn heartbeat_pings_with_the_token_while_connected() {
    let m = connected();
    match m.heartbeat_tick() {
        HeartbeatAction::Ping { token } => assert_eq!(token, Some("tok".to_string())),
        HeartbeatAction::Stop => panic!("a connected device is pinged"),
    }
    assert_eq!(m.heartbeat_failed(), LoopControl::Continue);
}

#[test]
fn heartbeat_pings_without_a_token_when_there_is_none() {
    let mut d = device();
    d.is_connected = true;
    let m = DeviceManager::new(d);
    match m.heartbeat_tick() {
        HeartbeatAction::Ping { token } => assert_eq!(token, None),
        HeartbeatAction::Stop => panic!("a connected device is pinged"),
    }
}

#[test]
fn every_loop_stops_at_its_next_tick_once_the_flag_is_down() {
    let mut m = connected();
    m.disconnect();
    assert!(matches!(m.heartbeat_tick(), HeartbeatAction::Stop));
    assert_eq!(m.heartbeat_failed(), LoopControl::Stop);
    assert!(matches!(m.health_check_tick(), ReportAction::Stop));
    assert!(matches!(m.long_poll_tick(), ReportAction::Stop));
    let before = m.device_snapshot();
    assert!(matches!(m.info_update_tick(), ReportAction::Stop));
    let after = m.device_snapshot();
    assert_eq!(after.battery_level, before.battery_level);
    assert_eq!(after.token, None);
    assert!(!after.is_connected);
    assert_eq!(m.retry_count(), 0);
}

#[test]
fn health_check_reports_the_battery_level() {
    let m = connected();
    match m.health_check_tick() {
        ReportAction::Report { token, battery_level, network_speed } => {
            assert_eq!(token, "tok");
            assert_eq!(battery_level, 85);
            assert_eq!(network_speed, 100);
            assert_eq!(NETWORK_SPEED, 100);
        }
        ReportAction::Stop => panic!("a connected device reports"),
    }
    assert_eq!(m.device_snapshot().battery_level, 85);
}

#[test]
fn reporting_loops_stop_without_a_token() {
    let mut d = device();
    d.is_connected = true;
    let mut m = DeviceManager::new(d);
    assert!(matches!(m.health_check_tick(), ReportAction::Stop));
    assert!(matches!(m.long_poll_tick(), ReportAction::Stop));
    assert!(matches!(m.info_update_tick(), ReportAction::Stop));
    assert_eq!(m.device_snapshot().battery_level, 85);
}

#[test]
fn info_update_reports_the_level_at_the_tick_and_then_drains() {
    let mut m = connected();
    match m.info_update_tick() {
        ReportAction::Report { battery_level, .. } => assert_eq!(battery_level, 85),
        ReportAction::Stop => panic!("a connected device reports"),
    }
    assert_eq!(m.device_snapshot().battery_level, 84);
    match m.info_update_tick() {
        ReportAction::Report { battery_level, .. } => assert_eq!(battery_level, 84),
        ReportAction::Stop => panic!("a connected device reports"),
    }
    assert_eq!(m.device_snapshot().battery_level, 83);
}

#[test]
fn info_update_never_drains_below_the_floor() {
    let mut d = device();
    d.battery_level = 12;
    d.connect_at("code".to_string(), "tok".to_string(), 1);
    let mut m = DeviceManager::new(d);
    let mut levels = Vec::new();
    for _ in 0..6 {
        match m.info_update_tick() {
            ReportAction::Report { battery_level, .. } => levels.push(battery_level),
            ReportAction::Stop => panic!("a connected device reports"),
        }
    }
    assert_eq!(levels, vec![12, 11, 10, 10, 10, 10]);
    assert_eq!(m.device_snapshot().battery_level, 10);
}

#[test]
fn status_texts_are_classified() {
    assert_eq!(classify_status(&Some("timeout".to_string())), PollStatus::Timeout);
    assert_eq!(classify_status(&Some("offline".to_string())), PollStatus::Offline);
    assert_eq!(classify_status(&Some("replaced".to_string())), PollStatus::Replaced);
    assert_eq!(classify_status(&Some("command".to_string())), PollStatus::Command);
    assert_eq!(classify_status(&Some("Timeout".to_string())), PollStatus::Other);
    assert_eq!(classify_status(&Some("".to_string())), PollStatus::Other);
    assert_eq!(classify_status(&None), PollStatus::Other);
}

#[test]
fn third_consecutive_failure_disconnects_the_device() {
    let mut m = connected();
    match m.long_poll_result(PollOutcome::Failed) {
        PollNext::RetryAfter { delay_ms } => assert_eq!(delay_ms, 500),
        _ => panic!("the first failure is retried"),
    }
    assert_eq!(m.retry_count(), 1);
    assert!(m.is_connected());
    assert!(matches!(m.long_poll_result(PollOutcome::Failed), PollNext::RetryAfter { delay_ms: 500 }));
    assert_eq!(m.retry_count(), 2);
    assert!(m.is_connected());
    assert!(matches!(m.long_poll_result(PollOutcome::Failed), PollNext::Stop));
    assert_eq!(m.retry_count(), 3);
    assert!(!m.is_connected());
    assert_eq!(m.device_snapshot().token, None);
    assert!(matches!(m.long_poll_tick(), ReportAction::Stop));
}

#[test]
fn any_answer_resets_the_failure_count() {
    let mut m = connected();
    assert!(matches!(m.long_poll_result(PollOutcome::Failed), PollNext::RetryAfter { .. }));
    assert!(matches!(m.long_poll_result(PollOutcome::Failed), PollNext::RetryAfter { .. }));
    assert_eq!(m.retry_count(), 2);
    assert!(matches!(m.long_poll_result(answered(Some("timeout"), None)), PollNext::Reconnect));
    assert_eq!(m.retry_count(), 0);
    assert!(matches!(m.long_poll_result(PollOutcome::Failed), PollNext::RetryAfter { .. }));
    assert!(matches!(m.long_poll_result(PollOutcome::Failed), PollNext::RetryAfter { .. }));
    assert_eq!(m.retry_count(), 2);
    assert!(m.is_connected());
    assert!(matches!(m.long_poll_result(answered(None, None)), PollNext::Reconnect));
    assert_eq!(m.retry_count(), 0);
    assert!(matches!(m.long_poll_result(answered(Some("command"), Some("go"))), PollNext::Dispatch { .. }));
    assert_eq!(m.retry_count(), 0);
}

#[test]
fn timeout_status_reconnects_at_once() {
    let mut m = connected();
    assert!(matches!(m.long_poll_result(answered(Some("timeout"), None)), PollNext::Reconnect));
    assert!(m.is_connected());
    assert_eq!(m.device_snapshot().token, Some("tok".to_string()));
}

#[test]
fn offline_and_replaced_disconnect_the_device() {
    for status in ["offline", "replaced"] {
        let mut m = connected();
        assert!(matches!(m.long_poll_result(answered(Some(status), None)), PollNext::Stop));
        assert!(!m.is_connected());
        assert_eq!(m.device_snapshot().token, None);
        assert_eq!(m.retry_count(), 0);
    }
}

#[test]
fn command_status_hands_the_command_on() {
    let mut m = connected();
    match m.long_poll_result(answered(Some("command"), Some("restart"))) {
        PollNext::Dispatch { command } => assert_eq!(command, Some("restart".to_string())),
        _ => panic!("a command is dispatched"),
    }
    assert!(m.is_connected());
    match m.long_poll_result(answered(Some("command"), None)) {
        PollNext::Dispatch { command } => assert_eq!(command, None),
        _ => panic!("a command is dispatched"),
    }
}

#[test]
fn unknown_status_polls_again() {
    let mut m = connected();
    assert!(matches!(m.long_poll_result(answered(Some("whatever"), Some("x"))), PollNext::Reconnect));
    assert!(m.is_connected());
}

#[test]
fn pipeline_connects_its_device() {
    let mut m = DeviceManager::new(device());
    assert!(!m.is_connected());
    m.connect("code".to_string(), "tok".to_string());
    assert!(m.is_connected());
    let d = m.device_snapshot();
    assert_eq!(d.token, Some("tok".to_string()));
    assert_eq!(d.device_code, Some("code".to_string()));
    assert_eq!(d.id, "dev-1");
}
