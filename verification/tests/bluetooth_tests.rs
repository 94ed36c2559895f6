use std::time::{Duration, Instant};

use rustpods::airpods::{AirPodsBattery, AirPodsChargingState};
use rustpods::bluetooth::address::BDAddr;
use rustpods::bluetooth::battery::AirPodsBatteryStatus;
use rustpods::bluetooth::battery_monitor::{BatteryBuffer, BatteryMonitor, BatteryMonitorOptions};
use rustpods::bluetooth::scanner::parse_bdaddr;
use rustpods::bluetooth::scanner_config::ScanConfig;
use rustpods::error::RecoveryAction;

fn create_test_battery_status(
    left: Option<u8>,
    right: Option<u8>,
    case: Option<u8>,
) -> AirPodsBatteryStatus {
    AirPodsBatteryStatus::new(AirPodsBattery { left, right, case, charging: None })
}

fn create_test_battery_with_charging(
    left: Option<u8>,
    right: Option<u8>,
    case: Option<u8>,
    charging_state: Option<AirPodsChargingState>,
) -> AirPodsBattery {
    AirPodsBattery { left, right, case, charging: charging_state }
}

// ----- battery status -----

#[test]
fn test_battery_status_display() {
    let battery = AirPodsBattery { left: Some(80), right: Some(75), case: Some(90), charging: None };
    let status = AirPodsBatteryStatus::new(battery);
    assert_eq!(status.to_text(), "Left: 80%, Right: 75%, Case: 90%, Charging: Unknown");

    let battery = AirPodsBattery { left: Some(80), right: None, case: Some(90), charging: None };
    let status = AirPodsBatteryStatus::new(battery);
    assert_eq!(status.to_text(), "Left: 80%, Right: Unknown%, Case: 90%, Charging: Unknown");

    let status = AirPodsBatteryStatus::default();
    assert_eq!(
        status.to_text(),
        "Left: Unknown%, Right: Unknown%, Case: Unknown%, Charging: Unknown"
    );
}

#[test]
fn test_has_battery_info() {
    let battery = AirPodsBattery { left: Some(80), right: None, case: None, charging: None };
    let status = AirPodsBatteryStatus::new(battery);
    assert!(status.has_battery_info());

    let status = AirPodsBatteryStatus::default();
    assert!(!status.has_battery_info());

    let status = create_test_battery_status(None, Some(50), None);
    assert!(status.has_battery_info());

    let status = create_test_battery_status(None, None, Some(75));
    assert!(status.has_battery_info());
}

#[test]
fn test_is_stale() {
    let past_time = Instant::now() - Duration::from_secs(60);
    let status = AirPodsBatteryStatus { battery: AirPodsBattery::default(), last_updated: past_time };
    assert!(status.is_stale(Duration::from_secs(30)));
    assert!(!status.is_stale(Duration::from_secs(90)));

    let current_status = AirPodsBatteryStatus::new(AirPodsBattery::default());
    assert!(!current_status.is_stale(Duration::from_secs(5)));

    let exact_past_time = Instant::now() - Duration::from_secs(30);
    let exact_status =
        AirPodsBatteryStatus { battery: AirPodsBattery::default(), last_updated: exact_past_time };
    assert!(exact_status.is_stale(Duration::from_secs(29)));
}

#[test]
fn test_update_battery_status() {
    let initial_battery = AirPodsBattery {
        left: Some(50),
        right: Some(60),
        case: Some(70),
        charging: Some(AirPodsChargingState::NotCharging),
    };
    let mut status = AirPodsBatteryStatus::new(initial_battery);

    let new_battery = AirPodsBattery {
        left: Some(40),
        right: Some(30),
        case: Some(80),
        charging: Some(AirPodsChargingState::LeftCharging),
    };
    status.update(new_battery.clone());

    assert_eq!(status.battery.left, Some(40));
    assert_eq!(status.battery.right, Some(30));
    assert_eq!(status.battery.case, Some(80));
    assert_eq!(status.battery.charging, Some(AirPodsChargingState::LeftCharging));

    let partial_battery = AirPodsBattery { left: Some(35), right: None, case: None, charging: None };
    status.update(partial_battery);

    assert_eq!(status.battery.left, Some(35));
    assert_eq!(status.battery.right, None, "Right earbud value should be None");
    assert_eq!(status.battery.case, None, "Case value should be None");
    assert_eq!(status.battery.charging, None);
}

#[test]
fn test_default_battery_status() {
    let default_status = AirPodsBatteryStatus::default();
    assert_eq!(default_status.battery.left, None);
    assert_eq!(default_status.battery.right, None);
    assert_eq!(default_status.battery.case, None);
    assert_eq!(default_status.battery.charging, None);
    assert!(!default_status.has_battery_info());
}

#[test]
fn test_charging_status_changes() {
    let charging_battery = create_test_battery_with_charging(
        Some(50),
        Some(60),
        Some(70),
        Some(AirPodsChargingState::BothBudsCharging),
    );
    let mut status = AirPodsBatteryStatus::new(charging_battery);
    assert_eq!(status.battery.charging, Some(AirPodsChargingState::BothBudsCharging));

    let non_charging_battery = create_test_battery_with_charging(
        Some(55),
        Some(65),
        Some(75),
        Some(AirPodsChargingState::NotCharging),
    );
    status.update(non_charging_battery);
    assert_eq!(status.battery.charging, Some(AirPodsChargingState::NotCharging));

    let mixed_charging_battery = create_test_battery_with_charging(
        Some(60),
        Some(70),
        Some(80),
        Some(AirPodsChargingState::CaseCharging),
    );
    status.update(mixed_charging_battery);
    assert_eq!(status.battery.charging, Some(AirPodsChargingState::CaseCharging));
}

// ----- battery monitor -----

#[test]
fn test_battery_buffer() {
    let mut buffer = BatteryBuffer::new(3);
    assert!(buffer.get_average_left().is_none());
    assert!(buffer.get_average_right().is_none());
    assert!(buffer.get_average_case().is_none());

    let battery1 = AirPodsBattery {
        left: Some(50),
        right: Some(60),
        case: Some(70),
        charging: Some(AirPodsChargingState::NotCharging),
    };
    buffer.add_reading(&battery1);
    assert_eq!(buffer.left_buffer.len(), 1);
    assert_eq!(buffer.right_buffer.len(), 1);
    assert_eq!(buffer.case_buffer.len(), 1);

    let battery2 = AirPodsBattery {
        left: Some(60),
        right: Some(70),
        case: Some(80),
        charging: Some(AirPodsChargingState::LeftCharging),
    };
    buffer.add_reading(&battery2);
    assert_eq!(buffer.get_average_left(), Some(55));
    assert_eq!(buffer.get_average_right(), Some(65));
    assert_eq!(buffer.get_average_case(), Some(75));
}

#[test]
fn test_battery_validation() {
    let monitor = BatteryMonitor::new();
    let valid = AirPodsBattery {
        left: Some(50),
        right: Some(60),
        case: Some(70),
        charging: Some(AirPodsChargingState::NotCharging),
    };
    assert!(monitor.is_valid_battery(&valid));

    let no_data = AirPodsBattery {
        left: None,
        right: None,
        case: None,
        charging: Some(AirPodsChargingState::NotCharging),
    };
    assert!(!monitor.is_valid_battery(&no_data));

    let out_of_range = AirPodsBattery {
        left: Some(120),
        right: Some(60),
        case: Some(70),
        charging: Some(AirPodsChargingState::NotCharging),
    };
    assert!(!monitor.is_valid_battery(&out_of_range));
}

#[test]
fn test_significant_change_detection() {
    let options = BatteryMonitorOptions { change_threshold: 5, ..Default::default() };
    let monitor = BatteryMonitor::with_options(options);

    let battery1 = AirPodsBattery {
        left: Some(50),
        right: Some(60),
        case: Some(70),
        charging: Some(AirPodsChargingState::NotCharging),
    };
    let battery2 = AirPodsBattery {
        left: Some(52),
        right: Some(58),
        case: Some(72),
        charging: Some(AirPodsChargingState::NotCharging),
    };
    assert!(!monitor.has_significant_change(&battery1, &battery2));

    let battery3 = AirPodsBattery {
        left: Some(60),
        right: Some(70),
        case: Some(80),
        charging: Some(AirPodsChargingState::LeftCharging),
    };
    assert!(monitor.has_significant_change(&battery1, &battery3));

    let battery4 = AirPodsBattery {
        left: Some(50),
        right: Some(60),
        case: Some(70),
        charging: Some(AirPodsChargingState::CaseCharging),
    };
    assert!(monitor.has_significant_change(&battery1, &battery4));
}

#[test]
fn test_adaptive_interval() {
    let options =
        BatteryMonitorOptions { polling_interval: 10, adaptive_polling: true, ..Default::default() };
    let monitor = BatteryMonitor::with_options(options);
    assert_eq!(monitor.current_interval, Duration::from_secs(10));
}

// ----- scanner -----

#[test]
fn test_parse_bdaddr_valid() {
    let addr_str = "12:34:56:78:9A:BC";
    let result = parse_bdaddr(addr_str);
    assert!(result.is_ok());
    let addr = result.unwrap();
    assert_eq!(addr, BDAddr::from([0x12, 0x34, 0x56, 0x78, 0x9A, 0xBC]));
}

#[test]
fn test_parse_bdaddr_invalid_format() {
    let result = parse_bdaddr("12:34:56:78:9A");
    assert!(result.is_err());
    let result = parse_bdaddr("12:34:56:78:9A:ZZ");
    assert!(result.is_err());
}

#[test]
fn test_bdaddr_from_str_matches_parse() {
    let parsed: Result<BDAddr, String> = "12:34:56:78:9A:BC".parse::<BDAddr>();
    assert_eq!(parsed, Ok(BDAddr::from([0x12, 0x34, 0x56, 0x78, 0x9A, 0xBC])));
    let bad: Result<BDAddr, String> = "12:34:56:78:9A:ZZ".parse::<BDAddr>();
    assert_eq!(bad, parse_bdaddr("12:34:56:78:9A:ZZ"));
    assert!(bad.is_err());
}

#[test]
fn test_recovery_action_properties() {
    let recovery = RecoveryAction::Retry;
    assert_eq!(recovery.description(), "Retry the operation");
    let recovery = RecoveryAction::RestartApplication;
    assert_eq!(recovery.description(), "Restart the application");
}

// ----- scanner config -----

#[test]
fn scanner_config_test_default_config() {
    let config = ScanConfig::default();
    assert_eq!(config.scan_duration, Duration::from_secs(10));
    assert_eq!(config.interval_between_scans, Duration::from_secs(20));
    assert!(config.auto_stop_scan);
    assert_eq!(config.max_scan_cycles, None);
    assert_eq!(config.device_inactive_timeout, None);
    assert!(!config.continuous);
    assert_eq!(config.min_rssi, None);
}

#[test]
fn test_new_config() {
    let config = ScanConfig::new();
    let default_config = ScanConfig::default();
    assert_eq!(config.scan_duration, default_config.scan_duration);
    assert_eq!(config.interval_between_scans, default_config.interval_between_scans);
    assert_eq!(config.auto_stop_scan, default_config.auto_stop_scan);
    assert_eq!(config.max_scan_cycles, default_config.max_scan_cycles);
    assert_eq!(config.device_inactive_timeout, default_config.device_inactive_timeout);
    assert_eq!(config.continuous, default_config.continuous);
    assert_eq!(config.min_rssi, default_config.min_rssi);
}

#[test]
fn test_continuous_config() {
    let config = ScanConfig::continuous();
    assert_eq!(config.scan_duration, Duration::from_secs(5));
    assert_eq!(config.interval_between_scans, Duration::from_secs(2));
    assert!(config.auto_stop_scan);
    assert_eq!(config.max_scan_cycles, None);
    assert_eq!(config.device_inactive_timeout, None);
    assert!(config.continuous);
    assert_eq!(config.min_rssi, None);
}

#[test]
fn test_power_efficient_config() {
    let config = ScanConfig::power_efficient();
    assert_eq!(config.scan_duration, Duration::from_secs(3));
    assert_eq!(config.interval_between_scans, Duration::from_secs(60));
    assert!(config.auto_stop_scan);
    assert_eq!(config.max_scan_cycles, None);
    assert_eq!(config.device_inactive_timeout, None);
    assert!(!config.continuous);
    assert_eq!(config.min_rssi, Some(-80));
}

#[test]
fn test_airpods_optimized_config() {
    let config = ScanConfig::airpods_optimized();
    assert_eq!(config.scan_duration, Duration::from_secs(5));
    assert_eq!(config.interval_between_scans, Duration::from_secs(10));
    assert!(config.auto_stop_scan);
    assert_eq!(config.max_scan_cycles, None);
    assert_eq!(config.device_inactive_timeout, None);
    assert!(!config.continuous);
    assert_eq!(config.min_rssi, Some(-70));
}

#[test]
fn test_one_time_scan_config() {
    let duration = Duration::from_secs(15);
    let config = ScanConfig::one_time_scan(duration);
    assert_eq!(config.scan_duration, duration);
    assert_eq!(config.interval_between_scans, Duration::from_secs(0));
    assert!(config.auto_stop_scan);
    assert_eq!(config.max_scan_cycles, Some(1));
    assert_eq!(config.device_inactive_timeout, None);
    assert!(!config.continuous);
    assert_eq!(config.min_rssi, None);
}

#[test]
fn test_with_scan_duration() {
    let duration = Duration::from_secs(30);
    let config = ScanConfig::default().with_scan_duration(duration);
    assert_eq!(config.scan_duration, duration);
}

#[test]
fn test_with_interval() {
    let interval = Duration::from_secs(45);
    let config = ScanConfig::default().with_interval(interval);
    assert_eq!(config.interval_between_scans, interval);
}

#[test]
fn test_with_auto_stop() {
    let config = ScanConfig::default().with_auto_stop(false);
    assert!(!config.auto_stop_scan);
}

#[test]
fn test_with_max_cycles() {
    let max_cycles = Some(5);
    let config = ScanConfig::default().with_max_cycles(max_cycles);
    assert_eq!(config.max_scan_cycles, max_cycles);
}

#[test]
fn test_with_device_inactive_timeout() {
    let timeout = Some(Duration::from_secs(60));
    let config = ScanConfig::default().with_device_inactive_timeout(timeout);
    assert_eq!(config.device_inactive_timeout, timeout);
}

#[test]
fn test_with_continuous() {
    let config = ScanConfig::default().with_continuous(true);
    assert!(config.continuous);
}

#[test]
fn test_with_min_rssi() {
    let min_rssi = Some(-65);
    let config = ScanConfig::default().with_min_rssi(min_rssi);
    assert_eq!(config.min_rssi, min_rssi);
}

#[test]
fn test_builder_pattern_chaining() {
    let config = ScanConfig::default()
        .with_scan_duration(Duration::from_secs(15))
        .with_interval(Duration::from_secs(30))
        .with_auto_stop(false)
        .with_max_cycles(Some(3))
        .with_device_inactive_timeout(Some(Duration::from_secs(60)))
        .with_continuous(true)
        .with_min_rssi(Some(-75));
    assert_eq!(config.scan_duration, Duration::from_secs(15));
    assert_eq!(config.interval_between_scans, Duration::from_secs(30));
    assert!(!config.auto_stop_scan);
    assert_eq!(config.max_scan_cycles, Some(3));
    assert_eq!(config.device_inactive_timeout, Some(Duration::from_secs(60)));
    assert!(config.continuous);
    assert_eq!(config.min_rssi, Some(-75));
}

#[test]
fn monitor_alerts_once_per_low_component() {
    let options = BatteryMonitorOptions {
        polling_interval: 30,
        adaptive_polling: false,
        change_threshold: 5,
        use_smoothing: false,
        low_battery_threshold: 20,
        notify_low_battery: true,
    };
    let mut monitor = BatteryMonitor::with_options(options);
    let low = AirPodsBattery {
        left: Some(10),
        right: Some(80),
        case: Some(15),
        charging: Some(AirPodsChargingState::NotCharging),
    };
    match monitor.check_low_battery(&low) {
        Some(rustpods::bluetooth::battery_monitor::BatteryAlert::LowBattery(name, level)) => {
            assert_eq!(name, "Left AirPod");
            assert_eq!(level, 10);
        }
        other => panic!("expected a left alert, got {:?}", other),
    }
    assert!(monitor.last_notification.left.is_some());
    // The left bud is now within its cooldown, so the case is next.
    match monitor.check_low_battery(&low) {
        Some(rustpods::bluetooth::battery_monitor::BatteryAlert::LowBattery(name, level)) => {
            assert_eq!(name, "AirPods Case");
            assert_eq!(level, 15);
        }
        other => panic!("expected a case alert, got {:?}", other),
    }
    assert!(monitor.check_low_battery(&low).is_none());
}

#[test]
fn buffer_of_any_capacity_keeps_newest_readings() {
    let mut buffer = BatteryBuffer::new(usize::MAX);
    for level in [90u8, 80, 70] {
        buffer.add_reading(&AirPodsBattery {
            left: Some(level),
            right: None,
            case: None,
            charging: Some(AirPodsChargingState::NotCharging),
        });
    }
    assert_eq!(buffer.left_buffer.len(), 3);
    assert_eq!(buffer.get_average_left(), Some(80));
    assert_eq!(buffer.get_average_right(), None);
}
