use std::path::PathBuf;
use std::time::Duration;

use rustpods::airpods::detector::DetectedAirPods;
use rustpods::airpods::{AirPodsBattery, AirPodsChargingState, AirPodsType};
use rustpods::bluetooth::address::BDAddr;
use rustpods::bluetooth::cli_scanner::{
    airpods_to_cli_data, charging_state_change, check_scan_time, convert_cli_data_to_airpods,
    convert_scan_result, detect_significant_changes, significant_battery_change,
    usage_state_change, CliAirPodsData, CliDeviceInfo, CliScanner, CliScannerConfig,
    CliScannerResult, PollStep, ScannerState, DEFAULT_POLL_INTERVAL_SECS,
};
use rustpods::config::{AppConfig, LogLevel};
use rustpods::error::BluetoothError;

fn sample_data() -> CliAirPodsData {
    CliAirPodsData {
        model: "AirPods Pro 2".to_string(),
        model_id: "0x2014".to_string(),
        left_battery: 80,
        right_battery: 75,
        case_battery: 60,
        left_charging: false,
        right_charging: false,
        case_charging: false,
        left_in_ear: false,
        right_in_ear: false,
        both_in_case: true,
        lid_open: false,
        broadcasting_ear: "left".to_string(),
    }
}

fn detected(left: Option<u8>, charging: Option<AirPodsChargingState>) -> DetectedAirPods {
    DetectedAirPods::new(
        BDAddr::default(),
        Some("AirPods".to_string()),
        None,
        AirPodsType::AirPodsPro,
        Some(AirPodsBattery { left, right: Some(50), case: None, charging }),
        false,
    )
}

#[test]
fn test_scanner_config_default() {
    let config = CliScannerConfig::default();
    assert_eq!(config.poll_interval, Duration::from_secs(DEFAULT_POLL_INTERVAL_SECS));
    assert!(config.adaptive_polling);
    assert_eq!(config.max_errors, 5);
}

#[test]
fn test_significant_battery_change_detection() {
    let prev = sample_data();
    let curr = CliAirPodsData { left_battery: 65, right_battery: 70, ..prev.clone() };
    assert!(significant_battery_change(&prev, &curr));
    let curr_small = CliAirPodsData { left_battery: 75, right_battery: 70, ..prev.clone() };
    assert!(!significant_battery_change(&prev, &curr_small));
}

#[test]
fn test_charging_state_change_detection() {
    let prev = sample_data();
    let curr = CliAirPodsData { case_charging: true, ..prev.clone() };
    assert!(charging_state_change(&prev, &curr));
    let curr_same = prev.clone();
    assert!(!charging_state_change(&prev, &curr_same));
}

#[test]
fn usage_change_covers_ears_case_and_lid() {
    let prev = sample_data();
    assert!(usage_state_change(&prev, &CliAirPodsData { lid_open: true, ..prev.clone() }));
    assert!(usage_state_change(&prev, &CliAirPodsData { left_in_ear: true, ..prev.clone() }));
    assert!(!usage_state_change(&prev, &CliAirPodsData { left_battery: 1, ..prev.clone() }));
}

#[test]
fn battery_change_of_exactly_ten_is_significant() {
    let prev = sample_data();
    assert!(significant_battery_change(&prev, &CliAirPodsData { case_battery: 70, ..prev.clone() }));
    assert!(!significant_battery_change(&prev, &CliAirPodsData { case_battery: 69, ..prev.clone() }));
}

#[test]
fn from_app_config_keeps_a_minimum_interval() {
    let mut config = AppConfig::default();
    config.bluetooth.battery_refresh_interval = Duration::from_secs(2);
    config.bluetooth.adaptive_polling = false;
    config.system.log_level = LogLevel::Trace;
    let cli = CliScannerConfig::from_app_config(&config, PathBuf::from("scanner.exe"));
    assert_eq!(cli.poll_interval, Duration::from_secs(5));
    assert!(!cli.adaptive_polling);
    assert!(cli.verbose_logging);
    assert_eq!(cli.scanner_path, PathBuf::from("scanner.exe"));

    config.bluetooth.battery_refresh_interval = Duration::from_secs(45);
    config.system.log_level = LogLevel::Info;
    let cli = CliScannerConfig::from_app_config(&config, PathBuf::from("scanner.exe"));
    assert_eq!(cli.poll_interval, Duration::from_secs(45));
    assert!(!cli.verbose_logging);
}

#[test]
fn convert_maps_model_levels_and_charging() {
    let data = CliAirPodsData {
        left_battery: -1,
        right_battery: 300,
        left_charging: true,
        right_charging: true,
        ..sample_data()
    };
    let airpods = convert_cli_data_to_airpods("dev1".to_string(), data).unwrap();
    assert_eq!(airpods.device_type, AirPodsType::AirPodsPro2);
    assert_eq!(airpods.name, Some("AirPods Pro 2 (dev1)".to_string()));
    let battery = airpods.battery.unwrap();
    assert_eq!(battery.left, None);
    assert_eq!(battery.right, Some(44));
    assert_eq!(battery.case, Some(60));
    assert_eq!(battery.charging, Some(AirPodsChargingState::BothBudsCharging));
    assert_eq!(airpods.rssi, None);

    let other = convert_cli_data_to_airpods(
        "x".to_string(),
        CliAirPodsData { model: "Beats".to_string(), case_charging: true, ..sample_data() },
    )
    .unwrap();
    assert_eq!(other.device_type, AirPodsType::Unknown);
    assert_eq!(other.battery.unwrap().charging, Some(AirPodsChargingState::CaseCharging));
}

#[test]
fn convert_scan_result_keeps_devices_with_airpods_data() {
    let result = CliScannerResult {
        scanner_version: "5".to_string(),
        scan_timestamp: "now".to_string(),
        total_devices: 2,
        devices: vec![
            CliDeviceInfo {
                device_id: "a".to_string(),
                address: "x".to_string(),
                rssi: -50,
                manufacturer_data_hex: String::new(),
                airpods_data: None,
            },
            CliDeviceInfo {
                device_id: "b".to_string(),
                address: "y".to_string(),
                rssi: -60,
                manufacturer_data_hex: String::new(),
                airpods_data: Some(sample_data()),
            },
        ],
        airpods_count: 1,
        status: "ok".to_string(),
        note: String::new(),
    };
    let list = convert_scan_result(&result).unwrap();
    assert_eq!(list.len(), 1);
    assert_eq!(list[0].name, Some("AirPods Pro 2 (b)".to_string()));
}

#[test]
fn scan_time_beyond_limit_is_a_timeout() {
    assert!(check_scan_time(Duration::from_secs(10)).is_ok());
    match check_scan_time(Duration::from_millis(10_001)) {
        Err(BluetoothError::Timeout(d)) => assert_eq!(d, Duration::from_millis(10_001)),
        other => panic!("unexpected {:?}", other),
    }
}

#[test]
fn airpods_to_cli_data_reports_unknowns() {
    let data = airpods_to_cli_data(&detected(None, Some(AirPodsChargingState::LeftCharging)));
    assert_eq!(data.model, "AirPodsPro");
    assert_eq!(data.left_battery, -1);
    assert_eq!(data.right_battery, 50);
    assert_eq!(data.case_battery, -1);
    assert!(data.left_charging);
    assert!(!data.right_charging);
    assert_eq!(data.broadcasting_ear, "unknown");
}

#[test]
fn detect_changes_compares_with_kept_report() {
    let mut state = ScannerState::default();
    assert!(!detect_significant_changes(&mut state, &[]));
    assert!(state.last_airpods_data.is_none());
    assert!(!detect_significant_changes(&mut state, &[detected(Some(80), None)]));
    assert_eq!(state.last_airpods_data.as_ref().unwrap().left_battery, 80);
    assert!(!detect_significant_changes(&mut state, &[detected(Some(75), None)]));
    assert!(detect_significant_changes(&mut state, &[detected(Some(60), None)]));
    assert!(!detect_significant_changes(&mut state, &[]));
    assert_eq!(state.last_airpods_data.as_ref().unwrap().left_battery, 60);
}

#[test]
fn record_scan_switches_to_fast_polling_and_backs_off() {
    let mut scanner = CliScanner::new(CliScannerConfig::default());
    let step = scanner.record_scan(&Ok(vec![detected(Some(80), None)]));
    assert_eq!(step, PollStep::Wait(Duration::from_secs(30)));
    let step = scanner.record_scan(&Ok(vec![detected(Some(50), None)]));
    assert_eq!(step, PollStep::Wait(Duration::from_secs(10)));
    assert_eq!(scanner.state.fast_polls_remaining, 3);
    let step = scanner.record_scan(&Ok(vec![detected(Some(50), None)]));
    assert_eq!(step, PollStep::Wait(Duration::from_secs(10)));
    assert_eq!(scanner.state.fast_polls_remaining, 2);
    assert_eq!(scanner.state.total_scans, 3);
    assert_eq!(scanner.state.successful_scans, 3);

    for k in 1..5u32 {
        let step = scanner.record_scan(&Err(BluetoothError::NoAdapter));
        assert_eq!(step, PollStep::BackOff(k.min(4)));
    }
    let step = scanner.record_scan(&Err(BluetoothError::NoAdapter));
    assert_eq!(step, PollStep::Stop(4));
    assert_eq!(scanner.state.consecutive_errors, 5);
    assert_eq!(scanner.set_backoff_interval(Duration::from_secs(500)), Duration::from_secs(120));
    assert_eq!(scanner.set_backoff_interval(Duration::from_secs(45)), Duration::from_secs(45));
}
