use std::collections::HashMap;
use std::time::Instant;

use rustpods::airpods::detector::{create_airpods_filter, APPLE_COMPANY_ID};
use rustpods::airpods::AirPodsType;
use rustpods::bluetooth::address::BDAddr;
use rustpods::bluetooth::scanner::{parse_bdaddr, BleScanner, DeviceChange, DiscoveredDevice};
use rustpods::bluetooth::scanner_config::ScanConfig;
use rustpods::config::{AppConfig, Configurable};
use rustpods::error::BluetoothError;

fn device(addr: [u8; 6], rssi: i16, data: Option<Vec<u8>>, potential: bool) -> DiscoveredDevice {
    let mut manufacturer_data = HashMap::new();
    if let Some(d) = data {
        manufacturer_data.insert(APPLE_COMPANY_ID, d);
    }
    DiscoveredDevice {
        address: BDAddr::from(addr),
        name: Some("AirPods".to_string()),
        rssi: Some(rssi),
        manufacturer_data,
        is_potential_airpods: potential,
        last_seen: Instant::now(),
        is_connected: false,
        service_data: HashMap::new(),
        services: Vec::new(),
        tx_power_level: None,
    }
}

#[test]
fn scanner_test_scanner_new() {
    let scanner = BleScanner::new(ScanConfig::default());
    assert!(!scanner.is_scanning());
    assert_eq!(scanner.get_scan_cycles(), 0);
    assert!(scanner.get_devices().is_empty());
}

#[test]
fn scanner_test_scanner_with_config() {
    let config = ScanConfig::default();
    let scanner = BleScanner::with_config(config);
    assert_eq!(scanner.get_scan_cycles(), 0);
    assert!(!scanner.is_scanning());
}

#[test]
fn scanner_test_device_list_operations() {
    let mut scanner = BleScanner::new(ScanConfig::default());
    assert!(scanner.get_devices().is_empty());
    scanner.clear_devices();
    assert!(scanner.get_devices().is_empty());
}

#[test]
fn bluetooth_tests_test_scanner_new() {
    let scanner = BleScanner::with_config(ScanConfig::default());
    assert!(!scanner.is_scanning());
    assert_eq!(scanner.get_scan_cycles(), 0);
    assert!(scanner.get_devices().is_empty());
}

#[test]
fn bluetooth_tests_test_scanner_with_config() {
    let config = ScanConfig::default();
    let scanner = BleScanner::with_config(config);
    assert_eq!(scanner.get_scan_cycles(), 0);
    assert!(!scanner.is_scanning());
}

#[test]
fn bluetooth_tests_test_device_list_operations() {
    let mut scanner = BleScanner::with_config(ScanConfig::default());
    assert!(scanner.get_devices().is_empty());
    scanner.clear_devices();
    assert!(scanner.get_devices().is_empty());
}

#[test]
fn recording_devices_reports_new_updated_and_unchanged() {
    let mut scanner = BleScanner::new(ScanConfig::default());
    let d1 = device([1, 2, 3, 4, 5, 6], -60, Some(vec![0x07, 0x19]), true);
    assert_eq!(scanner.process_discovered_device(&d1), DeviceChange::New);
    assert_eq!(scanner.process_discovered_device(&d1), DeviceChange::Unchanged);
    let d1_moved = device([1, 2, 3, 4, 5, 6], -50, Some(vec![0x07, 0x19]), true);
    assert_eq!(scanner.process_discovered_device(&d1_moved), DeviceChange::Updated);
    let d1_data = device([1, 2, 3, 4, 5, 6], -50, Some(vec![0x0E, 0x19]), true);
    assert_eq!(scanner.process_discovered_device(&d1_data), DeviceChange::Updated);
    let d2 = device([6, 5, 4, 3, 2, 1], -80, None, false);
    assert_eq!(scanner.process_discovered_device(&d2), DeviceChange::New);

    let all = scanner.get_devices();
    assert_eq!(all.len(), 2);
    assert_eq!(all[0].rssi, Some(-50));
    assert_eq!(scanner.get_device(&BDAddr::from([6, 5, 4, 3, 2, 1])).unwrap().rssi, Some(-80));
    assert!(scanner.get_device(&BDAddr::default()).is_none());
    assert_eq!(scanner.get_potential_airpods().len(), 1);
}

#[test]
fn detected_and_filtered_airpods() {
    let mut scanner = BleScanner::new(ScanConfig::default());
    scanner.process_discovered_device(&device([1, 1, 1, 1, 1, 1], -60, Some(vec![0x0E, 0x19, 1, 2]), true));
    scanner.process_discovered_device(&device([2, 2, 2, 2, 2, 2], -60, Some(vec![0x01]), true));
    scanner.process_discovered_device(&device([3, 3, 3, 3, 3, 3], -60, None, false));
    let detected = scanner.get_detected_airpods();
    assert_eq!(detected.len(), 1);
    assert_eq!(detected[0].device_type, AirPodsType::AirPodsPro);
    let filter = create_airpods_filter();
    // the all-models filter needs a model that the data identifies
    assert_eq!(scanner.filter_devices(&filter).len(), 1);
    assert_eq!(scanner.get_filtered_airpods(&filter).len(), 1);
    assert_eq!(scanner.get_filtered_detected_airpods(&filter).len(), 1);
    assert!(scanner.has_airpods_matching(&filter));
    scanner.clear_devices();
    assert!(!scanner.has_airpods_matching(&filter));
}

#[test]
fn retryable_errors_and_config() {
    let mut scanner = BleScanner::new(ScanConfig::default());
    assert!(scanner.is_error_retryable(&BluetoothError::ScanFailed("x".to_string())));
    assert!(!scanner.is_error_retryable(&BluetoothError::NoAdapter));
    assert!(!scanner.is_error_retryable(&BluetoothError::PermissionDenied("x".to_string())));
    scanner.set_scanning(true);
    assert!(scanner.is_scanning());
    scanner.apply_config(&AppConfig::default());
    assert_eq!(scanner.get_config().max_scan_cycles, Some(5));
    assert_eq!(scanner.get_config().min_rssi, Some(-70));
    assert!(parse_bdaddr("00:11:22:33:44:55").is_ok());
}

use rustpods::bluetooth::events::BleEvent;
use rustpods::bluetooth::scanner::{scan_task_step, ScanCycleOutcome, ScanTaskAction};

#[test]
fn scan_task_counts_cycles_and_reports_start_failures() {
    let (n, a) = scan_task_step(0, &ScanCycleOutcome::Started);
    assert_eq!(n, 1);
    assert!(matches!(a, ScanTaskAction::Listen));
    let (n, a) = scan_task_step(n, &ScanCycleOutcome::TimedOut);
    assert_eq!(n, 2);
    assert!(matches!(a, ScanTaskAction::NextCycle));
    let (n, a) = scan_task_step(n, &ScanCycleOutcome::StartFailed("no power".to_string()));
    assert_eq!(n, 3);
    match a {
        ScanTaskAction::Report(BleEvent::Error(m)) => assert_eq!(m, "Failed to start scan: no power"),
        other => panic!("unexpected action {:?}", other),
    }
    let (n, a) = scan_task_step(n, &ScanCycleOutcome::Cancelled);
    assert_eq!(n, 3);
    assert!(matches!(a, ScanTaskAction::Finish));
}

use rustpods::bluetooth::scanner::PeripheralProperties;

#[test]
fn devices_from_peripheral_properties() {
    let now = Instant::now();
    let addr = BDAddr::from([9, 9, 9, 9, 9, 9]);
    match DiscoveredDevice::from_properties(addr, None, now) {
        Err(BluetoothError::InvalidData(m)) => assert_eq!(m, "No device properties available"),
        other => panic!("unexpected {:?}", other),
    }
    let mut data = HashMap::new();
    data.insert(APPLE_COMPANY_ID, vec![0x0E, 0x19, 1, 2]);
    let pods = DiscoveredDevice::from_properties(
        addr,
        Some(PeripheralProperties {
            local_name: Some("AirPods Pro".to_string()),
            rssi: Some(-55),
            manufacturer_data: data,
            tx_power_level: Some(4),
        }),
        now,
    )
    .unwrap();
    assert!(pods.is_potential_airpods);
    assert_eq!(pods.rssi, Some(-55));
    assert_eq!(pods.tx_power_level, Some(4));
    assert_eq!(pods.last_seen, now);
    let other = DiscoveredDevice::from_properties(
        addr,
        Some(PeripheralProperties {
            local_name: Some("Speaker".to_string()),
            rssi: Some(-55),
            manufacturer_data: HashMap::new(),
            tx_power_level: None,
        }),
        now,
    )
    .unwrap();
    assert!(!other.is_potential_airpods);
}

use rustpods::bluetooth::scanner::{AdapterInitStep, BleScannerConfig};
use rustpods::error::RecoveryAction;

#[test]
fn adapter_initialization_retries_transient_errors() {
    let config = BleScannerConfig::default();
    assert_eq!(config.max_retries, 3);
    assert!(matches!(config.adapter_init_step(1, &Ok(())), AdapterInitStep::Ready));
    match config.adapter_init_step(1, &Err(BluetoothError::ScanFailed("busy".to_string()))) {
        AdapterInitStep::Retry { delay } => assert_eq!(delay, config.retry_delay),
        other => panic!("unexpected {:?}", other),
    }
    match config.adapter_init_step(3, &Err(BluetoothError::ScanFailed("busy".to_string()))) {
        AdapterInitStep::Failed(BluetoothError::AdapterNotAvailable { reason, recovery }) => {
            assert_eq!(reason, "Failed to initialize adapter: Scan failed: busy");
            assert_eq!(recovery, RecoveryAction::SelectDifferentAdapter);
        }
        other => panic!("unexpected {:?}", other),
    }
    assert!(matches!(
        config.adapter_init_step(1, &Err(BluetoothError::NoAdapter)),
        AdapterInitStep::Failed(_)
    ));
}
