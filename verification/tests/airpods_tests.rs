use std::collections::HashMap;
use std::str::FromStr;

use rustpods::airpods::detector::{
    create_airpods_filter, detect_airpods, identify_airpods_type, APPLE_COMPANY_ID,
};
use rustpods::airpods::filter::{
    airpods_all_models_filter, airpods_nearby_filter, airpods_pro_filter,
    airpods_with_battery_filter, AirPodsFilterOptions,
};
use rustpods::airpods::{
    extract_battery_level, parse_airpods_data, AirPodsBattery, AirPodsChargingState, AirPodsType,
};
use rustpods::bluetooth::address::BDAddr;
use rustpods::bluetooth::scanner::DiscoveredDevice;
use rustpods::error::AirPodsError;

fn create_test_manufacturer_data(device_type_bytes: &[u8]) -> HashMap<u16, Vec<u8>> {
    let mut data = HashMap::new();
    data.insert(APPLE_COMPANY_ID, device_type_bytes.to_vec());
    data
}

fn create_airpods_manufacturer_data() -> HashMap<u16, Vec<u8>> {
    create_test_manufacturer_data(&[0x07, 0x19, 0x01, 0x02, 0x03])
}

fn create_non_apple_manufacturer_data() -> HashMap<u16, Vec<u8>> {
    let mut data = HashMap::new();
    data.insert(0x0001, vec![0x01, 0x02, 0x03]);
    data
}

fn create_mock_device(
    name: Option<&str>,
    rssi: Option<i16>,
    data: Option<Vec<u8>>,
    is_airpods: bool,
) -> DiscoveredDevice {
    let mut manufacturer_data = HashMap::new();
    if let Some(bytes) = data {
        manufacturer_data.insert(APPLE_COMPANY_ID, bytes);
    }
    DiscoveredDevice {
        address: BDAddr::default(),
        name: name.map(String::from),
        rssi,
        tx_power_level: None,
        manufacturer_data,
        services: vec![],
        is_potential_airpods: is_airpods,
        last_seen: std::time::Instant::now(),
        is_connected: false,
        service_data: HashMap::new(),
    }
}

// ----- airpods module -----

#[test]
fn test_airpods_battery_default() {
    let battery = AirPodsBattery::default();
    assert_eq!(battery.left, None);
    assert_eq!(battery.right, None);
    assert_eq!(battery.case, None);
    assert!(battery.charging.is_none());
}

#[test]
fn test_parse_airpods_data_empty() {
    let data = vec![1, 2, 3];
    let result = parse_airpods_data(&data);
    assert!(result.is_err());
    match result {
        Err(AirPodsError::InvalidData(msg)) => {
            assert!(msg.contains("Data too short"));
        }
        other => panic!("Expected InvalidData error but got {:?}", other),
    }
}

#[test]
fn test_parse_airpods_data_with_valid_structure() {
    let mut data = vec![0u8; 27];
    data[1] = 1;
    const LEFT_BATTERY_OFFSET: usize = 12;
    const RIGHT_BATTERY_OFFSET: usize = 13;
    const CASE_BATTERY_OFFSET: usize = 15;
    const CHARGING_STATUS_OFFSET: usize = 14;

    data[LEFT_BATTERY_OFFSET] = 10;
    data[RIGHT_BATTERY_OFFSET] = 10;
    data[CASE_BATTERY_OFFSET] = 2;
    data[CHARGING_STATUS_OFFSET] = 2;

    let result = parse_airpods_data(&data);
    assert!(result.is_ok(), "Expected successful parse");

    let battery = result.unwrap();
    assert_eq!(battery.left, Some(100), "Left battery should be 100%");
    assert_eq!(battery.right, Some(100), "Right battery should be 100%");
    assert_eq!(battery.case, Some(20), "Case battery should be 20%");
    assert_eq!(
        battery.charging,
        Some(AirPodsChargingState::RightCharging),
        "Right bud should be charging"
    );
}

#[test]
fn test_parse_airpods_data_with_partial_battery() {
    let mut data = vec![0u8; 27];
    data[1] = 1;
    const LEFT_BATTERY_OFFSET: usize = 12;
    const RIGHT_BATTERY_OFFSET: usize = 13;
    const CASE_BATTERY_OFFSET: usize = 15;
    const CHARGING_STATUS_OFFSET: usize = 14;

    data[LEFT_BATTERY_OFFSET] = 0xFF;
    data[CASE_BATTERY_OFFSET] = 0xFF;
    data[RIGHT_BATTERY_OFFSET] = 7;
    data[CHARGING_STATUS_OFFSET] = 0;

    let result = parse_airpods_data(&data);
    assert!(result.is_ok(), "Expected successful parse");

    let battery = result.unwrap();
    assert_eq!(battery.left, None, "Left battery should be None");
    assert_eq!(battery.right, Some(70), "Right battery should be 70%");
    assert_eq!(battery.case, None, "Case battery should be None");
    assert_eq!(
        battery.charging,
        Some(AirPodsChargingState::NotCharging),
        "Nothing should be charging"
    );
}

#[test]
fn test_extract_battery_percentage() {
    assert_eq!(extract_battery_level(0), Some(0));
    assert_eq!(extract_battery_level(5), Some(50));
    assert_eq!(extract_battery_level(10), Some(100));
    assert_eq!(extract_battery_level(15), Some(100));
    assert_eq!(extract_battery_level(0xFF), None);
}

#[test]
fn test_error_conversion() {
    let airpods_error = AirPodsError::DetectionFailed("Test error".to_string());
    let msg_str = airpods_error.to_text();
    assert!(
        msg_str.contains("Test error"),
        "Error message should contain the inner message"
    );
    assert!(
        msg_str.contains("AirPods detection failed"),
        "Error message should contain the error category"
    );
}

#[test]
fn test_detect_airpods_with_bad_data() {
    let mut manufacturer_data = HashMap::new();
    manufacturer_data.insert(APPLE_COMPANY_ID, vec![0x01]);

    let device = DiscoveredDevice {
        address: BDAddr::from([1, 2, 3, 4, 5, 6]),
        name: Some("AirPods".to_string()),
        rssi: Some(-50),
        manufacturer_data,
        is_potential_airpods: true,
        last_seen: std::time::Instant::now(),
        is_connected: false,
        service_data: HashMap::new(),
        services: vec![],
        tx_power_level: None,
    };

    let result = detect_airpods(&device);
    assert!(result.is_err(), "Should error on corrupt data");
    match result {
        Err(AirPodsError::DetectionFailed(msg)) => {
            assert!(msg.contains("Invalid data"), "Should mention invalid data");
            assert!(msg.contains("too short"), "Should mention data is too short");
        }
        _ => panic!("Wrong error type returned"),
    }
}

#[test]
fn mod_test_detect_airpods_graceful_degradation() {
    let mut manufacturer_data = HashMap::new();
    let data = vec![
        0xFF, 0x19, 0x01, 0x02, 0x03, 0x04, 0x05, 0x06, 0x07, 0x08, 0x09, 0x0A, 0x0B, 0x0A, 0x0A,
        0x02, 0x02, 0x00, 0x00, 0x00, 0x00, 0x00, 0x00, 0x00, 0x00, 0x00, 0x00,
    ];
    manufacturer_data.insert(APPLE_COMPANY_ID, data);

    let device = DiscoveredDevice {
        address: BDAddr::from_str("00:11:22:33:44:55").unwrap(),
        name: Some("AirPods".to_string()),
        rssi: Some(-60),
        tx_power_level: None,
        manufacturer_data,
        services: vec![],
        is_potential_airpods: true,
        last_seen: std::time::Instant::now(),
        is_connected: false,
        service_data: HashMap::new(),
    };

    let result = detect_airpods(&device);
    assert!(result.is_ok());
    if let Ok(Some(airpods)) = result {
        assert_eq!(airpods.device_type, AirPodsType::AirPods1);
        if let Some(battery) = airpods.battery.as_ref() {
            assert_eq!(battery.left, Some(100));
            assert_eq!(battery.right, Some(100));
            assert_eq!(battery.case, Some(20));
        } else {
            panic!("Battery information is missing");
        }
    } else {
        panic!("Expected Some(DetectedAirPods), got {:?}", result);
    }
}

// ----- detector -----

#[test]
fn test_identify_airpods_type_by_prefix() {
    let data = vec![0x07, 0x19, 0x01, 0x02, 0x03];
    assert_eq!(
        identify_airpods_type(&Some("AirPods".to_string()), &data).unwrap(),
        AirPodsType::AirPods1
    );
    assert_eq!(
        identify_airpods_type(&Some("AirPods 2".to_string()), &data).unwrap(),
        AirPodsType::AirPods2
    );
    let data = vec![0x0E, 0x19, 0x01, 0x02, 0x03];
    assert_eq!(
        identify_airpods_type(&Some("AirPods Pro".to_string()), &data).unwrap(),
        AirPodsType::AirPodsPro
    );
    let data = vec![0x0F, 0x19, 0x01, 0x02, 0x03];
    assert_eq!(
        identify_airpods_type(&Some("AirPods Pro 2".to_string()), &data).unwrap(),
        AirPodsType::AirPodsPro2
    );
    let data = vec![0x13, 0x19, 0x01, 0x02, 0x03];
    assert_eq!(
        identify_airpods_type(&Some("AirPods 3".to_string()), &data).unwrap(),
        AirPodsType::AirPods3
    );
    let data = vec![0x0A, 0x19, 0x01, 0x02, 0x03];
    assert_eq!(
        identify_airpods_type(&Some("AirPods Max".to_string()), &data).unwrap(),
        AirPodsType::AirPodsMax
    );
}

#[test]
fn test_identify_airpods_type_fallback_to_name() {
    let data = vec![0xFF, 0xFF, 0x01, 0x02, 0x03];
    assert_eq!(
        identify_airpods_type(&Some("AirPods Pro".to_string()), &data).unwrap(),
        AirPodsType::AirPodsPro
    );
}

#[test]
fn test_identify_airpods_type_invalid_data() {
    let data = vec![];
    assert!(matches!(
        identify_airpods_type(&None, &data),
        Err(AirPodsError::InvalidData(_))
    ));
}

#[test]
fn test_detect_airpods_missing_manufacturer_data() {
    let device_type_bytes = &[0x07, 0x19, 0x01, 0x02, 0x03];
    let device = DiscoveredDevice {
        address: BDAddr::from([1, 2, 3, 4, 5, 6]),
        name: Some("AirPods Test".to_string()),
        rssi: Some(-50),
        manufacturer_data: create_test_manufacturer_data(device_type_bytes),
        is_potential_airpods: true,
        last_seen: std::time::Instant::now(),
        is_connected: false,
        service_data: HashMap::new(),
        services: Vec::new(),
        tx_power_level: None,
    };

    let result = detect_airpods(&device).unwrap();
    assert!(result.is_some());
    if let Some(detected) = result {
        assert!(detected.battery.is_none(), "Battery data should be None");
        assert_eq!(detected.device_type, AirPodsType::AirPods1);
    }
}

#[test]
fn test_detect_airpods_with_valid_data() {
    let mut mfr_data = HashMap::new();
    mfr_data.insert(
        APPLE_COMPANY_ID,
        vec![
            0x07, 0x19, 0x01, 0x02, 0x03, 0x04, 0x05, 0x06, 0x07, 0x08, 0x09, 0x0A, 0x05, 0x08,
            0x00, 0x0A, 0x00,
        ],
    );

    let device = DiscoveredDevice {
        address: BDAddr::default(),
        name: Some("AirPods".to_string()),
        rssi: Some(-60),
        manufacturer_data: mfr_data,
        services: vec![],
        is_potential_airpods: true,
        last_seen: std::time::Instant::now(),
        is_connected: false,
        service_data: HashMap::new(),
        tx_power_level: None,
    };

    let result = detect_airpods(&device).unwrap();
    assert!(result.is_some());
    let airpods = result.unwrap();
    assert_eq!(airpods.device_type, AirPodsType::AirPods1);
    assert!(airpods.battery.is_some());
    if let Some(battery) = airpods.battery {
        assert_eq!(battery.left, Some(50));
        assert_eq!(battery.right, Some(80));
        assert_eq!(battery.case, Some(100));
    } else {
        panic!("Battery should be present");
    }
}

#[test]
fn test_detect_airpods_with_partial_battery_data() {
    let mut mfr_data = HashMap::new();
    mfr_data.insert(
        APPLE_COMPANY_ID,
        vec![
            0x07, 0x19, 0x01, 0x02, 0x03, 0x04, 0x05, 0x06, 0x07, 0x08, 0x09, 0x0A, 0xFF, 0x08,
            0x00, 0x0A, 0x00,
        ],
    );

    let device = DiscoveredDevice {
        address: BDAddr::default(),
        name: Some("AirPods".to_string()),
        rssi: Some(-60),
        manufacturer_data: mfr_data,
        services: vec![],
        is_potential_airpods: true,
        last_seen: std::time::Instant::now(),
        is_connected: false,
        service_data: HashMap::new(),
        tx_power_level: None,
    };

    let result = detect_airpods(&device).unwrap();
    assert!(result.is_some());
    let airpods = result.unwrap();
    assert!(airpods.battery.is_some());
    if let Some(battery) = airpods.battery {
        assert_eq!(battery.left, None, "Left battery should be None");
        assert_eq!(battery.right, Some(80), "Right battery should be present");
        assert_eq!(battery.case, Some(100), "Case battery should be present");
    } else {
        panic!("Battery should be present");
    }
}

#[test]
fn detector_test_detect_airpods_graceful_degradation() {
    let mut mfr_data = HashMap::new();
    mfr_data.insert(APPLE_COMPANY_ID, vec![0x07, 0x19, 0x01, 0x02, 0x03]);

    let device = DiscoveredDevice {
        address: BDAddr::default(),
        name: Some("AirPods".to_string()),
        rssi: Some(-60),
        manufacturer_data: mfr_data,
        services: vec![],
        is_potential_airpods: true,
        last_seen: std::time::Instant::now(),
        is_connected: false,
        service_data: HashMap::new(),
        tx_power_level: None,
    };

    let result = detect_airpods(&device).unwrap();
    assert!(result.is_some());
    let airpods = result.unwrap();
    assert_eq!(airpods.device_type, AirPodsType::AirPods1);
    assert!(airpods.battery.is_none(), "Battery should be None when data is corrupt");
}

#[test]
fn test_create_airpods_filter() {
    let filter = create_airpods_filter();

    let airpods_device = DiscoveredDevice {
        address: BDAddr::from([1, 2, 3, 4, 5, 6]),
        name: Some("AirPods".to_string()),
        rssi: Some(-60),
        manufacturer_data: create_airpods_manufacturer_data(),
        is_potential_airpods: true,
        last_seen: std::time::Instant::now(),
        is_connected: false,
        service_data: HashMap::new(),
        services: Vec::new(),
        tx_power_level: None,
    };

    let non_apple_device = DiscoveredDevice {
        address: BDAddr::from([9, 8, 7, 6, 5, 4]),
        name: Some("Not AirPods".to_string()),
        rssi: Some(-70),
        manufacturer_data: create_non_apple_manufacturer_data(),
        is_potential_airpods: false,
        last_seen: std::time::Instant::now(),
        is_connected: false,
        service_data: HashMap::new(),
        services: Vec::new(),
        tx_power_level: None,
    };

    assert!(filter.matches(&airpods_device));
    assert!(!filter.matches(&non_apple_device));
}

// ----- filter -----

#[test]
fn test_filter_by_rssi() {
    let filter = AirPodsFilterOptions::new().with_min_rssi(-70).create_filter_function();
    let strong_device =
        create_mock_device(Some("AirPods"), Some(-60), Some(vec![0x07, 0x19, 0x01, 0x02]), true);
    let weak_device =
        create_mock_device(Some("AirPods"), Some(-80), Some(vec![0x07, 0x19, 0x01, 0x02]), true);
    assert!(filter.matches(&strong_device));
    assert!(!filter.matches(&weak_device));
}

#[test]
fn test_filter_by_name() {
    let filter = AirPodsFilterOptions::new().with_name_containing("Pro").create_filter_function();
    let pro_device = create_mock_device(
        Some("AirPods Pro"),
        Some(-60),
        Some(vec![0x0E, 0x19, 0x01, 0x02]),
        true,
    );
    let regular_device =
        create_mock_device(Some("AirPods"), Some(-60), Some(vec![0x07, 0x19, 0x01, 0x02]), true);
    assert!(filter.matches(&pro_device));
    assert!(!filter.matches(&regular_device));
}

#[test]
fn test_filter_by_model() {
    let filter = AirPodsFilterOptions::new()
        .with_models(vec![AirPodsType::AirPodsPro])
        .create_filter_function();
    let pro_device = create_mock_device(
        Some("AirPods Pro"),
        Some(-60),
        Some(vec![0x0E, 0x19, 0x01, 0x02]),
        true,
    );
    let regular_device =
        create_mock_device(Some("AirPods"), Some(-60), Some(vec![0x07, 0x19, 0x01, 0x02]), true);
    assert!(filter.matches(&pro_device));
    assert!(!filter.matches(&regular_device));
}

#[test]
fn test_apply_filter() {
    let options = AirPodsFilterOptions::new()
        .with_min_rssi(-70)
        .with_models(vec![AirPodsType::AirPodsPro]);
    let devices = vec![
        create_mock_device(
            Some("AirPods Pro"),
            Some(-60),
            Some(vec![0x0E, 0x19, 0x01, 0x02]),
            true,
        ),
        create_mock_device(Some("AirPods"), Some(-80), Some(vec![0x07, 0x19, 0x01, 0x02]), true),
    ];
    let filtered = options.apply_filter(&devices).expect("Apply filter failed");
    assert_eq!(filtered.len(), 1);
    assert_eq!(filtered[0].name, Some("AirPods Pro".to_string()));
}

#[test]
fn test_filter_function() {
    let options = AirPodsFilterOptions::new()
        .with_min_rssi(-70)
        .with_models(vec![AirPodsType::AirPodsPro, AirPodsType::AirPodsPro2]);
    let filter = options.create_filter_function();
    let pro_device = create_mock_device(
        Some("AirPods Pro"),
        Some(-60),
        Some(vec![0x0E, 0x19, 0x01, 0x02]),
        true,
    );
    let weak_pro = create_mock_device(
        Some("AirPods Pro"),
        Some(-80),
        Some(vec![0x0E, 0x19, 0x01, 0x02]),
        true,
    );
    let regular =
        create_mock_device(Some("AirPods"), Some(-60), Some(vec![0x07, 0x19, 0x01, 0x02]), true);
    assert!(filter.matches(&pro_device));
    assert!(!filter.matches(&weak_pro));
    assert!(!filter.matches(&regular));
}

#[test]
fn test_filter_with_invalid_data() {
    let filter = AirPodsFilterOptions::new()
        .with_models(vec![AirPodsType::AirPodsPro])
        .create_filter_function();
    let device_with_invalid_data =
        create_mock_device(Some("AirPods Pro"), Some(-60), Some(vec![0x0E]), true);
    assert!(!filter.matches(&device_with_invalid_data));
}

#[test]
fn test_preset_filters() {
    let all_filter = airpods_all_models_filter();
    let pro_filter = airpods_pro_filter();
    let nearby_filter = airpods_nearby_filter(-70);
    let _battery_filter = airpods_with_battery_filter();

    let pro_device = create_mock_device(
        Some("AirPods Pro"),
        Some(-60),
        Some(vec![0x0E, 0x19, 0x01, 0x02]),
        true,
    );
    let regular_device =
        create_mock_device(Some("AirPods"), Some(-60), Some(vec![0x07, 0x19, 0x01, 0x02]), true);

    assert!(all_filter.matches(&pro_device));
    assert!(all_filter.matches(&regular_device));

    assert!(pro_filter.matches(&pro_device));
    assert!(!pro_filter.matches(&regular_device));

    let weak_device =
        create_mock_device(Some("AirPods"), Some(-80), Some(vec![0x07, 0x19, 0x01, 0x02]), true);
    assert!(nearby_filter.matches(&pro_device));
    assert!(!nearby_filter.matches(&weak_device));
}

use rustpods::airpods::detector::AirPodsScanner;
use rustpods::error::ErrorManager;

#[test]
fn airpods_scanner_starts_empty_and_takes_an_error_manager() {
    let scanner = AirPodsScanner::new();
    assert!(scanner.devices.is_empty());
    assert!(!scanner.has_error_manager());
    let scanner = scanner.with_error_manager(ErrorManager::new());
    assert!(scanner.has_error_manager());
    assert!(scanner.devices.is_empty());
}

#[test]
fn detection_ignores_letter_case() {
    assert_eq!(AirPodsType::detect_from_name("airpods PRO 2"), AirPodsType::AirPodsPro2);
    assert_eq!(AirPodsType::detect_from_name("AIRPODS PRO 2"), AirPodsType::AirPodsPro2);
    assert_eq!(AirPodsType::detect_from_name("AirPods (second generation)"), AirPodsType::AirPods2);
    assert_eq!(AirPodsType::detect_from_name("AIRPODS (SECOND GENERATION)"), AirPodsType::AirPods2);
    assert_eq!(AirPodsType::detect_from_name("AirPods Max"), AirPodsType::AirPodsMax);
    assert_eq!(AirPodsType::detect_from_name("AIRPODS MAX"), AirPodsType::AirPodsMax);
    assert_eq!(AirPodsType::detect_from_name("Galaxy Buds"), AirPodsType::Unknown);
}
