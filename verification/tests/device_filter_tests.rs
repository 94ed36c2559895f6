use std::collections::HashMap;
use std::time::Instant;

use rustpods::bluetooth::address::BDAddr;
use rustpods::bluetooth::filter::{
    AddressFilter, CompositeFilter, DeviceFilter, NameFilter, RssiFilter,
};
use rustpods::bluetooth::scanner::{parse_bdaddr, DiscoveredDevice};

fn create_test_device(name: Option<&str>, addr: &str, rssi: Option<i16>) -> DiscoveredDevice {
    DiscoveredDevice {
        address: match parse_bdaddr(addr) {
            Ok(addr) => addr,
            Err(_) => BDAddr::default(),
        },
        name: name.map(|s| s.to_string()),
        rssi,
        manufacturer_data: HashMap::new(),
        is_potential_airpods: false,
        last_seen: Instant::now(),
        is_connected: false,
        service_data: HashMap::new(),
        services: Vec::new(),
        tx_power_level: None,
    }
}

#[test]
fn test_name_filter() {
    let filter = NameFilter::new(vec!["AirPods Pro".to_string()]);
    let devices = vec![
        create_test_device(Some("AirPods Pro"), "00:11:22:33:44:55", Some(-60)),
        create_test_device(Some("Random Device"), "AA:BB:CC:DD:EE:FF", Some(-70)),
    ];
    let filtered = filter.apply_filter(&devices);
    assert_eq!(filtered.len(), 1);
    assert_eq!(filtered[0].name, Some("AirPods Pro".to_string()));
}

#[test]
fn test_rssi_filter() {
    let filter = RssiFilter::new(-65);
    let devices = vec![
        create_test_device(Some("Strong Signal"), "00:11:22:33:44:55", Some(-60)),
        create_test_device(Some("Weak Signal"), "AA:BB:CC:DD:EE:FF", Some(-70)),
    ];
    let filtered = filter.apply_filter(&devices);
    assert_eq!(filtered.len(), 1);
    assert_eq!(filtered[0].name, Some("Strong Signal".to_string()));
}

#[test]
fn name_filter_ignores_case_and_unnamed_devices() {
    let filter = NameFilter::new(vec!["AIRPODS MAX".to_string()]);
    assert!(filter.matches(&create_test_device(Some("AirPods Max"), "00:11:22:33:44:55", None)));
    assert!(!filter.matches(&create_test_device(None, "00:11:22:33:44:55", None)));
    assert!(!filter.matches(&create_test_device(Some("AirPods"), "00:11:22:33:44:55", None)));
}

#[test]
fn rssi_filter_rejects_missing_signal_and_keeps_boundary() {
    let filter = RssiFilter::new(-65);
    assert!(!filter.matches(&create_test_device(Some("x"), "00:11:22:33:44:55", None)));
    assert!(filter.matches(&create_test_device(Some("x"), "00:11:22:33:44:55", Some(-65))));
}

#[test]
fn address_filter_matches_listed_addresses() {
    let filter = AddressFilter::new(vec![BDAddr::from([0xAA, 0xBB, 0xCC, 0xDD, 0xEE, 0xFF])]);
    let devices = vec![
        create_test_device(Some("first"), "00:11:22:33:44:55", Some(-60)),
        create_test_device(Some("second"), "AA:BB:CC:DD:EE:FF", Some(-70)),
        create_test_device(Some("third"), "aa:bb:cc:dd:ee:ff", Some(-80)),
    ];
    let filtered = filter.apply_filter(&devices);
    assert_eq!(filtered.len(), 2);
    assert_eq!(filtered[0].name, Some("second".to_string()));
    assert_eq!(filtered[1].name, Some("third".to_string()));
}

#[test]
fn composite_filter_requires_every_filter() {
    let filter = CompositeFilter::new(vec![
        Box::new(RssiFilter::new(-65)),
        Box::new(NameFilter::new(vec!["AirPods Pro".to_string()])),
    ]);
    let devices = vec![
        create_test_device(Some("AirPods Pro"), "00:11:22:33:44:55", Some(-60)),
        create_test_device(Some("AirPods Pro"), "00:11:22:33:44:56", Some(-70)),
        create_test_device(Some("Other"), "00:11:22:33:44:57", Some(-50)),
    ];
    let filtered = filter.apply_filter(&devices);
    assert_eq!(filtered.len(), 1);
    assert_eq!(filtered[0].rssi, Some(-60));
    let empty = CompositeFilter::new(vec![]);
    assert_eq!(empty.apply_filter(&devices).len(), 3);
}
