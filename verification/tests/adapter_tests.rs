use std::time::{Duration, Instant};

use rustpods::bluetooth::adapter::{
    adapter_id, capabilities_from_checks, record_status, scanning_supported_after_error,
    AdapterCapabilities, AdapterInfo, AdapterManager, AdapterStatus,
};
use rustpods::bluetooth::address::BDAddr;
use rustpods::error::{BluetoothError, RecoveryAction};

fn adapter(index: usize, scanning: bool, status: AdapterStatus) -> AdapterInfo {
    AdapterInfo {
        index,
        address: None,
        name: format!("hci{}", index),
        is_default: index == 0,
        capabilities: AdapterCapabilities {
            supports_scanning: scanning,
            status,
            ..AdapterCapabilities::default()
        },
        vendor: None,
    }
}

#[test]
fn select_best_prefers_normal_scanning_adapters() {
    let mut m = AdapterManager::new();
    assert!(matches!(m.select_best_adapter(), Err(BluetoothError::NoAdapter)));

    m.set_adapters(vec![
        adapter(0, false, AdapterStatus::Normal),
        adapter(1, true, AdapterStatus::Busy),
        adapter(2, true, AdapterStatus::Normal),
    ]);
    m.select_best_adapter().unwrap();
    assert_eq!(m.get_selected_adapter_info().unwrap().index, 2);

    m.set_adapters(vec![adapter(0, false, AdapterStatus::Normal), adapter(1, true, AdapterStatus::Busy)]);
    assert_eq!(m.get_selected_adapter_info().map(|a| a.index), None);
    m.select_best_adapter().unwrap();
    assert_eq!(m.get_selected_adapter_info().unwrap().index, 1);

    m.set_adapters(vec![adapter(0, false, AdapterStatus::Error), adapter(1, false, AdapterStatus::Error)]);
    m.select_best_adapter().unwrap();
    assert_eq!(m.get_selected_adapter_info().unwrap().index, 0);
}

#[test]
fn select_adapter_out_of_range_is_refused() {
    let mut m = AdapterManager::new();
    m.set_adapters(vec![adapter(0, true, AdapterStatus::Normal), adapter(1, true, AdapterStatus::Normal)]);
    assert!(m.select_adapter(1).is_ok());
    match m.select_adapter(5) {
        Err(BluetoothError::AdapterNotAvailable { reason, recovery }) => {
            assert_eq!(reason, "Adapter index 5 out of bounds (max: 1)");
            assert_eq!(recovery, RecoveryAction::SelectDifferentAdapter);
        }
        other => panic!("unexpected {:?}", other),
    }
    assert_eq!(m.get_selected_adapter_info().unwrap().index, 1);
    assert_eq!(m.get_available_adapters().len(), 2);
}

#[test]
fn adapter_text_and_identifier() {
    let mut a = adapter(3, true, AdapterStatus::Busy);
    a.is_default = true;
    assert_eq!(a.to_text(), "hci3#3: unknown address (default) (busy)");
    a.address = Some(BDAddr::from([0x12, 0x34, 0x56, 0x78, 0x9A, 0xBC]));
    a.is_default = false;
    a.capabilities.status = AdapterStatus::Normal;
    assert_eq!(a.to_text(), "hci3#3: 12:34:56:78:9A:BC");
    assert_eq!(adapter_id(None, 7), "adapter_7");
    assert_eq!(adapter_id(a.address, 7), "12:34:56:78:9A:BC");
}

#[test]
fn capabilities_follow_the_scan_test() {
    let now = Instant::now();
    let c = capabilities_from_checks(false, true, now, "hci0");
    assert_eq!(c.status, AdapterStatus::Error);
    assert!(c.supports_connecting);
    assert_eq!(c.max_connections, 5);
    assert_eq!(c.adapter_info, "Adapter hci0");
    assert_eq!(capabilities_from_checks(true, false, now, "x").status, AdapterStatus::Normal);
    assert!(!scanning_supported_after_error("Scanning NOT SUPPORTED here"));
    assert!(!scanning_supported_after_error("device not found"));
    assert!(scanning_supported_after_error("Permission denied"));
    assert!(scanning_supported_after_error("timeout"));
}

#[test]
fn history_records_changes_and_stays_bounded() {
    let now = Instant::now();
    let mut h = Vec::new();
    record_status(&mut h, (now, AdapterStatus::Normal), Duration::from_secs(0));
    record_status(&mut h, (now, AdapterStatus::Normal), Duration::from_secs(10));
    assert_eq!(h.len(), 1);
    record_status(&mut h, (now, AdapterStatus::Normal), Duration::from_secs(301));
    assert_eq!(h.len(), 2);
    for i in 0..20 {
        let status = if i % 2 == 0 { AdapterStatus::Error } else { AdapterStatus::Normal };
        record_status(&mut h, (now, status), Duration::from_secs(0));
    }
    assert_eq!(h.len(), 10);
    assert_eq!(h[9].1, AdapterStatus::Normal);

    let mut m = AdapterManager::new();
    assert!(m.get_adapter_history("hci0").is_none());
    m.update_adapter_history("hci0", AdapterStatus::Normal, now);
    m.update_adapter_history("hci0", AdapterStatus::Error, now);
    m.update_adapter_history("hci1", AdapterStatus::Busy, now);
    assert_eq!(m.get_adapter_history("hci0").unwrap().len(), 2);
    assert_eq!(m.get_adapter_history("hci1").unwrap()[0].1, AdapterStatus::Busy);
}

#[test]
fn recovering_an_adapter() {
    let mut m = AdapterManager::new();
    m.set_adapters(vec![adapter(0, false, AdapterStatus::Error), adapter(1, true, AdapterStatus::Normal)]);
    let now = Instant::now();
    assert!(matches!(m.try_recover_adapter(5, 2, Ok(true), now), Err(BluetoothError::NoAdapter)));
    match m.try_recover_adapter(1, 1, Ok(true), now) {
        Err(BluetoothError::AdapterNotAvailable { reason, recovery }) => {
            assert_eq!(reason, "Adapter at index 1 not found");
            assert_eq!(recovery, RecoveryAction::RestartApplication);
        }
        other => panic!("unexpected {:?}", other),
    }
    assert!(matches!(
        m.try_recover_adapter(0, 2, Err(BluetoothError::Timeout(Duration::from_secs(1))), now),
        Err(BluetoothError::Timeout(_))
    ));
    assert_eq!(m.try_recover_adapter(0, 2, Ok(false), now).unwrap(), false);
    assert!(m.get_adapter_history("adapter_0").is_none());
    assert_eq!(m.try_recover_adapter(0, 2, Ok(true), now).unwrap(), true);
    let a = &m.get_available_adapters()[0];
    assert!(a.capabilities.supports_scanning);
    assert_eq!(a.capabilities.status, AdapterStatus::Normal);
    assert_eq!(a.capabilities.last_checked, Some(now));
    assert_eq!(m.get_adapter_history("adapter_0").unwrap().len(), 1);
}

use rustpods::bluetooth::adapter::{bluetooth_availability, reports_bluetooth_off};

#[test]
fn bluetooth_availability_from_adapter_listing() {
    assert!(reports_bluetooth_off("The Bluetooth radio is Powered Off"));
    assert!(!reports_bluetooth_off("radio disabled"));
    assert_eq!(bluetooth_availability(Ok(2)).unwrap(), true);
    assert_eq!(bluetooth_availability(Ok(0)).unwrap(), false);
    let off = bluetooth_availability(Err((
        "Bluetooth adapter unavailable".to_string(),
        BluetoothError::NoAdapter,
    )));
    assert_eq!(off.unwrap(), false);
    assert!(matches!(
        bluetooth_availability(Err(("boom".to_string(), BluetoothError::NoAdapter))),
        Err(BluetoothError::NoAdapter)
    ));
}
