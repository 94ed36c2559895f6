use std::time::Duration;

use rustpods::bluetooth::peripheral::{
    api_failure, connect_step, find_service, uuid_text, CharacteristicInfo, ConnectStep,
    PeripheralState, MAX_CONNECTION_ATTEMPTS,
};
use rustpods::error::BluetoothError;

const BATTERY: u128 = 0x0000180f_0000_1000_8000_00805f9b34fb;
const LEVEL: u128 = 0x00002a19_0000_1000_8000_00805f9b34fb;

#[test]
fn uuid_text_is_hyphenated_lower_hex() {
    assert_eq!(uuid_text(BATTERY), "0000180f-0000-1000-8000-00805f9b34fb");
    assert_eq!(uuid_text(0), "00000000-0000-0000-0000-000000000000");
    assert_eq!(uuid_text(u128::MAX), "ffffffff-ffff-ffff-ffff-ffffffffffff");
}

#[test]
fn connection_retries_then_gives_up() {
    assert!(matches!(connect_step(1, &Ok(())), ConnectStep::Connected));
    match connect_step(1, &Err("busy".to_string())) {
        ConnectStep::Retry { delay } => assert_eq!(delay, Duration::from_millis(500)),
        other => panic!("unexpected {:?}", other),
    }
    match connect_step(2, &Err("busy".to_string())) {
        ConnectStep::Retry { delay } => assert_eq!(delay, Duration::from_millis(1000)),
        other => panic!("unexpected {:?}", other),
    }
    match connect_step(MAX_CONNECTION_ATTEMPTS, &Err("busy".to_string())) {
        ConnectStep::Failed(BluetoothError::ConnectionFailed(m)) => {
            assert_eq!(m, "Failed after 3 attempts: busy")
        }
        other => panic!("unexpected {:?}", other),
    }
}

#[test]
fn characteristic_checks() {
    let chars = vec![
        CharacteristicInfo { uuid: LEVEL, notify: false },
        CharacteristicInfo { uuid: BATTERY, notify: true },
    ];
    let mut p = PeripheralState::new();
    match p.characteristic_for(&chars, LEVEL) {
        Err(BluetoothError::ConnectionFailed(m)) => assert_eq!(m, "Not connected"),
        other => panic!("unexpected {:?}", other),
    }
    p.is_connected = true;
    assert_eq!(p.characteristic_for(&chars, BATTERY).unwrap(), 1);
    match p.characteristic_for(&chars, 7) {
        Err(BluetoothError::InvalidData(m)) => {
            assert_eq!(m, "Characteristic not found: 00000000-0000-0000-0000-000000000007")
        }
        other => panic!("unexpected {:?}", other),
    }
    assert_eq!(p.subscription_target(&chars, BATTERY).unwrap(), 1);
    match p.subscription_target(&chars, LEVEL) {
        Err(BluetoothError::InvalidData(m)) => assert_eq!(
            m,
            "Characteristic 00002a19-0000-1000-8000-00805f9b34fb doesn't support notifications"
        ),
        other => panic!("unexpected {:?}", other),
    }
}

#[test]
fn services_and_api_errors() {
    assert_eq!(find_service(&vec![LEVEL, BATTERY], BATTERY).unwrap(), 1);
    match find_service(&vec![], BATTERY) {
        Err(BluetoothError::InvalidData(m)) => {
            assert_eq!(m, "Service not found: 0000180f-0000-1000-8000-00805f9b34fb")
        }
        other => panic!("unexpected {:?}", other),
    }
    match api_failure("Failed to read characteristic", "gone") {
        BluetoothError::ApiError(m) => assert_eq!(m, "Failed to read characteristic: gone"),
        other => panic!("unexpected {:?}", other),
    }
}

#[test]
fn notifications_reach_their_handlers_and_disconnection() {
    let mut p = PeripheralState::new();
    p.add_handler(BATTERY);
    p.add_handler(LEVEL);
    p.add_handler(BATTERY);
    assert_eq!(p.handlers_for(BATTERY), vec![0, 2]);
    assert_eq!(p.handlers_for(LEVEL), vec![1]);
    assert!(p.handlers_for(5).is_empty());
    p.is_connected = true;
    match p.disconnected(&Err("stuck".to_string())) {
        Err(BluetoothError::DeviceDisconnected(m)) => assert_eq!(m, "Failed to disconnect: stuck"),
        other => panic!("unexpected {:?}", other),
    }
    assert!(p.is_connected);
    assert!(p.disconnected(&Ok(())).is_ok());
    assert!(!p.is_connected);
}
