use std::collections::HashMap;

use rustpods::airpods::battery::{battery_info_lines, model_name};
use rustpods::airpods::detector::APPLE_COMPANY_ID;
use rustpods::airpods::AirPodsBattery;
use rustpods::bluetooth::address::{parse_hex_u8, BDAddr, HexByteError};
use rustpods::bluetooth::airpods_bridge::{failed_program_error, missing_program_error};
use rustpods::bluetooth::battery::{battery_from_manufacturer_data, status_from_reading};
use rustpods::bluetooth::scanner::parse_bdaddr;
use rustpods::error::BluetoothError;

#[test]
fn model_names_of_known_ids() {
    assert_eq!(model_name(0x2002), "AirPods 1");
    assert_eq!(model_name(0x2014), "AirPods Pro 2");
    assert_eq!(model_name(0x2024), "AirPods Pro 2 (USB-C)");
    assert_eq!(model_name(0x1234), "Unknown");
}

#[test]
fn report_lines_are_trimmed_and_filtered() {
    let out = "log line\n  {\"a\":1}  \n\n{\"b\":2}\n[x]\n   \n{\"c\":3}";
    assert_eq!(battery_info_lines(out), vec!["{\"a\":1}", "{\"b\":2}", "{\"c\":3}"]);
    assert!(battery_info_lines("").is_empty());
    assert!(battery_info_lines("no json here\n").is_empty());
}

#[test]
fn hex_bytes_parse_like_from_str_radix() {
    assert_eq!(parse_hex_u8("ff"), Ok(255));
    assert_eq!(parse_hex_u8("0A"), Ok(10));
    assert_eq!(parse_hex_u8("+1"), Ok(1));
    assert_eq!(parse_hex_u8(""), Err(HexByteError::Empty));
    assert_eq!(parse_hex_u8("+"), Err(HexByteError::InvalidDigit));
    assert_eq!(parse_hex_u8("g1"), Err(HexByteError::InvalidDigit));
    assert_eq!(parse_hex_u8("100"), Err(HexByteError::PosOverflow));
    assert_eq!(parse_hex_u8("zz").unwrap_err().message(), "invalid digit found in string");
    for s in ["", "+", "x", "1ff", "fff"] {
        let ours = parse_hex_u8(s).map_err(|e| e.message().to_string());
        let std = u8::from_str_radix(s, 16).map_err(|e| e.to_string());
        assert_eq!(ours, std, "for {:?}", s);
    }
}

#[test]
fn address_text_round_trips() {
    let a = BDAddr { address: [0x12, 0x34, 0x56, 0x78, 0x9A, 0xBC] };
    assert_eq!(a.to_text(), "12:34:56:78:9A:BC");
    assert_eq!(parse_bdaddr(&a.to_text()).unwrap().into_inner(), a.address);
    assert_eq!(parse_bdaddr("00:11:22").unwrap_err(), "Invalid BDAddr format: 00:11:22");
    assert_eq!(
        parse_bdaddr("00:11:22:33:44:zz").unwrap_err(),
        "Invalid hex byte 'zz': invalid digit found in string"
    );
}

#[test]
fn battery_from_data_needs_apple_data() {
    let empty: HashMap<u16, Vec<u8>> = HashMap::new();
    match battery_from_manufacturer_data(&empty) {
        Err(BluetoothError::Other(m)) => assert_eq!(m, "No Apple manufacturer data found"),
        other => panic!("unexpected {:?}", other),
    }
    let mut short = HashMap::new();
    short.insert(APPLE_COMPANY_ID, vec![0x07, 0x19]);
    match battery_from_manufacturer_data(&short) {
        Err(BluetoothError::Other(m)) => {
            assert!(m.starts_with("Failed to parse AirPods battery data: Invalid data: "))
        }
        other => panic!("unexpected {:?}", other),
    }
    let status = status_from_reading(Err(BluetoothError::NoAdapter));
    assert_eq!(status.battery, AirPodsBattery::default());
    assert!(!status.has_battery_info());
}

#[test]
fn scanner_program_errors() {
    assert_eq!(
        missing_program_error("scanner", "/opt/x"),
        "Bundled scanner not found: /opt/x"
    );
    assert_eq!(failed_program_error("scanner", "boom"), "scanner .exe failed: boom");
}

#[test]
fn timeout_text_shows_the_duration() {
    let e = BluetoothError::Timeout(std::time::Duration::from_millis(1500));
    assert_eq!(e.to_text(), "Operation timed out after 1.5s");
}

#[test]
fn whitespace_matches_std() {
    for code in 0u32..=0x3100 {
        if let Some(c) = char::from_u32(code) {
            assert_eq!(rustpods::text::is_whitespace(c), c.is_whitespace(), "for {:?}", c);
        }
    }
}
