use std::time::Duration;

use rustpods::airpods::battery_intelligence::{
    classify_event_type_from_data, BatteryEventType, BatteryUpdate, IntelligenceSettings,
    ProfileState,
};

fn profile(gap: Option<u64>) -> ProfileState {
    ProfileState {
        current_left: Some(80),
        current_right: Some(80),
        current_case: Some(50),
        left_charging: false,
        right_charging: false,
        case_charging: false,
        left_in_ear: true,
        right_in_ear: true,
        since_last_update: gap.map(Duration::from_secs),
    }
}

fn update(left: u8, right: u8) -> BatteryUpdate {
    BatteryUpdate {
        left: Some(left),
        right: Some(right),
        case: Some(50),
        left_charging: false,
        right_charging: false,
        case_charging: false,
        left_in_ear: true,
        right_in_ear: true,
    }
}

#[test]
fn significance_rules() {
    let settings = IntelligenceSettings::default();
    assert_eq!(settings.min_battery_change, 5);
    assert_eq!(settings.min_time_gap_minutes, 5);
    assert!(settings.is_significant_update(&profile(None), &update(80, 80)));
    assert!(!settings.is_significant_update(&profile(Some(60)), &update(78, 80)));
    assert!(settings.is_significant_update(&profile(Some(60)), &update(70, 80)));
    assert!(!settings.is_significant_update(&profile(Some(60)), &update(71, 90)));
    assert!(settings.is_significant_update(&profile(Some(300)), &update(80, 80)));
    let mut u = update(80, 80);
    u.case_charging = true;
    assert!(settings.is_significant_update(&profile(Some(1)), &u));
    let mut u = update(80, 80);
    u.right_in_ear = false;
    assert!(settings.is_significant_update(&profile(Some(1)), &u));
}

#[test]
fn event_classification_order() {
    let mut u = update(5, 80);
    u.left_charging = true;
    assert_eq!(classify_event_type_from_data(&profile(Some(1)), &u), BatteryEventType::ChargingStarted);
    let mut p = profile(Some(1));
    p.case_charging = true;
    assert_eq!(classify_event_type_from_data(&p, &update(5, 80)), BatteryEventType::ChargingStopped);
    let mut u = update(50, 80);
    u.left_in_ear = false;
    assert_eq!(classify_event_type_from_data(&profile(Some(1)), &u), BatteryEventType::UsageStopped);
    assert_eq!(
        classify_event_type_from_data(&profile(Some(1)), &update(80, 10)),
        BatteryEventType::CriticalBattery
    );
    assert_eq!(
        classify_event_type_from_data(&profile(Some(300)), &update(60, 60)),
        BatteryEventType::ReconnectedAfterGap
    );
    assert_eq!(
        classify_event_type_from_data(&profile(Some(299)), &update(60, 60)),
        BatteryEventType::Discharge
    );
    let mut p = profile(None);
    p.left_in_ear = false;
    assert_eq!(classify_event_type_from_data(&p, &update(60, 60)), BatteryEventType::UsageStarted);
}

use rustpods::airpods::battery_intelligence::{
    track_depletion, BatteryEvent, BatteryIntelligence, DepletionStep, DeviceBatteryProfile,
    TrackedProfile, MAX_EVENTS,
};
use std::time::SystemTime;

fn battery(
    left: u8,
    right: u8,
    case: u8,
    charging: bool,
    in_ear: bool,
) -> BatteryUpdate {
    BatteryUpdate {
        left: Some(left),
        right: Some(right),
        case: Some(case),
        left_charging: charging,
        right_charging: charging,
        case_charging: charging,
        left_in_ear: in_ear,
        right_in_ear: in_ear,
    }
}

#[test]
fn test_significance_filtering() {
    let mut intelligence = BatteryIntelligence::new();

    // Create a device profile
    intelligence.ensure_device_profile("test_device", "Test Device");

    // First update - should be significant (new device)
    intelligence.update_device_battery(
        "test_device",
        "Test Device",
        &BatteryUpdate {
            left: Some(80),
            right: Some(75),
            case: Some(90),
            left_charging: false,
            right_charging: false,
            case_charging: false,
            left_in_ear: true,
            right_in_ear: true,
        },
        Some(-45),
    );

    let profile = &intelligence.device_profile.as_ref().unwrap();
    assert_eq!(profile.events.len(), 1);

    // Second update with same values - should not be significant
    intelligence.update_device_battery(
        "test_device",
        "Test Device",
        &BatteryUpdate {
            left: Some(80),
            right: Some(75),
            case: Some(90),
            left_charging: false,
            right_charging: false,
            case_charging: false,
            left_in_ear: true,
            right_in_ear: true,
        },
        Some(-45),
    );

    let profile = &intelligence.device_profile.as_ref().unwrap();
    assert_eq!(profile.events.len(), 1); // No new event added

    // Update with significant battery change - should be significant
    intelligence.update_device_battery(
        "test_device",
        "Test Device",
        &BatteryUpdate {
            left: Some(70),
            right: Some(65),
            case: Some(80), // 10% drop
            left_charging: false,
            right_charging: false,
            case_charging: false,
            left_in_ear: true,
            right_in_ear: true,
        },
        Some(-45),
    );

    let profile = &intelligence.device_profile.as_ref().unwrap();
    assert_eq!(profile.events.len(), 2); // New event added
}

#[test]
fn test_event_classification() {
    let mut intelligence = BatteryIntelligence::new();

    // Create a device profile
    intelligence.ensure_device_profile("test_device", "Test Device");

    // Test charging started event
    intelligence.update_device_battery(
        "test_device",
        "Test Device",
        &BatteryUpdate {
            left: Some(50),
            right: Some(50),
            case: Some(50),
            left_charging: true,
            right_charging: true,
            case_charging: true, // Charging started
            left_in_ear: false,
            right_in_ear: false,
        },
        Some(-45),
    );

    let profile = &intelligence.device_profile.as_ref().unwrap();
    assert_eq!(profile.events.len(), 1);
    assert_eq!(profile.events[0].event_type, BatteryEventType::ChargingStarted);
}

#[test]
fn singleton_profile_adapts_to_name_and_device_changes() {
    let mut intelligence = BatteryIntelligence::new();
    assert!(intelligence.ensure_device_profile("635a3f0e3d1d", "AirPods Pro 2"));
    intelligence.update_device_battery("635a3f0e3d1d", "AirPods Pro 2", &battery(60, 60, 60, false, true), None);
    assert!(!intelligence.ensure_device_profile("635a3f0e3d1d", "Jay AirPods Pro"));
    let p = intelligence.device_profile.as_ref().unwrap();
    assert_eq!(p.device_name, "Jay AirPods Pro");
    assert_eq!(p.device_address, "635a3f0e3d1d");
    assert_eq!(p.events.len(), 1);
    assert!(!intelligence.ensure_device_profile("aa:bb:cc:dd:ee:ff", "Different AirPods"));
    let p = intelligence.device_profile.as_ref().unwrap();
    assert_eq!(p.device_name, "Different AirPods");
    assert_eq!(p.device_address, "aa:bb:cc:dd:ee:ff");
    assert_eq!(p.state.current_left, Some(60));
}

#[test]
fn event_history_keeps_the_newest() {
    let mut p = DeviceBatteryProfile::new("d", "a");
    let now = SystemTime::now();
    for i in 0..(MAX_EVENTS + 5) {
        p.add_event(BatteryEvent {
            timestamp: now,
            event_type: BatteryEventType::Discharge,
            left_battery: Some((i % 100) as u8),
            right_battery: None,
            case_battery: None,
            left_charging: false,
            right_charging: false,
            case_charging: false,
            left_in_ear: false,
            right_in_ear: false,
            rssi: Some(i as i16),
            session_duration: None,
        });
    }
    assert_eq!(p.events.len(), MAX_EVENTS);
    assert_eq!(p.events[0].rssi, Some(5));
    assert_eq!(p.events[MAX_EVENTS - 1].rssi, Some((MAX_EVENTS + 4) as i16));
}

#[test]
fn record_update_uses_the_given_gap() {
    let settings = IntelligenceSettings::default();
    let mut p = DeviceBatteryProfile::new("d", "a");
    let now = SystemTime::now();
    let (first, _) = p.record_update(&settings, &battery(80, 80, 50, false, true), None, now, None, None);
    assert!(first);
    assert_eq!(p.events.len(), 1);
    let (same, _) = p.record_update(&settings, &battery(78, 80, 50, false, true), None, now, Some(Duration::from_secs(60)), None);
    assert!(!same);
    let (late, _) = p.record_update(&settings, &battery(78, 80, 50, false, true), Some(-50), now, Some(Duration::from_secs(400)), Some(Duration::from_secs(10)));
    assert!(late);
    assert_eq!(p.events.len(), 2);
    assert_eq!(p.events[1].event_type, BatteryEventType::ReconnectedAfterGap);
    assert_eq!(p.events[1].rssi, Some(-50));
    assert_eq!(p.events[1].session_duration, Some(Duration::from_secs(10)));
    assert_eq!(p.state.current_left, Some(78));
}

#[test]
fn depletion_tracking_starts_drops_and_resets() {
    let now = SystemTime::now();
    let mut last = None;
    assert_eq!(track_depletion(&mut last, Some(90), false, now), DepletionStep::Started);
    assert_eq!(last.map(|(l, _)| l), Some(90));
    assert_eq!(track_depletion(&mut last, Some(85), false, now), DepletionStep::Unchanged);
    match track_depletion(&mut last, Some(80), false, now) {
        DepletionStep::Dropped { start, end, .. } => assert_eq!((start, end), (90, 80)),
        other => panic!("unexpected {:?}", other),
    }
    assert_eq!(track_depletion(&mut last, None, false, now), DepletionStep::Unchanged);
    assert_eq!(track_depletion(&mut last, Some(80), true, now), DepletionStep::Reset);
    assert!(last.is_none());
}

#[test]
fn tracked_profile_raises_highest_levels_and_sessions() {
    let mut t = TrackedProfile::new();
    let now = SystemTime::now();
    t.update_current_state(&battery(100, 100, 100, false, true), now);
    assert!(t.current_session.is_some());
    t.max_observed_left = 90;
    t.update_current_state(&battery(95, 95, 95, false, false), now);
    assert_eq!(t.max_observed_left, 95);
    assert!(t.current_session.is_none());
    t.update_current_state(&battery(99, 99, 99, true, false), now);
    assert_eq!(t.max_observed_left, 95);
}

use rustpods::airpods::battery_intelligence::{
    device_file_name, is_device_profile_file, is_profile_json, ProfileCleanup,
};

#[test]
fn cleanup_drops_profiles_of_inactive_devices() {
    let mut intelligence = BatteryIntelligence::new();
    assert_eq!(intelligence.cleanup_inactive_device_profiles(None), ProfileCleanup::Keep);
    intelligence.ensure_device_profile("aa:bb:cc:dd:ee:ff", "Pods");
    assert_eq!(
        intelligence.cleanup_inactive_device_profiles(Some("aa:bb:cc:dd:ee:ff")),
        ProfileCleanup::Keep
    );
    assert!(intelligence.device_profile.is_some());
    assert_eq!(
        intelligence.cleanup_inactive_device_profiles(Some("11:22:33:44:55:66")),
        ProfileCleanup::RemoveFile("device_aa:bb:cc_profile.json".to_string())
    );
    assert!(intelligence.device_profile.is_none());
    intelligence.ensure_device_profile("x", "Pods");
    assert_eq!(intelligence.cleanup_inactive_device_profiles(None), ProfileCleanup::RemoveAllFiles);
    assert!(intelligence.device_profile.is_none());
}

#[test]
fn profile_file_names() {
    assert_eq!(device_file_name("635a3f0e3d1d"), "device_635a3f0e_profile.json");
    assert_eq!(device_file_name("ab"), "device_ab_profile.json");
    assert!(is_device_profile_file("device_635a3f0e_profile.json"));
    assert!(!is_device_profile_file("battery_profile.json"));
    assert!(!is_device_profile_file("device_x_profile.txt"));
    assert!(is_profile_json("battery_profile.json"));
    assert!(!is_profile_json("settings.json"));
    assert!(!is_profile_json("profile.txt"));
}

use rustpods::airpods::battery_intelligence::{is_stale_profile_file, legacy_device_id, legacy_update};

#[test]
fn stale_profile_files() {
    assert!(is_stale_profile_file("device_85524103014148_profile.json"));
    assert!(is_stale_profile_file("device_75bcd15_profile.json"));
    assert!(is_stale_profile_file("device_1a83f92a_profile.json"));
    assert!(is_stale_profile_file("device_abc_profile.json"));
    assert!(is_stale_profile_file("device__profile.json"));
    assert!(!is_stale_profile_file("device_635a3f0e_profile.json"));
    assert!(!is_stale_profile_file("device_aa:bb:cc_profile.json"));
    assert!(!is_stale_profile_file("battery_profile.json"));
}

#[test]
fn legacy_logs() {
    assert_eq!(
        legacy_device_id("battery_profile_85524103014148_20250616_192253"),
        Some("85524103014148".to_string())
    );
    assert_eq!(legacy_device_id("battery_profile"), None);
    let u = legacy_update(80, -1, 300, true, false, false, true, false);
    assert_eq!(u.left, Some(80));
    assert_eq!(u.right, None);
    assert_eq!(u.case, Some(44));
    assert!(u.left_charging && !u.right_charging && u.left_in_ear);
}
