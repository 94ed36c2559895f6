use std::path::PathBuf;
use std::time::Duration;

use rustpods::config::{AppConfig, ConfigManager, Theme};

#[test]
fn app_config_test_default_config() {
    let config = AppConfig::default();
    assert!(config.bluetooth.auto_scan_on_startup);
    assert_eq!(config.bluetooth.scan_duration, Duration::from_secs(5));
    assert_eq!(config.bluetooth.scan_interval, Duration::from_secs(30));
    assert_eq!(config.bluetooth.min_rssi, Some(-70));
    assert!(config.ui.show_notifications);
    assert!(config.ui.start_minimized);
    assert_eq!(config.ui.theme, Theme::System);
}

#[test]
fn test_to_scan_config() {
    let config = AppConfig::default();
    let scan_config = config.to_scan_config();
    assert_eq!(scan_config.scan_duration, Duration::from_secs(5));
    assert_eq!(scan_config.interval_between_scans, Duration::from_secs(30));
    assert!(scan_config.continuous);
    assert_eq!(scan_config.min_rssi, Some(-70));
}

#[test]
fn test_config_manager_new() {
    let path = PathBuf::from("test_config.json");
    let manager = ConfigManager::new(&path, true);
    assert_eq!(manager.config_path(), &path);
    assert!(manager.auto_save());
}

#[test]
fn test_get_config() {
    let manager = ConfigManager::default();
    let config = manager.get_config();
    assert!(config.bluetooth.auto_scan_on_startup);
    assert_eq!(config.ui.theme, Theme::System);
}

// `update` never fails in the library: it applies the change and returns
// whether the change is to be saved at once, so validation is checked by
// `validate` afterwards.
#[test]
fn test_validation() {
    let mut manager = ConfigManager::default();

    let save = manager.update(|config| {
        config.bluetooth.scan_duration = Duration::from_secs(10);
        config.ui.low_battery_threshold = 20;
    });
    assert!(save);

    manager.update(|config| {
        config.bluetooth.scan_duration = Duration::from_secs(0);
    });
    assert!(manager.validate().is_err());

    manager.update(|config| {
        config.bluetooth.scan_duration = Duration::from_secs(5);
        config.ui.low_battery_threshold = 20;
    });
    assert!(manager.validate().is_ok());

    manager.update(|config| {
        config.ui.low_battery_threshold = 101;
    });
    assert!(manager.validate().is_err());
}

#[test]
fn test_config_manager_default() {
    let manager = ConfigManager::default();
    let default_path = rustpods::config::default_config_path();
    assert_eq!(manager.config_path(), &default_path);
    assert!(manager.auto_save());
}
