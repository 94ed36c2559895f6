//! Settings management.

pub mod app_config;

use std::path::PathBuf;
use vstd::prelude::*;

pub use crate::config::app_config::{
    AppConfig, BatteryConfig, BluetoothConfig, ConfigError, LogLevel, SystemConfig, Theme,
    UiConfig, WindowPosition,
};
use crate::config::app_config::{
    path_from_str, path_join, spec_config_violation, spec_validation_result, user_config_dir,
};

verus! {

/// A copy of an optional string.
pub fn clone_opt_string(s: &Option<String>) -> (r: Option<String>)
    ensures
        r == *s,
{
    match s {
        Some(v) => Some(v.clone()),
        None => None,
    }
}

impl BluetoothConfig {
    /// A copy of the section.
    pub fn duplicate(&self) -> (c: Self)
        ensures
            c == *self,
    {
        BluetoothConfig {
            auto_scan_on_startup: self.auto_scan_on_startup,
            scan_duration: self.scan_duration,
            scan_interval: self.scan_interval,
            min_rssi: self.min_rssi,
            battery_refresh_interval: self.battery_refresh_interval,
            paired_device_id: clone_opt_string(&self.paired_device_id),
            auto_reconnect: self.auto_reconnect,
            reconnect_attempts: self.reconnect_attempts,
            adaptive_polling: self.adaptive_polling,
        }
    }
}

impl UiConfig {
    /// A copy of the section.
    pub fn duplicate(&self) -> (c: Self)
        ensures
            c == *self,
    {
        UiConfig {
            show_notifications: self.show_notifications,
            start_minimized: self.start_minimized,
            theme: self.theme,
            show_percentage_in_tray: self.show_percentage_in_tray,
            show_low_battery_warning: self.show_low_battery_warning,
            low_battery_threshold: self.low_battery_threshold,
            remember_window_position: self.remember_window_position,
            last_window_position: self.last_window_position,
            minimize_to_tray_on_close: self.minimize_to_tray_on_close,
            minimize_on_blur: self.minimize_on_blur,
            auto_hide_timeout: self.auto_hide_timeout,
        }
    }
}

/// The sections of two configurations agree (their runtime paths may differ).
pub open spec fn same_settings(a: AppConfig, b: AppConfig) -> bool {
    &&& a.bluetooth == b.bluetooth
    &&& a.ui == b.ui
    &&& a.system == b.system
    &&& a.battery == b.battery
}

impl AppConfig {
    /// A copy of the configuration.
    pub fn duplicate(&self) -> (c: Self)
        ensures
            same_settings(c, *self),
            c.settings_path == self.settings_path,
    {
        AppConfig {
            bluetooth: self.bluetooth.duplicate(),
            ui: self.ui.duplicate(),
            system: self.system,
            battery: self.battery,
            settings_path: self.settings_path.clone(),
        }
    }
}

/// Get the default configuration path: `rustpods/config.json` in the user's
/// configuration directory, or `config.json` when there is none.
pub fn default_config_path() -> PathBuf {
    match user_config_dir() {
        Some(dir) => {
            let app_dir = path_join(&dir, "rustpods");
            path_join(&app_dir, "config.json")
        },
        None => path_from_str("config.json"),
    }
}

/// Manages application configuration
#[derive(Debug)]
pub struct ConfigManager {
    config_path: PathBuf,
    config: AppConfig,
    auto_save: bool,
}

impl ConfigManager {
    /// The configuration held.
    pub closed spec fn spec_config(self) -> AppConfig {
        self.config
    }

    /// The path of the configuration file.
    pub closed spec fn spec_path(self) -> PathBuf {
        self.config_path
    }

    /// Whether changes are to be saved at once.
    pub closed spec fn spec_auto_save(self) -> bool {
        self.auto_save
    }

    /// Create a new configuration manager holding the default configuration
    pub fn new(config_path: &PathBuf, auto_save: bool) -> (m: Self)
        ensures
            m.spec_path() == *config_path,
            m.spec_auto_save() == auto_save,
            crate::config::app_config::spec_default_bluetooth(m.spec_config().bluetooth),
            m.spec_config().ui == crate::config::app_config::spec_default_ui(),
            m.spec_config().system == crate::config::app_config::spec_default_system(),
            m.spec_config().battery == crate::config::app_config::spec_default_battery(),
    {
        ConfigManager { config_path: config_path.clone(), config: AppConfig::default(), auto_save }
    }

    /// Create a default configuration manager, saving changes at once
    pub fn default() -> (m: Self)
        ensures
            m.spec_auto_save(),
            crate::config::app_config::spec_default_bluetooth(m.spec_config().bluetooth),
            m.spec_config().ui == crate::config::app_config::spec_default_ui(),
            m.spec_config().system == crate::config::app_config::spec_default_system(),
            m.spec_config().battery == crate::config::app_config::spec_default_battery(),
    {
        let path = default_config_path();
        Self::new(&path, true)
    }

    /// Get the path to the configuration file
    pub fn config_path(&self) -> (r: &PathBuf)
        ensures
            *r == self.spec_path(),
    {
        &self.config_path
    }

    /// Whether changes are to be saved at once
    pub fn auto_save(&self) -> (r: bool)
        ensures
            r == self.spec_auto_save(),
    {
        self.auto_save
    }

    /// Get a copy of the current configuration
    pub fn get_config(&self) -> (c: AppConfig)
        ensures
            same_settings(c, self.spec_config()),
            c.settings_path == self.spec_config().settings_path,
    {
        self.config.duplicate()
    }

    /// Update the configuration. Returns whether the change is to be saved now
    /// (auto-save is on).
    pub fn update<F: FnOnce(&mut AppConfig)>(&mut self, update_fn: F) -> (save: bool)
        requires
            forall|c: &mut AppConfig| update_fn.requires((c,)),
        ensures
            save == old(self).spec_auto_save(),
            final(self).spec_auto_save() == old(self).spec_auto_save(),
            final(self).spec_path() == old(self).spec_path(),
            exists|c: &mut AppConfig|
                #[trigger] update_fn.ensures((c,), ()) && *c == old(self).spec_config()
                    && *final(c) == final(self).spec_config(),
    {
        update_fn(&mut self.config);
        self.auto_save
    }

    /// Update the configuration with validation: the change is applied to a
    /// copy, and committed only when the copy validates. On success, returns
    /// whether the change is to be saved now.
    pub fn update_with_validation<F: FnOnce(&mut AppConfig)>(&mut self, update_fn: F) -> (r: Result<
        bool,
        ConfigError,
    >)
        requires
            forall|c: &mut AppConfig| update_fn.requires((c,)),
        ensures
            final(self).spec_auto_save() == old(self).spec_auto_save(),
            final(self).spec_path() == old(self).spec_path(),
            exists|c: &mut AppConfig|
                #[trigger] update_fn.ensures((c,), ()) && same_settings(*c, old(self).spec_config())
                    && c.settings_path == old(self).spec_config().settings_path
                    && match spec_config_violation(*final(c)) {
                    None => r == Ok::<bool, ConfigError>(old(self).spec_auto_save())
                        && final(self).spec_config() == *final(c),
                    Some((f, m)) => r matches Err(ConfigError::ValidationFailed(field, msg))
                        && field@ == f && msg@ == m && final(self).spec_config() == old(
                        self,
                    ).spec_config(),
                },
    {
        let mut config = self.get_config();
        update_fn(&mut config);
        match config.validate() {
            Ok(()) => {
                self.config = config;
                Ok(self.auto_save)
            },
            Err(e) => Err(e),
        }
    }

    /// Replace the configuration with one read from storage, if it validates.
    pub fn replace_validated(&mut self, config: AppConfig) -> (r: Result<(), ConfigError>)
        ensures
            final(self).spec_auto_save() == old(self).spec_auto_save(),
            final(self).spec_path() == old(self).spec_path(),
            spec_validation_result(r, spec_config_violation(config)),
            r is Ok ==> final(self).spec_config() == config,
            r is Err ==> final(self).spec_config() == old(self).spec_config(),
    {
        match config.validate() {
            Ok(()) => {
                self.config = config;
                Ok(())
            },
            Err(e) => Err(e),
        }
    }

    /// Validate the current configuration
    pub fn validate(&self) -> (r: Result<(), ConfigError>)
        ensures
            spec_validation_result(r, spec_config_violation(self.spec_config())),
    {
        self.config.validate()
    }
}

/// Trait for configurable components
pub trait Configurable {
    /// Apply configuration
    fn apply_config(&mut self, config: &AppConfig);
}

} // verus!
