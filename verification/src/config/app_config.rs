//! Application configuration, its defaults and its validation.

use std::path::PathBuf;
use std::time::Duration;
use vstd::prelude::*;
use vstd::string::StringExecFns;

use crate::bluetooth::scanner_config::ScanConfig;
use crate::error::RustPodsError;
use crate::text::{concat2, concat3};
use crate::time::{duration_as_secs, duration_from_secs, duration_nanos, nanos_per_sec};

verus! {

/// A file-system path.
#[verifier::external_type_specification]
#[verifier::external_body]
pub struct ExPathBuf(PathBuf);

/// `PathBuf::clone` makes a copy of the path: the copy is the same path.
pub assume_specification[ <PathBuf as Clone>::clone ](p: &PathBuf) -> (r: PathBuf)
    ensures
        r == *p,
;

/// Calls `dirs_next::config_dir`, the user's configuration directory. It
/// depends on the platform and the environment, so nothing is stated of it.
#[verifier::external_body]
pub fn user_config_dir() -> Option<PathBuf> {
    dirs_next::config_dir()
}

/// Calls `Path::join`, the path with `part` appended as a new component.
/// Paths have no model here, so nothing is stated of the result.
#[verifier::external_body]
pub fn path_join(base: &PathBuf, part: &str) -> PathBuf {
    base.join(part)
}

/// Calls `PathBuf::from` on a string. Paths have no model here, so nothing
/// is stated of the result.
#[verifier::external_body]
pub fn path_from_str(s: &str) -> PathBuf {
    PathBuf::from(s)
}

/// The default settings path: `rustpods/settings.json` in the user's
/// configuration directory, or `settings.json` when there is none.
pub fn default_settings_path() -> PathBuf {
    match user_config_dir() {
        Some(dir) => {
            let app_dir = path_join(&dir, "rustpods");
            path_join(&app_dir, "settings.json")
        },
        None => path_from_str("settings.json"),
    }
}

/// UI theme
#[derive(Debug, Clone, Copy, PartialEq, Eq, Structural)]
pub enum Theme {
    /// Light theme
    Light,
    /// Dark theme
    Dark,
    /// System theme (follows OS settings)
    System,
}

impl Theme {
    /// The display text of the theme.
    pub open spec fn spec_label(self) -> Seq<char> {
        match self {
            Theme::Light => "Light"@,
            Theme::Dark => "Dark"@,
            Theme::System => "System"@,
        }
    }

    /// The display text of the theme.
    pub fn label(&self) -> (s: &'static str)
        ensures
            s@ == self.spec_label(),
    {
        match self {
            Theme::Light => "Light",
            Theme::Dark => "Dark",
            Theme::System => "System",
        }
    }
}

impl Default for Theme {
    fn default() -> (t: Self)
        ensures
            t == Theme::System,
    {
        Theme::System
    }
}

/// Log level
#[derive(Debug, Clone, Copy, PartialEq, Eq, Structural)]
pub enum LogLevel {
    /// Error level - only errors are logged
    Error,
    /// Warning level - warnings and errors are logged
    Warn,
    /// Info level - informational messages, warnings, and errors are logged
    Info,
    /// Debug level - debug information and all above are logged
    Debug,
    /// Trace level - verbose tracing information and all above are logged
    Trace,
}

impl LogLevel {
    /// The display text of the level.
    pub open spec fn spec_label(self) -> Seq<char> {
        match self {
            LogLevel::Error => "Error"@,
            LogLevel::Warn => "Warning"@,
            LogLevel::Info => "Info"@,
            LogLevel::Debug => "Debug"@,
            LogLevel::Trace => "Trace"@,
        }
    }

    /// The display text of the level.
    pub fn label(&self) -> (s: &'static str)
        ensures
            s@ == self.spec_label(),
    {
        match self {
            LogLevel::Error => "Error",
            LogLevel::Warn => "Warning",
            LogLevel::Info => "Info",
            LogLevel::Debug => "Debug",
            LogLevel::Trace => "Trace",
        }
    }
}

impl Default for LogLevel {
    fn default() -> (l: Self)
        ensures
            l == LogLevel::Info,
    {
        LogLevel::Info
    }
}

/// Window position information
#[derive(Debug, Clone, Copy, PartialEq, Eq, Structural)]
pub struct WindowPosition {
    /// X coordinate
    pub x: i32,
    /// Y coordinate
    pub y: i32,
}

/// Bluetooth scanning and connection configuration
#[derive(Debug, Clone, PartialEq, Eq)]
pub struct BluetoothConfig {
    /// Automatically start scanning on startup
    pub auto_scan_on_startup: bool,
    /// Scan duration
    pub scan_duration: Duration,
    /// Interval between scans
    pub scan_interval: Duration,
    /// Minimum RSSI to consider a device
    pub min_rssi: Option<i16>,
    /// Battery status refresh interval
    pub battery_refresh_interval: Duration,
    /// ID of the currently paired device
    pub paired_device_id: Option<String>,
    /// Auto-reconnect to last connected device
    pub auto_reconnect: bool,
    /// Reconnect attempts before giving up
    pub reconnect_attempts: u32,
    /// Use adaptive polling for battery status
    pub adaptive_polling: bool,
}

/// User interface configuration
#[derive(Debug, Clone, PartialEq, Eq)]
pub struct UiConfig {
    /// Show battery notifications
    pub show_notifications: bool,
    /// Start minimized to system tray
    pub start_minimized: bool,
    /// Theme (light, dark, or system)
    pub theme: Theme,
    /// Show battery percentage in system tray icon
    pub show_percentage_in_tray: bool,
    /// Show a warning notification when battery is low
    pub show_low_battery_warning: bool,
    /// Low battery threshold percentage
    pub low_battery_threshold: u8,
    /// Remember window position
    pub remember_window_position: bool,
    /// Last window position
    pub last_window_position: Option<WindowPosition>,
    /// Minimize to tray when closed
    pub minimize_to_tray_on_close: bool,
    /// Minimize to tray when window loses focus
    pub minimize_on_blur: bool,
    /// Auto-hide window after inactivity timeout (in seconds)
    pub auto_hide_timeout: Option<u64>,
}

/// System configuration
#[derive(Debug, Clone, Copy, PartialEq, Eq, Structural)]
pub struct SystemConfig {
    /// Launch application at system startup
    pub launch_at_startup: bool,
    /// Log level (error, warn, info, debug, trace)
    pub log_level: LogLevel,
    /// Enable application telemetry
    pub enable_telemetry: bool,
    /// Auto-save interval in seconds (default: 5 minutes)
    pub auto_save_interval: Option<u64>,
    /// Create crash recovery snapshots
    pub enable_crash_recovery: bool,
}

/// Battery monitoring configuration
#[derive(Debug, Clone, Copy, PartialEq, Eq, Structural)]
pub struct BatteryConfig {
    /// Low battery threshold percentage
    pub low_threshold: u8,
    /// Enable smoothing of battery readings to prevent display fluctuations
    pub smoothing_enabled: bool,
    /// Minimum level change to trigger faster polling (percentage)
    pub change_threshold: u8,
    /// Send notifications for low battery
    pub notify_low: bool,
    /// Send notifications for charging completed
    pub notify_charged: bool,
}

/// Application configuration
#[derive(Debug, Clone, PartialEq, Eq)]
pub struct AppConfig {
    /// Bluetooth scanning configuration
    pub bluetooth: BluetoothConfig,
    /// User interface configuration
    pub ui: UiConfig,
    /// System configuration
    pub system: SystemConfig,
    /// Battery monitoring configuration
    pub battery: BatteryConfig,
    /// Path to save settings (runtime only, not serialized)
    pub settings_path: PathBuf,
}

/// Configuration error
#[derive(Debug, Clone)]
pub enum ConfigError {
    /// IO error, with its message
    IoError(String),
    /// Serialization error, with its message
    SerializationError(String),
    /// Lock error
    LockError,
    /// Invalid configuration
    InvalidConfig(String),
    /// Validation error: field and message
    ValidationFailed(String, String),
    /// Path error
    PathError(String),
    /// File not found error, with the displayed path
    FileNotFound(String),
    /// Permission denied, with the displayed path
    PermissionDenied(String),
    /// File system error
    FileSystemError(String),
}

impl ConfigError {
    /// The display text of the error.
    pub open spec fn spec_text(self) -> Seq<char> {
        match self {
            ConfigError::IoError(s) => "IO error: "@ + s@,
            ConfigError::SerializationError(s) => "Serialization error: "@ + s@,
            ConfigError::LockError => "Failed to lock configuration"@,
            ConfigError::InvalidConfig(s) => "Invalid configuration: "@ + s@,
            ConfigError::ValidationFailed(f, m) => "Validation failed for "@ + f@ + ": "@ + m@,
            ConfigError::PathError(s) => "Path error: "@ + s@,
            ConfigError::FileNotFound(p) => "Configuration file not found: "@ + p@,
            ConfigError::PermissionDenied(p) =>
                "Permission denied when accessing configuration file: "@ + p@,
            ConfigError::FileSystemError(s) => "File system error: "@ + s@,
        }
    }

    /// The display text of the error.
    pub fn to_text(&self) -> (s: String)
        ensures
            s@ == self.spec_text(),
    {
        match self {
            ConfigError::IoError(s) => concat2("IO error: ", s.as_str()),
            ConfigError::SerializationError(s) => concat2("Serialization error: ", s.as_str()),
            ConfigError::LockError => String::from_str("Failed to lock configuration"),
            ConfigError::InvalidConfig(s) => concat2("Invalid configuration: ", s.as_str()),
            ConfigError::ValidationFailed(f, m) => {
                let mut s = concat3("Validation failed for ", f.as_str(), ": ");
                s.append(m.as_str());
                s
            },
            ConfigError::PathError(s) => concat2("Path error: ", s.as_str()),
            ConfigError::FileNotFound(p) => concat2("Configuration file not found: ", p.as_str()),
            ConfigError::PermissionDenied(p) => concat2(
                "Permission denied when accessing configuration file: ",
                p.as_str(),
            ),
            ConfigError::FileSystemError(s) => concat2("File system error: ", s.as_str()),
        }
    }
}

/// Whether `r` is the application error that the configuration error `err` becomes.
pub open spec fn spec_is_app_error_of(err: ConfigError, r: RustPodsError) -> bool {
    match err {
        ConfigError::IoError(e) => r matches RustPodsError::IoError(s) && s@ == e@,
        ConfigError::SerializationError(e) => r matches RustPodsError::ParseError(s) && s@ == e@,
        ConfigError::LockError => r matches RustPodsError::State(s) && s@
            == "Failed to lock configuration"@,
        ConfigError::InvalidConfig(msg) => r matches RustPodsError::Config(s) && s@ == msg@,
        ConfigError::ValidationFailed(field, msg) => r matches RustPodsError::Validation(s) && s@
            == field@ + ": "@ + msg@,
        ConfigError::PathError(msg) => r matches RustPodsError::Path(s) && s@ == msg@,
        ConfigError::FileNotFound(path) => r matches RustPodsError::FileNotFound(s) && s@ == path@,
        ConfigError::PermissionDenied(path) => r matches RustPodsError::PermissionDenied(s) && s@
            == path@,
        ConfigError::FileSystemError(msg) => r matches RustPodsError::IoError(s) && s@ == msg@,
    }
}

impl ConfigError {
    /// The application error that this configuration error becomes.
    pub fn into_app_error(self) -> (r: RustPodsError)
        ensures
            spec_is_app_error_of(self, r),
    {
        match self {
            ConfigError::IoError(e) => RustPodsError::IoError(e),
            ConfigError::SerializationError(e) => RustPodsError::ParseError(e),
            ConfigError::LockError => RustPodsError::State(
                String::from_str("Failed to lock configuration"),
            ),
            ConfigError::InvalidConfig(msg) => RustPodsError::Config(msg),
            ConfigError::ValidationFailed(field, msg) => RustPodsError::Validation(
                concat3(field.as_str(), ": ", msg.as_str()),
            ),
            ConfigError::PathError(msg) => RustPodsError::Path(msg),
            ConfigError::FileNotFound(path) => RustPodsError::FileNotFound(path),
            ConfigError::PermissionDenied(path) => RustPodsError::PermissionDenied(path),
            ConfigError::FileSystemError(msg) => RustPodsError::IoError(msg),
        }
    }
}

/// The first rule of the Bluetooth section that a configuration breaks, as
/// field and message.
pub open spec fn spec_bluetooth_violation(c: BluetoothConfig) -> Option<(Seq<char>, Seq<char>)> {
    if duration_nanos(c.scan_duration) < nanos_per_sec() {
        Some(("scan_duration"@, "Scan duration must be greater than zero"@))
    } else if duration_nanos(c.scan_interval) < nanos_per_sec() {
        Some(("scan_interval"@, "Scan interval must be greater than zero"@))
    } else if duration_nanos(c.battery_refresh_interval) < nanos_per_sec() {
        Some(("battery_refresh_interval"@, "Battery refresh interval must be greater than zero"@))
    } else if c.min_rssi is Some && c.min_rssi->0 > 0 {
        Some(("min_rssi"@, "RSSI minimum value should be negative"@))
    } else if c.min_rssi is Some && c.min_rssi->0 < -100 {
        Some(("min_rssi"@, "RSSI minimum value should be greater than -100"@))
    } else {
        None
    }
}

/// The first rule of the UI section that a configuration breaks.
pub open spec fn spec_ui_violation(c: UiConfig) -> Option<(Seq<char>, Seq<char>)> {
    if c.low_battery_threshold > 100 {
        Some(("low_battery_threshold"@, "Low battery threshold cannot exceed 100%"@))
    } else if c.auto_hide_timeout is Some && c.auto_hide_timeout->0 < 5 {
        Some(("auto_hide_timeout"@, "Auto hide timeout should be at least 5 seconds"@))
    } else {
        None
    }
}

/// The first rule of the system section that a configuration breaks.
pub open spec fn spec_system_violation(c: SystemConfig) -> Option<(Seq<char>, Seq<char>)> {
    if c.auto_save_interval is Some && c.auto_save_interval->0 < 10 {
        Some(("auto_save_interval"@, "Auto-save interval should be at least 10 seconds"@))
    } else {
        None
    }
}

/// The first rule of the battery section that a configuration breaks.
pub open spec fn spec_battery_violation(c: BatteryConfig) -> Option<(Seq<char>, Seq<char>)> {
    if c.low_threshold > 100 {
        Some(("low_threshold"@, "Low battery threshold cannot exceed 100%"@))
    } else if c.change_threshold > 50 {
        Some(("change_threshold"@, "Change threshold should not exceed 50%"@))
    } else {
        None
    }
}

/// The first rule of the whole configuration that it breaks, with the field
/// named by its section.
pub open spec fn spec_config_violation(c: AppConfig) -> Option<(Seq<char>, Seq<char>)> {
    match spec_bluetooth_violation(c.bluetooth) {
        Some((f, m)) => Some(("bluetooth."@ + f, m)),
        None => match spec_ui_violation(c.ui) {
            Some((f, m)) => Some(("ui."@ + f, m)),
            None => match spec_system_violation(c.system) {
                Some((f, m)) => Some(("system."@ + f, m)),
                None => match spec_battery_violation(c.battery) {
                    Some((f, m)) => Some(("battery."@ + f, m)),
                    None => None,
                },
            },
        },
    }
}

/// Which battery sections are valid: exactly those with a low threshold of at
/// most 100% and a change threshold of at most 50%. A change threshold above
/// 50% with an acceptable low threshold is reported on `change_threshold`,
/// and a low threshold above 100% on `low_threshold`.
pub proof fn lemma_battery_validation_rules(c: BatteryConfig)
    ensures
        spec_battery_violation(c) is None <==> (c.low_threshold <= 100 && c.change_threshold <= 50),
        c.low_threshold <= 100 && c.change_threshold > 50 ==> spec_battery_violation(c) == Some(
            ("change_threshold"@, "Change threshold should not exceed 50%"@),
        ),
        c.low_threshold > 100 ==> spec_battery_violation(c) == Some(
            ("low_threshold"@, "Low battery threshold cannot exceed 100%"@),
        ),
{
}

/// Which UI sections are valid: a low-battery threshold of at most 100% and
/// an auto-hide timeout, when set, of at least 5 seconds.
pub proof fn lemma_ui_validation_rules(c: UiConfig)
    ensures
        spec_ui_violation(c) is None <==> (c.low_battery_threshold <= 100 && (c.auto_hide_timeout
            is None || c.auto_hide_timeout->0 >= 5)),
        c.low_battery_threshold > 100 ==> spec_ui_violation(c) == Some(
            ("low_battery_threshold"@, "Low battery threshold cannot exceed 100%"@),
        ),
{
}

/// Which system sections are valid: an auto-save interval, when set, of at
/// least 10 seconds.
pub proof fn lemma_system_validation_rules(c: SystemConfig)
    ensures
        spec_system_violation(c) is None <==> (c.auto_save_interval is None
            || c.auto_save_interval->0 >= 10),
{
}

/// Which Bluetooth sections are valid: scan duration, scan interval and
/// battery refresh interval of at least one second each, and a minimum
/// signal, when set, between -100 and 0.
pub proof fn lemma_bluetooth_validation_rules(c: BluetoothConfig)
    ensures
        spec_bluetooth_violation(c) is None <==> (duration_nanos(c.scan_duration)
            >= nanos_per_sec() && duration_nanos(c.scan_interval) >= nanos_per_sec()
            && duration_nanos(c.battery_refresh_interval) >= nanos_per_sec() && (c.min_rssi is None
            || (-100 <= c.min_rssi->0 <= 0))),
{
}

/// A configuration is valid exactly when each of its sections is; when only
/// the battery section's change threshold is wrong, the failure names
/// `battery.change_threshold`.
pub proof fn lemma_config_validation_rules(c: AppConfig)
    ensures
        spec_config_violation(c) is None <==> (spec_bluetooth_violation(c.bluetooth) is None
            && spec_ui_violation(c.ui) is None && spec_system_violation(c.system) is None
            && spec_battery_violation(c.battery) is None),
        spec_bluetooth_violation(c.bluetooth) is None && spec_ui_violation(c.ui) is None
            && spec_system_violation(c.system) is None && c.battery.low_threshold <= 100
            && c.battery.change_threshold > 50 ==> spec_config_violation(c) == Some(
            ("battery.change_threshold"@, "Change threshold should not exceed 50%"@),
        ),
{
    lemma_battery_validation_rules(c.battery);
    reveal_strlit("battery.");
    reveal_strlit("change_threshold");
    reveal_strlit("battery.change_threshold");
    assert("battery."@ + "change_threshold"@ =~= "battery.change_threshold"@);
}

/// A validation outcome that reports a violation as `ValidationFailed`.
pub open spec fn spec_validation_result(
    r: Result<(), ConfigError>,
    violation: Option<(Seq<char>, Seq<char>)>,
) -> bool {
    match violation {
        None => r is Ok,
        Some((f, m)) => r matches Err(ConfigError::ValidationFailed(field, msg)) && field@ == f
            && msg@ == m,
    }
}

fn violation(field: &str, message: &str) -> (r: Result<(), ConfigError>)
    ensures
        r matches Err(ConfigError::ValidationFailed(f, m)) && f@ == field@ && m@ == message@,
{
    Err(ConfigError::ValidationFailed(String::from_str(field), String::from_str(message)))
}

/// Prefix the field of a validation failure with the section name.
fn in_section(section: &str, r: Result<(), ConfigError>) -> (out: Result<(), ConfigError>)
    ensures
        r is Ok ==> out is Ok,
        r matches Err(ConfigError::ValidationFailed(f, m)) ==> (out matches Err(
            ConfigError::ValidationFailed(f2, m2),
        ) && f2@ == section@ + f@ && m2@ == m@),
{
    match r {
        Ok(()) => Ok(()),
        Err(ConfigError::ValidationFailed(field, msg)) => Err(
            ConfigError::ValidationFailed(concat2(section, field.as_str()), msg),
        ),
        Err(e) => Err(e),
    }
}

impl BluetoothConfig {
    /// Validate Bluetooth configuration
    pub fn validate(&self) -> (r: Result<(), ConfigError>)
        ensures
            spec_validation_result(r, spec_bluetooth_violation(*self)),
    {
        if duration_as_secs(&self.scan_duration) == 0 {
            return violation("scan_duration", "Scan duration must be greater than zero");
        }
        if duration_as_secs(&self.scan_interval) == 0 {
            return violation("scan_interval", "Scan interval must be greater than zero");
        }
        if duration_as_secs(&self.battery_refresh_interval) == 0 {
            return violation(
                "battery_refresh_interval",
                "Battery refresh interval must be greater than zero",
            );
        }
        if let Some(rssi) = self.min_rssi {
            if rssi > 0 {
                return violation("min_rssi", "RSSI minimum value should be negative");
            }
            if rssi < -100 {
                return violation("min_rssi", "RSSI minimum value should be greater than -100");
            }
        }
        Ok(())
    }
}

impl UiConfig {
    /// Validate UI configuration
    pub fn validate(&self) -> (r: Result<(), ConfigError>)
        ensures
            spec_validation_result(r, spec_ui_violation(*self)),
    {
        if self.low_battery_threshold > 100 {
            return violation("low_battery_threshold", "Low battery threshold cannot exceed 100%");
        }
        if let Some(timeout) = self.auto_hide_timeout {
            if timeout < 5 {
                return violation(
                    "auto_hide_timeout",
                    "Auto hide timeout should be at least 5 seconds",
                );
            }
        }
        Ok(())
    }
}

impl SystemConfig {
    /// Validate system configuration
    pub fn validate(&self) -> (r: Result<(), ConfigError>)
        ensures
            spec_validation_result(r, spec_system_violation(*self)),
    {
        if let Some(interval) = self.auto_save_interval {
            if interval < 10 {
                return violation(
                    "auto_save_interval",
                    "Auto-save interval should be at least 10 seconds",
                );
            }
        }
        Ok(())
    }
}

impl BatteryConfig {
    /// Validate the battery configuration
    pub fn validate(&self) -> (r: Result<(), ConfigError>)
        ensures
            spec_validation_result(r, spec_battery_violation(*self)),
    {
        if self.low_threshold > 100 {
            return violation("low_threshold", "Low battery threshold cannot exceed 100%");
        }
        if self.change_threshold > 50 {
            return violation("change_threshold", "Change threshold should not exceed 50%");
        }
        Ok(())
    }
}

impl AppConfig {
    /// Validate the configuration, section by section; the field of a failure
    /// is named with its section.
    pub fn validate(&self) -> (r: Result<(), ConfigError>)
        ensures
            spec_validation_result(r, spec_config_violation(*self)),
    {
        let b = in_section("bluetooth.", self.bluetooth.validate());
        if b.is_err() {
            return b;
        }
        let u = in_section("ui.", self.ui.validate());
        if u.is_err() {
            return u;
        }
        let s = in_section("system.", self.system.validate());
        if s.is_err() {
            return s;
        }
        in_section("battery.", self.battery.validate())
    }

    /// Convert to scan config for the bluetooth scanner
    pub fn to_scan_config(&self) -> (c: ScanConfig)
        ensures
            c.scan_duration == self.bluetooth.scan_duration,
            c.interval_between_scans == self.bluetooth.scan_interval,
            c.min_rssi == self.bluetooth.min_rssi,
            c.continuous,
            c.auto_stop_scan,
            c.max_scan_cycles is None,
            c.device_inactive_timeout is None,
    {
        ScanConfig::new().with_scan_duration(self.bluetooth.scan_duration).with_interval(
            self.bluetooth.scan_interval,
        ).with_min_rssi(self.bluetooth.min_rssi).with_continuous(true)
    }

    /// Get the Bluetooth configuration section
    pub fn bluetooth(&self) -> (b: &BluetoothConfig)
        ensures
            *b == self.bluetooth,
    {
        &self.bluetooth
    }

    /// Get the UI configuration section
    pub fn ui(&self) -> (u: &UiConfig)
        ensures
            *u == self.ui,
    {
        &self.ui
    }

    /// Get the system configuration section
    pub fn system(&self) -> (s: &SystemConfig)
        ensures
            *s == self.system,
    {
        &self.system
    }

    /// Get the battery configuration section
    pub fn battery(&self) -> (b: &BatteryConfig)
        ensures
            *b == self.battery,
    {
        &self.battery
    }
}

/// The default Bluetooth settings: scan 5 s every 30 s, signal at least -70,
/// battery refresh every 10 s, up to 3 reconnect attempts.
pub open spec fn spec_default_bluetooth(c: BluetoothConfig) -> bool {
    &&& c.auto_scan_on_startup
    &&& duration_nanos(c.scan_duration) == 5 * nanos_per_sec()
    &&& duration_nanos(c.scan_interval) == 30 * nanos_per_sec()
    &&& c.min_rssi == Some(-70i16)
    &&& duration_nanos(c.battery_refresh_interval) == 10 * nanos_per_sec()
    &&& c.paired_device_id is None
    &&& c.auto_reconnect
    &&& c.reconnect_attempts == 3
    &&& c.adaptive_polling
}

/// The default UI settings.
pub open spec fn spec_default_ui() -> UiConfig {
    UiConfig {
        show_notifications: true,
        start_minimized: true,
        theme: Theme::System,
        show_percentage_in_tray: true,
        show_low_battery_warning: true,
        low_battery_threshold: 20,
        remember_window_position: true,
        last_window_position: None,
        minimize_to_tray_on_close: true,
        minimize_on_blur: false,
        auto_hide_timeout: None,
    }
}

/// The default system settings.
pub open spec fn spec_default_system() -> SystemConfig {
    SystemConfig {
        launch_at_startup: false,
        log_level: LogLevel::Info,
        enable_telemetry: false,
        auto_save_interval: Some(300u64),
        enable_crash_recovery: true,
    }
}

/// The default battery settings.
pub open spec fn spec_default_battery() -> BatteryConfig {
    BatteryConfig {
        low_threshold: 20,
        smoothing_enabled: true,
        change_threshold: 5,
        notify_low: true,
        notify_charged: true,
    }
}

impl Default for BluetoothConfig {
    fn default() -> (c: Self)
        ensures
            spec_default_bluetooth(c),
    {
        BluetoothConfig {
            auto_scan_on_startup: true,
            scan_duration: duration_from_secs(5),
            scan_interval: duration_from_secs(30),
            min_rssi: Some(-70),
            battery_refresh_interval: duration_from_secs(10),
            paired_device_id: None,
            auto_reconnect: true,
            reconnect_attempts: 3,
            adaptive_polling: true,
        }
    }
}

impl Default for UiConfig {
    fn default() -> (c: Self)
        ensures
            c == spec_default_ui(),
    {
        UiConfig {
            show_notifications: true,
            start_minimized: true,
            theme: Theme::System,
            show_percentage_in_tray: true,
            show_low_battery_warning: true,
            low_battery_threshold: 20,
            remember_window_position: true,
            last_window_position: None,
            minimize_to_tray_on_close: true,
            minimize_on_blur: false,
            auto_hide_timeout: None,
        }
    }
}

impl Default for SystemConfig {
    fn default() -> (c: Self)
        ensures
            c == spec_default_system(),
    {
        SystemConfig {
            launch_at_startup: false,
            log_level: LogLevel::Info,
            enable_telemetry: false,
            auto_save_interval: Some(300),
            enable_crash_recovery: true,
        }
    }
}

impl Default for BatteryConfig {
    fn default() -> (c: Self)
        ensures
            c == spec_default_battery(),
    {
        BatteryConfig {
            low_threshold: 20,
            smoothing_enabled: true,
            change_threshold: 5,
            notify_low: true,
            notify_charged: true,
        }
    }
}

impl Default for AppConfig {
    fn default() -> (c: Self)
        ensures
            spec_default_bluetooth(c.bluetooth),
            c.ui == spec_default_ui(),
            c.system == spec_default_system(),
            c.battery == spec_default_battery(),
    {
        AppConfig {
            bluetooth: BluetoothConfig::default(),
            ui: UiConfig::default(),
            system: SystemConfig::default(),
            battery: BatteryConfig::default(),
            settings_path: default_settings_path(),
        }
    }
}

/// The default configuration breaks no validation rule.
pub proof fn lemma_default_config_is_valid(c: AppConfig)
    requires
        spec_default_bluetooth(c.bluetooth),
        c.ui == spec_default_ui(),
        c.system == spec_default_system(),
        c.battery == spec_default_battery(),
    ensures
        spec_config_violation(c) is None,
{
}

} // verus!
