//! Error types of the application, their messages, severities and recovery hints.

use std::time::Duration;
use vstd::prelude::*;
use vstd::string::StringExecFns;

use crate::text::{concat2, concat3, decimal_chars, decimal_string};

pub mod manager;

pub use crate::error::manager::{
    ErrorContext, ErrorEntry, ErrorManager, ErrorRecord, ErrorStats,
};
use crate::time::{duration_debug, duration_debug_text, duration_nanos};

verus! {

/// Maximum number of errors kept in an error history.
pub const MAX_ERROR_HISTORY: usize = 100;

/// Error severity levels
#[derive(Debug, Clone, Copy, PartialEq, Eq, Hash, Structural)]
pub enum ErrorSeverity {
    /// Critical error that requires immediate attention
    Critical,
    /// Major error that significantly impacts functionality
    Major,
    /// Standard error
    Error,
    /// Minor error that doesn't significantly impact functionality
    Minor,
    /// Warning
    Warning,
    /// Informational message
    Info,
}

impl ErrorSeverity {
    /// The upper-case label that names the severity.
    pub open spec fn spec_label(self) -> Seq<char> {
        match self {
            ErrorSeverity::Critical => "CRITICAL"@,
            ErrorSeverity::Major => "MAJOR"@,
            ErrorSeverity::Minor => "MINOR"@,
            ErrorSeverity::Warning => "WARNING"@,
            ErrorSeverity::Error => "ERROR"@,
            ErrorSeverity::Info => "INFO"@,
        }
    }

    /// The upper-case label that names the severity (its display text).
    pub fn label(&self) -> (s: &'static str)
        ensures
            s@ == self.spec_label(),
    {
        match self {
            ErrorSeverity::Critical => "CRITICAL",
            ErrorSeverity::Major => "MAJOR",
            ErrorSeverity::Minor => "MINOR",
            ErrorSeverity::Warning => "WARNING",
            ErrorSeverity::Error => "ERROR",
            ErrorSeverity::Info => "INFO",
        }
    }
}

/// Recovery action to take for an error
#[derive(Debug, Clone, PartialEq, Eq)]
pub enum RecoveryAction {
    /// No recovery action is needed
    NoAction,
    /// Retry the operation
    Retry,
    /// Restart the application component
    Restart,
    /// Reset the configuration
    ResetConfig,
    /// Notify the user
    NotifyUser,
    /// Reconnect to Bluetooth device
    ReconnectBluetooth,
    /// Reload configuration
    ReloadConfig,
    /// Clear cache
    ClearCache,
    /// Prompt user for action
    PromptUser,
    /// Select a different Bluetooth adapter
    SelectDifferentAdapter,
    /// Restart the entire application
    RestartApplication,
    /// Custom action with description
    Custom(String),
}

impl RecoveryAction {
    /// The user-facing description of each action.
    pub open spec fn spec_description(self) -> Seq<char> {
        match self {
            RecoveryAction::NoAction => "No action needed"@,
            RecoveryAction::Retry => "Retry the operation"@,
            RecoveryAction::Restart => "Restart component"@,
            RecoveryAction::ResetConfig => "Reset configuration"@,
            RecoveryAction::NotifyUser => "Notify user"@,
            RecoveryAction::ReconnectBluetooth => "Reconnect Bluetooth"@,
            RecoveryAction::ReloadConfig => "Reload configuration"@,
            RecoveryAction::ClearCache => "Clear cache"@,
            RecoveryAction::PromptUser => "Prompt user for action"@,
            RecoveryAction::SelectDifferentAdapter => "Select a different Bluetooth adapter"@,
            RecoveryAction::RestartApplication => "Restart the application"@,
            RecoveryAction::Custom(_) => "Custom action"@,
        }
    }

    /// Get a user-friendly description of the recovery action
    pub fn description(&self) -> (s: &'static str)
        ensures
            s@ == self.spec_description(),
    {
        match self {
            RecoveryAction::NoAction => "No action needed",
            RecoveryAction::Retry => "Retry the operation",
            RecoveryAction::Restart => "Restart component",
            RecoveryAction::ResetConfig => "Reset configuration",
            RecoveryAction::NotifyUser => "Notify user",
            RecoveryAction::ReconnectBluetooth => "Reconnect Bluetooth",
            RecoveryAction::ReloadConfig => "Reload configuration",
            RecoveryAction::ClearCache => "Clear cache",
            RecoveryAction::PromptUser => "Prompt user for action",
            RecoveryAction::SelectDifferentAdapter => "Select a different Bluetooth adapter",
            RecoveryAction::RestartApplication => "Restart the application",
            RecoveryAction::Custom(_) => "Custom action",
        }
    }

    /// The display text of each action.
    pub open spec fn spec_text(self) -> Seq<char> {
        match self {
            RecoveryAction::NoAction => "None"@,
            RecoveryAction::Retry => "Retry"@,
            RecoveryAction::Restart => "Restart"@,
            RecoveryAction::ResetConfig => "Reset Config"@,
            RecoveryAction::NotifyUser => "Notify User"@,
            RecoveryAction::ReconnectBluetooth => "Reconnect Bluetooth"@,
            RecoveryAction::ReloadConfig => "Reload Config"@,
            RecoveryAction::ClearCache => "Clear Cache"@,
            RecoveryAction::PromptUser => "Prompt User"@,
            RecoveryAction::SelectDifferentAdapter => "Select Different Adapter"@,
            RecoveryAction::RestartApplication => "Restart Application"@,
            RecoveryAction::Custom(desc) => "Custom: "@ + desc@,
        }
    }

    /// The display text of the action.
    pub fn to_text(&self) -> (s: String)
        ensures
            s@ == self.spec_text(),
    {
        match self {
            RecoveryAction::NoAction => String::from_str("None"),
            RecoveryAction::Retry => String::from_str("Retry"),
            RecoveryAction::Restart => String::from_str("Restart"),
            RecoveryAction::ResetConfig => String::from_str("Reset Config"),
            RecoveryAction::NotifyUser => String::from_str("Notify User"),
            RecoveryAction::ReconnectBluetooth => String::from_str("Reconnect Bluetooth"),
            RecoveryAction::ReloadConfig => String::from_str("Reload Config"),
            RecoveryAction::ClearCache => String::from_str("Clear Cache"),
            RecoveryAction::PromptUser => String::from_str("Prompt User"),
            RecoveryAction::SelectDifferentAdapter => String::from_str("Select Different Adapter"),
            RecoveryAction::RestartApplication => String::from_str("Restart Application"),
            RecoveryAction::Custom(desc) => concat2("Custom: ", desc.as_str()),
        }
    }

    /// A copy of the action.
    pub fn duplicate(&self) -> (r: RecoveryAction)
        ensures
            r == *self,
    {
        match self {
            RecoveryAction::NoAction => RecoveryAction::NoAction,
            RecoveryAction::Retry => RecoveryAction::Retry,
            RecoveryAction::Restart => RecoveryAction::Restart,
            RecoveryAction::ResetConfig => RecoveryAction::ResetConfig,
            RecoveryAction::NotifyUser => RecoveryAction::NotifyUser,
            RecoveryAction::ReconnectBluetooth => RecoveryAction::ReconnectBluetooth,
            RecoveryAction::ReloadConfig => RecoveryAction::ReloadConfig,
            RecoveryAction::ClearCache => RecoveryAction::ClearCache,
            RecoveryAction::PromptUser => RecoveryAction::PromptUser,
            RecoveryAction::SelectDifferentAdapter => RecoveryAction::SelectDifferentAdapter,
            RecoveryAction::RestartApplication => RecoveryAction::RestartApplication,
            RecoveryAction::Custom(desc) => RecoveryAction::Custom(desc.clone()),
        }
    }
}

/// AirPods-specific error type
#[derive(Debug, Clone)]
pub enum AirPodsError {
    /// Failed to parse AirPods data
    ParseError(String),
    /// Invalid data format
    InvalidFormat(String),
    /// Invalid data
    InvalidData(String),
    /// Missing required data
    MissingData(String),
    /// Device compatibility error
    DeviceCompatibility(String),
    /// Connection error
    ConnectionError(String),
    /// Manufacturer data is missing
    ManufacturerDataMissing,
    /// Detection failed
    DetectionFailed(String),
    /// Other error
    Other(String),
}

impl AirPodsError {
    /// The display text of the error.
    pub open spec fn spec_text(self) -> Seq<char> {
        match self {
            AirPodsError::ParseError(s) => "Failed to parse AirPods data: "@ + s@,
            AirPodsError::InvalidFormat(s) => "Invalid data format: "@ + s@,
            AirPodsError::InvalidData(s) => "Invalid data: "@ + s@,
            AirPodsError::MissingData(s) => "Missing required data: "@ + s@,
            AirPodsError::DeviceCompatibility(s) => "Device compatibility error: "@ + s@,
            AirPodsError::ConnectionError(s) => "Connection error: "@ + s@,
            AirPodsError::ManufacturerDataMissing => "Manufacturer data is missing"@,
            AirPodsError::DetectionFailed(s) => "AirPods detection failed: "@ + s@,
            AirPodsError::Other(s) => s@,
        }
    }

    /// The display text of the error.
    pub fn to_text(&self) -> (s: String)
        ensures
            s@ == self.spec_text(),
    {
        match self {
            AirPodsError::ParseError(s) => concat2("Failed to parse AirPods data: ", s.as_str()),
            AirPodsError::InvalidFormat(s) => concat2("Invalid data format: ", s.as_str()),
            AirPodsError::InvalidData(s) => concat2("Invalid data: ", s.as_str()),
            AirPodsError::MissingData(s) => concat2("Missing required data: ", s.as_str()),
            AirPodsError::DeviceCompatibility(s) => concat2(
                "Device compatibility error: ",
                s.as_str(),
            ),
            AirPodsError::ConnectionError(s) => concat2("Connection error: ", s.as_str()),
            AirPodsError::ManufacturerDataMissing => String::from_str(
                "Manufacturer data is missing",
            ),
            AirPodsError::DetectionFailed(s) => concat2("AirPods detection failed: ", s.as_str()),
            AirPodsError::Other(s) => s.clone(),
        }
    }
}

/// Bluetooth-specific error type
#[derive(Debug, Clone)]
pub enum BluetoothError {
    /// Connection to device failed
    ConnectionFailed(String),
    /// Device not found
    DeviceNotFound(String),
    /// Scan operation failed
    ScanFailed(String),
    /// Device disconnected unexpectedly
    DeviceDisconnected(String),
    /// No suitable adapter found
    NoAdapter,
    /// Permission error
    PermissionDenied(String),
    /// Invalid data received from device
    InvalidData(String),
    /// Operation timed out
    Timeout(Duration),
    /// Raw Bluetooth API error
    ApiError(String),
    /// Failed to refresh the Bluetooth adapter
    AdapterRefreshFailed {
        /// The error that occurred
        error: String,
        /// Recommended recovery action
        recovery: RecoveryAction,
        /// Number of retries attempted
        retries: u32,
    },
    /// Bluetooth adapter not available
    AdapterNotAvailable {
        /// Reason adapter is not available
        reason: String,
        /// Recommended recovery action
        recovery: RecoveryAction,
    },
    /// Adapter failed to scan
    AdapterScanFailed {
        /// The error that occurred
        error: String,
        /// Recommended recovery action
        recovery: RecoveryAction,
    },
    /// Other error
    Other(String),
}

impl BluetoothError {
    /// The display text of the error.
    pub open spec fn spec_text(self) -> Seq<char> {
        match self {
            BluetoothError::ConnectionFailed(s) => "Connection failed: "@ + s@,
            BluetoothError::DeviceNotFound(s) => "Device not found: "@ + s@,
            BluetoothError::ScanFailed(s) => "Scan failed: "@ + s@,
            BluetoothError::DeviceDisconnected(s) => "Device disconnected: "@ + s@,
            BluetoothError::NoAdapter => "No suitable Bluetooth adapter found"@,
            BluetoothError::PermissionDenied(s) => "Bluetooth permission denied: "@ + s@,
            BluetoothError::InvalidData(s) => "Invalid data received: "@ + s@,
            BluetoothError::ApiError(e) => "Bluetooth API error: "@ + e@,
            BluetoothError::Timeout(d) => "Operation timed out after "@ + duration_debug_text(
                duration_nanos(d),
            ),
            BluetoothError::AdapterRefreshFailed { error, recovery, retries } =>
                "Failed to refresh adapter: "@ + error@ + " ("@ + decimal_chars(retries as nat)
                + " retries attempted)"@,
            BluetoothError::AdapterNotAvailable { reason, recovery } => "Adapter not available: "@
                + reason@ + " (recommended recovery: "@ + recovery.spec_text() + ")"@,
            BluetoothError::AdapterScanFailed { error, recovery } => "Adapter scan failed: "@
                + error@ + " (recommended recovery: "@ + recovery.spec_text() + ")"@,
            BluetoothError::Other(s) => "Bluetooth error: "@ + s@,
        }
    }

    /// The display text of the error.
    pub fn to_text(&self) -> (s: String)
        ensures
            s@ == self.spec_text(),
    {
        match self {
            BluetoothError::ConnectionFailed(s) => concat2("Connection failed: ", s.as_str()),
            BluetoothError::DeviceNotFound(s) => concat2("Device not found: ", s.as_str()),
            BluetoothError::ScanFailed(s) => concat2("Scan failed: ", s.as_str()),
            BluetoothError::DeviceDisconnected(s) => concat2("Device disconnected: ", s.as_str()),
            BluetoothError::NoAdapter => String::from_str("No suitable Bluetooth adapter found"),
            BluetoothError::PermissionDenied(s) => concat2(
                "Bluetooth permission denied: ",
                s.as_str(),
            ),
            BluetoothError::InvalidData(s) => concat2("Invalid data received: ", s.as_str()),
            BluetoothError::ApiError(e) => concat2("Bluetooth API error: ", e.as_str()),
            BluetoothError::Timeout(d) => {
                let t = duration_debug(d);
                concat2("Operation timed out after ", t.as_str())
            },
            BluetoothError::AdapterRefreshFailed { error, recovery, retries } => {
                let n = decimal_string(*retries as u64);
                let mut s = concat3("Failed to refresh adapter: ", error.as_str(), " (");
                s.append(n.as_str());
                s.append(" retries attempted)");
                s
            },
            BluetoothError::AdapterNotAvailable { reason, recovery } => {
                let r = recovery.to_text();
                let mut s = concat3(
                    "Adapter not available: ",
                    reason.as_str(),
                    " (recommended recovery: ",
                );
                s.append(r.as_str());
                s.append(")");
                s
            },
            BluetoothError::AdapterScanFailed { error, recovery } => {
                let r = recovery.to_text();
                let mut s = concat3(
                    "Adapter scan failed: ",
                    error.as_str(),
                    " (recommended recovery: ",
                );
                s.append(r.as_str());
                s.append(")");
                s
            },
            BluetoothError::Other(s) => concat2("Bluetooth error: ", s.as_str()),
        }
    }
}

/// UI-specific error type
#[derive(Debug, Clone)]
pub enum UiError {
    /// Rendering error
    RenderingError(String),
    /// Invalid input
    InvalidInput(String),
    /// Layout error
    LayoutError(String),
    /// Resource loading error
    ResourceLoadingError(String),
    /// Update error
    UpdateError(String),
    /// Thread error
    ThreadError(String),
    /// Other error
    Other(String),
}

impl UiError {
    /// The display text of the error.
    pub open spec fn spec_text(self) -> Seq<char> {
        match self {
            UiError::RenderingError(s) => "Rendering error: "@ + s@,
            UiError::InvalidInput(s) => "Invalid input: "@ + s@,
            UiError::LayoutError(s) => "Layout error: "@ + s@,
            UiError::ResourceLoadingError(s) => "Failed to load resource: "@ + s@,
            UiError::UpdateError(s) => "UI update error: "@ + s@,
            UiError::ThreadError(s) => "UI thread error: "@ + s@,
            UiError::Other(s) => s@,
        }
    }

    /// The display text of the error.
    pub fn to_text(&self) -> (s: String)
        ensures
            s@ == self.spec_text(),
    {
        match self {
            UiError::RenderingError(s) => concat2("Rendering error: ", s.as_str()),
            UiError::InvalidInput(s) => concat2("Invalid input: ", s.as_str()),
            UiError::LayoutError(s) => concat2("Layout error: ", s.as_str()),
            UiError::ResourceLoadingError(s) => concat2("Failed to load resource: ", s.as_str()),
            UiError::UpdateError(s) => concat2("UI update error: ", s.as_str()),
            UiError::ThreadError(s) => concat2("UI thread error: ", s.as_str()),
            UiError::Other(s) => s.clone(),
        }
    }
}

/// Configuration-specific error type
#[derive(Debug, Clone)]
pub enum ConfigError {
    /// Failed to read config file
    ReadError(String),
    /// Failed to write config file
    WriteError(String),
    /// Failed to parse config
    ParseError(String),
    /// IO error
    IoError(String),
    /// Validation error
    ValidationError(String),
    /// Missing required field
    MissingField(String),
    /// Invalid value for field
    InvalidValue(String, String),
    /// Other error
    Other(String),
}

impl ConfigError {
    /// The display text of the error.
    pub open spec fn spec_text(self) -> Seq<char> {
        match self {
            ConfigError::ReadError(s) => "Failed to read config file: "@ + s@,
            ConfigError::WriteError(s) => "Failed to write config file: "@ + s@,
            ConfigError::ParseError(s) => "Failed to parse config: "@ + s@,
            ConfigError::IoError(s) => "IO error: "@ + s@,
            ConfigError::ValidationError(s) => "Validation error: "@ + s@,
            ConfigError::MissingField(s) => "Missing required field: "@ + s@,
            ConfigError::InvalidValue(f, v) => "Invalid value for "@ + f@ + ": "@ + v@,
            ConfigError::Other(s) => s@,
        }
    }

    /// The display text of the error.
    pub fn to_text(&self) -> (s: String)
        ensures
            s@ == self.spec_text(),
    {
        match self {
            ConfigError::ReadError(s) => concat2("Failed to read config file: ", s.as_str()),
            ConfigError::WriteError(s) => concat2("Failed to write config file: ", s.as_str()),
            ConfigError::ParseError(s) => concat2("Failed to parse config: ", s.as_str()),
            ConfigError::IoError(s) => concat2("IO error: ", s.as_str()),
            ConfigError::ValidationError(s) => concat2("Validation error: ", s.as_str()),
            ConfigError::MissingField(s) => concat2("Missing required field: ", s.as_str()),
            ConfigError::InvalidValue(f, v) => {
                let mut s = concat3("Invalid value for ", f.as_str(), ": ");
                s.append(v.as_str());
                s
            },
            ConfigError::Other(s) => s.clone(),
        }
    }
}

/// Main error type for the application
#[derive(Debug)]
pub enum RustPodsError {
    /// Bluetooth related errors
    Bluetooth(String),
    /// Configuration related errors
    Config(String),
    /// UI related errors, with their severity
    Ui(String, ErrorSeverity),
    /// System/OS related errors, with their severity
    System(String, ErrorSeverity),
    /// State/data related errors
    State(String),
    /// Device related errors
    Device(String),
    /// General application errors
    General(String),
    /// Configuration error with debug info
    ConfigError(String),
    /// UI error with no message
    UiError,
    /// Bluetooth API error, with the message of the underlying error
    BluetoothApiError(String),
    /// Device not found error
    DeviceNotFound,
    /// Application error
    Application(String),
    /// AirPods related errors
    AirPods(AirPodsError),
    /// Battery monitoring errors
    BatteryMonitor(String),
    /// Battery monitoring error
    BatteryMonitorError(String),
    /// State persistence error
    StatePersistence(String),
    /// Lifecycle error
    Lifecycle(String),
    /// JSON serialization/deserialization error
    ParseError(String),
    /// File I/O error
    IoError(String),
    /// Path error
    Path(String),
    /// File not found error, with the displayed path
    FileNotFound(String),
    /// Permission denied error
    PermissionDenied(String),
    /// Validation error
    Validation(String),
    /// Parse error
    Parse(String),
    /// Timeout error
    Timeout(String),
    /// Context error, with the message of its source error
    Context {
        context: String,
        source: String,
    },
    /// Invalid data error
    InvalidData(String),
    /// Bluetooth error
    BluetoothError(BluetoothError),
}

impl RustPodsError {
    /// The display text of the error.
    pub open spec fn spec_text(self) -> Seq<char> {
        match self {
            RustPodsError::Bluetooth(s) => "Bluetooth error: "@ + s@,
            RustPodsError::Config(s) => "Configuration error: "@ + s@,
            RustPodsError::Ui(s, _) => "UI error: "@ + s@,
            RustPodsError::System(s, _) => "System error: "@ + s@,
            RustPodsError::State(s) => "State error: "@ + s@,
            RustPodsError::Device(s) => "Device error: "@ + s@,
            RustPodsError::General(s) => "Application error: "@ + s@,
            RustPodsError::ConfigError(s) => "Configuration error: "@ + s@,
            RustPodsError::UiError => "UI error"@,
            RustPodsError::BluetoothApiError(s) => "Bluetooth API error: "@ + s@,
            RustPodsError::DeviceNotFound => "Device not found"@,
            RustPodsError::Application(s) => "Application error: "@ + s@,
            RustPodsError::AirPods(e) => "AirPods error: "@ + e.spec_text(),
            RustPodsError::BatteryMonitor(s) => "Battery monitoring error: "@ + s@,
            RustPodsError::BatteryMonitorError(s) => "Battery monitoring error: "@ + s@,
            RustPodsError::StatePersistence(s) => "State persistence error: "@ + s@,
            RustPodsError::Lifecycle(s) => "Lifecycle error: "@ + s@,
            RustPodsError::ParseError(s) => "JSON error: "@ + s@,
            RustPodsError::IoError(s) => "File I/O error: "@ + s@,
            RustPodsError::Path(s) => "Path error: "@ + s@,
            RustPodsError::FileNotFound(s) => "File not found: "@ + s@,
            RustPodsError::PermissionDenied(s) => "Permission denied: "@ + s@,
            RustPodsError::Validation(s) => "Validation error: "@ + s@,
            RustPodsError::Parse(s) => "Parse error: "@ + s@,
            RustPodsError::Timeout(s) => "Timeout error: "@ + s@,
            RustPodsError::Context { context, source } => context@ + ": "@ + source@,
            RustPodsError::InvalidData(s) => "Invalid data: "@ + s@,
            RustPodsError::BluetoothError(e) => "Bluetooth error: "@ + e.spec_text(),
        }
    }

    /// The display text of the error.
    pub fn to_text(&self) -> (s: String)
        ensures
            s@ == self.spec_text(),
    {
        match self {
            RustPodsError::Bluetooth(s) => concat2("Bluetooth error: ", s.as_str()),
            RustPodsError::Config(s) => concat2("Configuration error: ", s.as_str()),
            RustPodsError::Ui(s, _) => concat2("UI error: ", s.as_str()),
            RustPodsError::System(s, _) => concat2("System error: ", s.as_str()),
            RustPodsError::State(s) => concat2("State error: ", s.as_str()),
            RustPodsError::Device(s) => concat2("Device error: ", s.as_str()),
            RustPodsError::General(s) => concat2("Application error: ", s.as_str()),
            RustPodsError::ConfigError(s) => concat2("Configuration error: ", s.as_str()),
            RustPodsError::UiError => String::from_str("UI error"),
            RustPodsError::BluetoothApiError(s) => concat2("Bluetooth API error: ", s.as_str()),
            RustPodsError::DeviceNotFound => String::from_str("Device not found"),
            RustPodsError::Application(s) => concat2("Application error: ", s.as_str()),
            RustPodsError::AirPods(e) => {
                let t = e.to_text();
                concat2("AirPods error: ", t.as_str())
            },
            RustPodsError::BatteryMonitor(s) => concat2("Battery monitoring error: ", s.as_str()),
            RustPodsError::BatteryMonitorError(s) => concat2(
                "Battery monitoring error: ",
                s.as_str(),
            ),
            RustPodsError::StatePersistence(s) => concat2("State persistence error: ", s.as_str()),
            RustPodsError::Lifecycle(s) => concat2("Lifecycle error: ", s.as_str()),
            RustPodsError::ParseError(s) => concat2("JSON error: ", s.as_str()),
            RustPodsError::IoError(s) => concat2("File I/O error: ", s.as_str()),
            RustPodsError::Path(s) => concat2("Path error: ", s.as_str()),
            RustPodsError::FileNotFound(s) => concat2("File not found: ", s.as_str()),
            RustPodsError::PermissionDenied(s) => concat2("Permission denied: ", s.as_str()),
            RustPodsError::Validation(s) => concat2("Validation error: ", s.as_str()),
            RustPodsError::Parse(s) => concat2("Parse error: ", s.as_str()),
            RustPodsError::Timeout(s) => concat2("Timeout error: ", s.as_str()),
            RustPodsError::Context { context, source } => concat3(
                context.as_str(),
                ": ",
                source.as_str(),
            ),
            RustPodsError::InvalidData(s) => concat2("Invalid data: ", s.as_str()),
            RustPodsError::BluetoothError(e) => {
                let t = e.to_text();
                concat2("Bluetooth error: ", t.as_str())
            },
        }
    }

    /// The user-facing message of each error.
    pub open spec fn spec_user_message(self) -> Seq<char> {
        match self {
            RustPodsError::Bluetooth(msg) => "Bluetooth issue: "@ + msg@,
            RustPodsError::BluetoothApiError(_) =>
                "Bluetooth API issue. Please check your Bluetooth adapter."@,
            RustPodsError::AirPods(e) => "AirPods issue: "@ + e.spec_text(),
            RustPodsError::Ui(msg, _) => "User interface issue: "@ + msg@,
            RustPodsError::UiError => "User interface issue"@,
            RustPodsError::Config(msg) => "Configuration issue: "@ + msg@,
            RustPodsError::ConfigError(msg) => "Configuration issue: "@ + msg@,
            RustPodsError::Application(msg) => "Application error: "@ + msg@,
            RustPodsError::DeviceNotFound => "Device not found"@,
            RustPodsError::Device(msg) => "Device issue: "@ + msg@,
            RustPodsError::BatteryMonitor(msg) => "Battery monitoring issue: "@ + msg@,
            RustPodsError::BatteryMonitorError(msg) => "Battery monitoring issue: "@ + msg@,
            RustPodsError::State(msg) => "State management issue: "@ + msg@,
            RustPodsError::StatePersistence(msg) => "State persistence issue: "@ + msg@,
            RustPodsError::Lifecycle(msg) => "Lifecycle issue: "@ + msg@,
            RustPodsError::System(msg, _) => "System issue: "@ + msg@,
            RustPodsError::General(msg) => msg@,
            RustPodsError::IoError(e) => "File access issue: "@ + e@,
            RustPodsError::ParseError(e) => "Data format issue: "@ + e@,
            RustPodsError::Path(msg) => "File path issue: "@ + msg@,
            RustPodsError::FileNotFound(path) => "File not found: "@ + path@,
            RustPodsError::PermissionDenied(msg) => "Permission denied: "@ + msg@,
            RustPodsError::Validation(msg) => "Validation issue: "@ + msg@,
            RustPodsError::Parse(msg) => "Parsing issue: "@ + msg@,
            RustPodsError::Timeout(msg) => "Operation timed out: "@ + msg@,
            RustPodsError::Context { context, source } => context@ + ": "@ + source@,
            RustPodsError::InvalidData(msg) => "Invalid data: "@ + msg@,
            RustPodsError::BluetoothError(_) => "Bluetooth error: "@ + self.spec_text(),
        }
    }

    /// Get a user-friendly message for this error
    pub fn user_message(&self) -> (s: String)
        ensures
            s@ == self.spec_user_message(),
    {
        match self {
            RustPodsError::Bluetooth(msg) => concat2("Bluetooth issue: ", msg.as_str()),
            RustPodsError::BluetoothApiError(_) => String::from_str(
                "Bluetooth API issue. Please check your Bluetooth adapter.",
            ),
            RustPodsError::AirPods(e) => {
                let t = e.to_text();
                concat2("AirPods issue: ", t.as_str())
            },
            RustPodsError::Ui(msg, _) => concat2("User interface issue: ", msg.as_str()),
            RustPodsError::UiError => String::from_str("User interface issue"),
            RustPodsError::Config(msg) => concat2("Configuration issue: ", msg.as_str()),
            RustPodsError::ConfigError(msg) => concat2("Configuration issue: ", msg.as_str()),
            RustPodsError::Application(msg) => concat2("Application error: ", msg.as_str()),
            RustPodsError::DeviceNotFound => String::from_str("Device not found"),
            RustPodsError::Device(msg) => concat2("Device issue: ", msg.as_str()),
            RustPodsError::BatteryMonitor(msg) => concat2("Battery monitoring issue: ", msg.as_str()),
            RustPodsError::BatteryMonitorError(msg) => concat2(
                "Battery monitoring issue: ",
                msg.as_str(),
            ),
            RustPodsError::State(msg) => concat2("State management issue: ", msg.as_str()),
            RustPodsError::StatePersistence(msg) => concat2(
                "State persistence issue: ",
                msg.as_str(),
            ),
            RustPodsError::Lifecycle(msg) => concat2("Lifecycle issue: ", msg.as_str()),
            RustPodsError::System(msg, _) => concat2("System issue: ", msg.as_str()),
            RustPodsError::General(msg) => msg.clone(),
            RustPodsError::IoError(e) => concat2("File access issue: ", e.as_str()),
            RustPodsError::ParseError(e) => concat2("Data format issue: ", e.as_str()),
            RustPodsError::Path(msg) => concat2("File path issue: ", msg.as_str()),
            RustPodsError::FileNotFound(path) => concat2("File not found: ", path.as_str()),
            RustPodsError::PermissionDenied(msg) => concat2("Permission denied: ", msg.as_str()),
            RustPodsError::Validation(msg) => concat2("Validation issue: ", msg.as_str()),
            RustPodsError::Parse(msg) => concat2("Parsing issue: ", msg.as_str()),
            RustPodsError::Timeout(msg) => concat2("Operation timed out: ", msg.as_str()),
            RustPodsError::Context { context, source } => concat3(
                context.as_str(),
                ": ",
                source.as_str(),
            ),
            RustPodsError::InvalidData(msg) => concat2("Invalid data: ", msg.as_str()),
            RustPodsError::BluetoothError(_) => {
                let t = self.to_text();
                concat2("Bluetooth error: ", t.as_str())
            },
        }
    }

    /// Whether the application can recover from each kind of error.
    pub open spec fn spec_is_recoverable(self) -> bool {
        match self {
            RustPodsError::Application(_) | RustPodsError::State(_)
            | RustPodsError::StatePersistence(_) | RustPodsError::Lifecycle(_)
            | RustPodsError::System(..) | RustPodsError::General(_)
            | RustPodsError::ParseError(_) | RustPodsError::Path(_)
            | RustPodsError::PermissionDenied(_) | RustPodsError::Parse(_)
            | RustPodsError::Context { .. } | RustPodsError::InvalidData(_) => false,
            _ => true,
        }
    }

    /// Check if the error is recoverable
    pub fn is_recoverable(&self) -> (r: bool)
        ensures
            r == self.spec_is_recoverable(),
    {
        match self {
            RustPodsError::Bluetooth(_) => true,
            RustPodsError::BluetoothApiError(_) => true,
            RustPodsError::AirPods(_) => true,
            RustPodsError::Ui(..) => true,
            RustPodsError::UiError => true,
            RustPodsError::Config(_) => true,
            RustPodsError::ConfigError(_) => true,
            RustPodsError::Application(_) => false,
            RustPodsError::DeviceNotFound => true,
            RustPodsError::Device(_) => true,
            RustPodsError::BatteryMonitor(_) => true,
            RustPodsError::BatteryMonitorError(_) => true,
            RustPodsError::State(_) => false,
            RustPodsError::StatePersistence(_) => false,
            RustPodsError::Lifecycle(_) => false,
            RustPodsError::System(..) => false,
            RustPodsError::General(_) => false,
            RustPodsError::IoError(_) => true,
            RustPodsError::ParseError(_) => false,
            RustPodsError::Path(_) => false,
            RustPodsError::FileNotFound(_) => true,
            RustPodsError::PermissionDenied(_) => false,
            RustPodsError::Validation(_) => true,
            RustPodsError::Parse(_) => false,
            RustPodsError::Timeout(_) => true,
            RustPodsError::Context { .. } => false,
            RustPodsError::InvalidData(_) => false,
            RustPodsError::BluetoothError(_) => true,
        }
    }

    /// The recommended recovery action of each kind of error.
    pub open spec fn spec_recovery_action(self) -> RecoveryAction {
        match self {
            RustPodsError::Bluetooth(_) | RustPodsError::BluetoothApiError(_)
            | RustPodsError::AirPods(_) | RustPodsError::DeviceNotFound | RustPodsError::Device(_)
            | RustPodsError::BluetoothError(_) => RecoveryAction::ReconnectBluetooth,
            RustPodsError::Ui(..) | RustPodsError::UiError | RustPodsError::Application(_)
            | RustPodsError::State(_) | RustPodsError::Lifecycle(_)
            | RustPodsError::System(..) => RecoveryAction::Restart,
            RustPodsError::Config(_) | RustPodsError::ConfigError(_) => RecoveryAction::ReloadConfig,
            RustPodsError::BatteryMonitor(_) | RustPodsError::BatteryMonitorError(_)
            | RustPodsError::IoError(_) | RustPodsError::Timeout(_) => RecoveryAction::Retry,
            RustPodsError::StatePersistence(_) | RustPodsError::ParseError(_) =>
                RecoveryAction::ResetConfig,
            RustPodsError::PermissionDenied(_) => RecoveryAction::PromptUser,
            _ => RecoveryAction::NotifyUser,
        }
    }

    /// Get the recommended recovery action for this error
    pub fn recovery_action(&self) -> (r: RecoveryAction)
        ensures
            r == self.spec_recovery_action(),
    {
        match self {
            RustPodsError::Bluetooth(_) => RecoveryAction::ReconnectBluetooth,
            RustPodsError::BluetoothApiError(_) => RecoveryAction::ReconnectBluetooth,
            RustPodsError::AirPods(_) => RecoveryAction::ReconnectBluetooth,
            RustPodsError::Ui(..) => RecoveryAction::Restart,
            RustPodsError::UiError => RecoveryAction::Restart,
            RustPodsError::Config(_) => RecoveryAction::ReloadConfig,
            RustPodsError::ConfigError(_) => RecoveryAction::ReloadConfig,
            RustPodsError::Application(_) => RecoveryAction::Restart,
            RustPodsError::DeviceNotFound => RecoveryAction::ReconnectBluetooth,
            RustPodsError::Device(_) => RecoveryAction::ReconnectBluetooth,
            RustPodsError::BatteryMonitor(_) => RecoveryAction::Retry,
            RustPodsError::BatteryMonitorError(_) => RecoveryAction::Retry,
            RustPodsError::State(_) => RecoveryAction::Restart,
            RustPodsError::StatePersistence(_) => RecoveryAction::ResetConfig,
            RustPodsError::Lifecycle(_) => RecoveryAction::Restart,
            RustPodsError::System(..) => RecoveryAction::Restart,
            RustPodsError::General(_) => RecoveryAction::NotifyUser,
            RustPodsError::IoError(_) => RecoveryAction::Retry,
            RustPodsError::ParseError(_) => RecoveryAction::ResetConfig,
            RustPodsError::Path(_) => RecoveryAction::NotifyUser,
            RustPodsError::FileNotFound(_) => RecoveryAction::NotifyUser,
            RustPodsError::PermissionDenied(_) => RecoveryAction::PromptUser,
            RustPodsError::Validation(_) => RecoveryAction::NotifyUser,
            RustPodsError::Parse(_) => RecoveryAction::NotifyUser,
            RustPodsError::Timeout(_) => RecoveryAction::Retry,
            RustPodsError::Context { .. } => RecoveryAction::NotifyUser,
            RustPodsError::InvalidData(_) => RecoveryAction::NotifyUser,
            RustPodsError::BluetoothError(_) => RecoveryAction::ReconnectBluetooth,
        }
    }

    /// The severity of each kind of error.
    pub open spec fn spec_severity(self) -> ErrorSeverity {
        match self {
            RustPodsError::Ui(_, severity) | RustPodsError::System(_, severity) => severity,
            RustPodsError::UiError | RustPodsError::BatteryMonitor(_)
            | RustPodsError::BatteryMonitorError(_) => ErrorSeverity::Minor,
            RustPodsError::Application(_) | RustPodsError::Lifecycle(_)
            | RustPodsError::PermissionDenied(_) => ErrorSeverity::Critical,
            RustPodsError::General(_) | RustPodsError::Validation(_) | RustPodsError::Parse(_)
            | RustPodsError::Context { .. } => ErrorSeverity::Error,
            _ => ErrorSeverity::Major,
        }
    }

    /// Get the severity level for this error
    pub fn severity(&self) -> (r: ErrorSeverity)
        ensures
            r == self.spec_severity(),
    {
        match self {
            RustPodsError::Bluetooth(_) => ErrorSeverity::Major,
            RustPodsError::BluetoothApiError(_) => ErrorSeverity::Major,
            RustPodsError::AirPods(_) => ErrorSeverity::Major,
            RustPodsError::Ui(_, severity) => *severity,
            RustPodsError::UiError => ErrorSeverity::Minor,
            RustPodsError::Config(_) => ErrorSeverity::Major,
            RustPodsError::ConfigError(_) => ErrorSeverity::Major,
            RustPodsError::Application(_) => ErrorSeverity::Critical,
            RustPodsError::DeviceNotFound => ErrorSeverity::Major,
            RustPodsError::Device(_) => ErrorSeverity::Major,
            RustPodsError::BatteryMonitor(_) => ErrorSeverity::Minor,
            RustPodsError::BatteryMonitorError(_) => ErrorSeverity::Minor,
            RustPodsError::State(_) => ErrorSeverity::Major,
            RustPodsError::StatePersistence(_) => ErrorSeverity::Major,
            RustPodsError::Lifecycle(_) => ErrorSeverity::Critical,
            RustPodsError::System(_, severity) => *severity,
            RustPodsError::General(_) => ErrorSeverity::Error,
            RustPodsError::IoError(_) => ErrorSeverity::Major,
            RustPodsError::ParseError(_) => ErrorSeverity::Major,
            RustPodsError::Path(_) => ErrorSeverity::Major,
            RustPodsError::FileNotFound(_) => ErrorSeverity::Major,
            RustPodsError::PermissionDenied(_) => ErrorSeverity::Critical,
            RustPodsError::Validation(_) => ErrorSeverity::Error,
            RustPodsError::Parse(_) => ErrorSeverity::Error,
            RustPodsError::Timeout(_) => ErrorSeverity::Major,
            RustPodsError::Context { .. } => ErrorSeverity::Error,
            RustPodsError::InvalidData(_) => ErrorSeverity::Major,
            RustPodsError::BluetoothError(_) => ErrorSeverity::Major,
        }
    }

    /// The category name of each kind of error.
    pub open spec fn spec_category(self) -> Seq<char> {
        match self {
            RustPodsError::Bluetooth(_) => "bluetooth"@,
            RustPodsError::BluetoothApiError(_) => "bluetooth_api"@,
            RustPodsError::BluetoothError(_) => "bluetooth_error"@,
            RustPodsError::Config(_) | RustPodsError::ConfigError(_) => "config"@,
            RustPodsError::Ui(..) | RustPodsError::UiError => "ui"@,
            RustPodsError::System(..) => "system"@,
            RustPodsError::State(_) | RustPodsError::StatePersistence(_) => "state"@,
            RustPodsError::Device(_) | RustPodsError::DeviceNotFound => "device"@,
            RustPodsError::General(_) => "general"@,
            RustPodsError::Application(_) => "application"@,
            RustPodsError::AirPods(_) => "airpods"@,
            RustPodsError::BatteryMonitor(_) | RustPodsError::BatteryMonitorError(_) => "battery"@,
            RustPodsError::Lifecycle(_) => "lifecycle"@,
            RustPodsError::IoError(_) => "file_io"@,
            RustPodsError::ParseError(_) => "json"@,
            RustPodsError::Path(_) => "path"@,
            RustPodsError::FileNotFound(_) => "file_not_found"@,
            RustPodsError::PermissionDenied(_) => "permission"@,
            RustPodsError::Validation(_) => "validation"@,
            RustPodsError::Parse(_) => "parse"@,
            RustPodsError::Timeout(_) => "timeout"@,
            RustPodsError::Context { .. } => "context"@,
            RustPodsError::InvalidData(_) => "invalid_data"@,
        }
    }

    /// Get the category of the error
    pub fn get_category(&self) -> (s: &'static str)
        ensures
            s@ == self.spec_category(),
    {
        match self {
            RustPodsError::Bluetooth(_) => "bluetooth",
            RustPodsError::BluetoothApiError(_) => "bluetooth_api",
            RustPodsError::BluetoothError(_) => "bluetooth_error",
            RustPodsError::Config(_) => "config",
            RustPodsError::ConfigError(_) => "config",
            RustPodsError::Ui(..) => "ui",
            RustPodsError::UiError => "ui",
            RustPodsError::System(..) => "system",
            RustPodsError::State(_) => "state",
            RustPodsError::Device(_) => "device",
            RustPodsError::DeviceNotFound => "device",
            RustPodsError::General(_) => "general",
            RustPodsError::Application(_) => "application",
            RustPodsError::AirPods(_) => "airpods",
            RustPodsError::BatteryMonitor(_) => "battery",
            RustPodsError::BatteryMonitorError(_) => "battery",
            RustPodsError::StatePersistence(_) => "state",
            RustPodsError::Lifecycle(_) => "lifecycle",
            RustPodsError::IoError(_) => "file_io",
            RustPodsError::ParseError(_) => "json",
            RustPodsError::Path(_) => "path",
            RustPodsError::FileNotFound(_) => "file_not_found",
            RustPodsError::PermissionDenied(_) => "permission",
            RustPodsError::Validation(_) => "validation",
            RustPodsError::Parse(_) => "parse",
            RustPodsError::Timeout(_) => "timeout",
            RustPodsError::Context { .. } => "context",
            RustPodsError::InvalidData(_) => "invalid_data",
        }
    }

    /// The specific type name of each kind of error.
    pub open spec fn spec_type(self) -> Seq<char> {
        match self {
            RustPodsError::Bluetooth(_) => "bluetooth_generic"@,
            RustPodsError::BluetoothApiError(_) => "bluetooth_api"@,
            RustPodsError::BluetoothError(_) => "bluetooth_error"@,
            RustPodsError::Config(_) => "config_generic"@,
            RustPodsError::ConfigError(_) => "config_error"@,
            RustPodsError::Ui(..) => "ui_generic"@,
            RustPodsError::UiError => "ui_error"@,
            RustPodsError::System(..) => "system_generic"@,
            RustPodsError::State(_) => "state_generic"@,
            RustPodsError::Device(_) => "device_generic"@,
            RustPodsError::DeviceNotFound => "device_not_found"@,
            RustPodsError::General(_) => "general"@,
            RustPodsError::Application(_) => "application"@,
            RustPodsError::AirPods(_) => "airpods"@,
            RustPodsError::BatteryMonitor(_) => "battery_monitor"@,
            RustPodsError::BatteryMonitorError(_) => "battery_error"@,
            RustPodsError::StatePersistence(_) => "state"@,
            RustPodsError::Lifecycle(_) => "lifecycle"@,
            RustPodsError::IoError(_) => "file_io"@,
            RustPodsError::ParseError(_) => "json"@,
            RustPodsError::Path(_) => "path"@,
            RustPodsError::FileNotFound(_) => "file_not_found"@,
            RustPodsError::PermissionDenied(_) => "permission"@,
            RustPodsError::Validation(_) => "validation"@,
            RustPodsError::Parse(_) => "parse"@,
            RustPodsError::Timeout(_) => "timeout"@,
            RustPodsError::Context { .. } => "context"@,
            RustPodsError::InvalidData(_) => "invalid_data"@,
        }
    }

    /// The position of the error's kind among the kinds of error.
    pub open spec fn spec_kind_index(self) -> int {
        match self {
            RustPodsError::Bluetooth(_) => 0,
            RustPodsError::BluetoothApiError(_) => 1,
            RustPodsError::BluetoothError(_) => 2,
            RustPodsError::Config(_) => 3,
            RustPodsError::ConfigError(_) => 4,
            RustPodsError::Ui(..) => 5,
            RustPodsError::UiError => 6,
            RustPodsError::System(..) => 7,
            RustPodsError::State(_) => 8,
            RustPodsError::Device(_) => 9,
            RustPodsError::DeviceNotFound => 10,
            RustPodsError::General(_) => 11,
            RustPodsError::Application(_) => 12,
            RustPodsError::AirPods(_) => 13,
            RustPodsError::BatteryMonitor(_) => 14,
            RustPodsError::BatteryMonitorError(_) => 15,
            RustPodsError::StatePersistence(_) => 16,
            RustPodsError::Lifecycle(_) => 17,
            RustPodsError::IoError(_) => 18,
            RustPodsError::ParseError(_) => 19,
            RustPodsError::Path(_) => 20,
            RustPodsError::FileNotFound(_) => 21,
            RustPodsError::PermissionDenied(_) => 22,
            RustPodsError::Validation(_) => 23,
            RustPodsError::Parse(_) => 24,
            RustPodsError::Timeout(_) => 25,
            RustPodsError::Context { .. } => 26,
            RustPodsError::InvalidData(_) => 27,
        }
    }

    /// Get the specific type of the error
    pub fn get_type(&self) -> (s: &'static str)
        ensures
            s@ == self.spec_type(),
    {
        match self {
            RustPodsError::Bluetooth(_) => "bluetooth_generic",
            RustPodsError::BluetoothApiError(_) => "bluetooth_api",
            RustPodsError::BluetoothError(_) => "bluetooth_error",
            RustPodsError::Config(_) => "config_generic",
            RustPodsError::ConfigError(_) => "config_error",
            RustPodsError::Ui(..) => "ui_generic",
            RustPodsError::UiError => "ui_error",
            RustPodsError::System(..) => "system_generic",
            RustPodsError::State(_) => "state_generic",
            RustPodsError::Device(_) => "device_generic",
            RustPodsError::DeviceNotFound => "device_not_found",
            RustPodsError::General(_) => "general",
            RustPodsError::Application(_) => "application",
            RustPodsError::AirPods(_) => "airpods",
            RustPodsError::BatteryMonitor(_) => "battery_monitor",
            RustPodsError::BatteryMonitorError(_) => "battery_error",
            RustPodsError::StatePersistence(_) => "state",
            RustPodsError::Lifecycle(_) => "lifecycle",
            RustPodsError::IoError(_) => "file_io",
            RustPodsError::ParseError(_) => "json",
            RustPodsError::Path(_) => "path",
            RustPodsError::FileNotFound(_) => "file_not_found",
            RustPodsError::PermissionDenied(_) => "permission",
            RustPodsError::Validation(_) => "validation",
            RustPodsError::Parse(_) => "parse",
            RustPodsError::Timeout(_) => "timeout",
            RustPodsError::Context { .. } => "context",
            RustPodsError::InvalidData(_) => "invalid_data",
        }
    }

    /// `get_type` gives each variant its own text: two errors get the same
    /// text from `get_type` exactly when they are the same variant (the same
    /// `spec_kind_index`), so the 28 variants give 28 distinct texts.
    pub proof fn lemma_type_names_distinct(a: RustPodsError, b: RustPodsError)
        ensures
            (a.spec_type() == b.spec_type()) <==> (a.spec_kind_index() == b.spec_kind_index()),
    {
        lemma_type_name_gives_kind(a);
        lemma_type_name_gives_kind(b);
    }

    /// Create a UI error with a message and severity
    pub fn ui(message: String, severity: ErrorSeverity) -> (e: Self)
        ensures
            e == RustPodsError::Ui(message, severity),
            e.spec_severity() == severity,
    {
        RustPodsError::Ui(message, severity)
    }

    /// Create a system error with a message and severity
    pub fn system(message: String, severity: ErrorSeverity) -> (e: Self)
        ensures
            e == RustPodsError::System(message, severity),
            e.spec_severity() == severity,
    {
        RustPodsError::System(message, severity)
    }

    /// Create an application error with a message
    pub fn application(message: String) -> (e: Self)
        ensures
            e == RustPodsError::Application(message),
    {
        RustPodsError::Application(message)
    }

    /// Add context to an error, given the message of the source error.
    pub fn with_context(source_message: String, context: String) -> (e: Self)
        ensures
            e == (RustPodsError::Context { context, source: source_message }),
    {
        RustPodsError::Context { context, source: source_message }
    }
}

impl From<AirPodsError> for RustPodsError {
    fn from(e: AirPodsError) -> (r: RustPodsError)
        ensures
            r == RustPodsError::AirPods(e),
    {
        RustPodsError::AirPods(e)
    }
}

impl vstd::std_specs::convert::FromSpecImpl<AirPodsError> for RustPodsError {
    open spec fn obeys_from_spec() -> bool {
        true
    }

    open spec fn from_spec(e: AirPodsError) -> RustPodsError {
        RustPodsError::AirPods(e)
    }
}

impl From<BluetoothError> for RustPodsError {
    fn from(e: BluetoothError) -> (r: RustPodsError)
        ensures
            r == RustPodsError::BluetoothError(e),
    {
        RustPodsError::BluetoothError(e)
    }
}

impl vstd::std_specs::convert::FromSpecImpl<BluetoothError> for RustPodsError {
    open spec fn obeys_from_spec() -> bool {
        true
    }

    open spec fn from_spec(e: BluetoothError) -> RustPodsError {
        RustPodsError::BluetoothError(e)
    }
}

/// The kind of error that a type name designates (`-1` for none).
pub open spec fn kind_of_type_name(s: Seq<char>) -> int {
    if s == "bluetooth_generic"@ {
        0
    } else if s == "bluetooth_api"@ {
        1
    } else if s == "bluetooth_error"@ {
        2
    } else if s == "config_generic"@ {
        3
    } else if s == "config_error"@ {
        4
    } else if s == "ui_generic"@ {
        5
    } else if s == "ui_error"@ {
        6
    } else if s == "system_generic"@ {
        7
    } else if s == "state_generic"@ {
        8
    } else if s == "device_generic"@ {
        9
    } else if s == "device_not_found"@ {
        10
    } else if s == "general"@ {
        11
    } else if s == "application"@ {
        12
    } else if s == "airpods"@ {
        13
    } else if s == "battery_monitor"@ {
        14
    } else if s == "battery_error"@ {
        15
    } else if s == "state"@ {
        16
    } else if s == "lifecycle"@ {
        17
    } else if s == "file_io"@ {
        18
    } else if s == "json"@ {
        19
    } else if s == "path"@ {
        20
    } else if s == "file_not_found"@ {
        21
    } else if s == "permission"@ {
        22
    } else if s == "validation"@ {
        23
    } else if s == "parse"@ {
        24
    } else if s == "timeout"@ {
        25
    } else if s == "context"@ {
        26
    } else if s == "invalid_data"@ {
        27
    } else {
        -1
    }
}

/// The type name of each kind of error, by position.
pub open spec fn type_name_of_kind(k: int) -> Seq<char> {
    if k == 0 {
        "bluetooth_generic"@
    } else if k == 1 {
        "bluetooth_api"@
    } else if k == 2 {
        "bluetooth_error"@
    } else if k == 3 {
        "config_generic"@
    } else if k == 4 {
        "config_error"@
    } else if k == 5 {
        "ui_generic"@
    } else if k == 6 {
        "ui_error"@
    } else if k == 7 {
        "system_generic"@
    } else if k == 8 {
        "state_generic"@
    } else if k == 9 {
        "device_generic"@
    } else if k == 10 {
        "device_not_found"@
    } else if k == 11 {
        "general"@
    } else if k == 12 {
        "application"@
    } else if k == 13 {
        "airpods"@
    } else if k == 14 {
        "battery_monitor"@
    } else if k == 15 {
        "battery_error"@
    } else if k == 16 {
        "state"@
    } else if k == 17 {
        "lifecycle"@
    } else if k == 18 {
        "file_io"@
    } else if k == 19 {
        "json"@
    } else if k == 20 {
        "path"@
    } else if k == 21 {
        "file_not_found"@
    } else if k == 22 {
        "permission"@
    } else if k == 23 {
        "validation"@
    } else if k == 24 {
        "parse"@
    } else if k == 25 {
        "timeout"@
    } else if k == 26 {
        "context"@
    } else if k == 27 {
        "invalid_data"@
    } else {
        Seq::empty()
    }
}

/// The type name of an error gives its kind back.
#[verifier::spinoff_prover]
#[verifier::rlimit(40)]
proof fn lemma_type_name_gives_kind(e: RustPodsError)
    ensures
        kind_of_type_name(e.spec_type()) == e.spec_kind_index(),
        type_name_of_kind(e.spec_kind_index()) == e.spec_type(),
{
    reveal_strlit("bluetooth_generic");
    reveal_strlit("bluetooth_api");
    reveal_strlit("bluetooth_error");
    reveal_strlit("config_generic");
    reveal_strlit("config_error");
    reveal_strlit("ui_generic");
    reveal_strlit("ui_error");
    reveal_strlit("system_generic");
    reveal_strlit("state_generic");
    reveal_strlit("device_generic");
    reveal_strlit("device_not_found");
    reveal_strlit("general");
    reveal_strlit("application");
    reveal_strlit("airpods");
    reveal_strlit("battery_monitor");
    reveal_strlit("battery_error");
    reveal_strlit("state");
    reveal_strlit("lifecycle");
    reveal_strlit("file_io");
    reveal_strlit("json");
    reveal_strlit("path");
    reveal_strlit("file_not_found");
    reveal_strlit("permission");
    reveal_strlit("validation");
    reveal_strlit("parse");
    reveal_strlit("timeout");
    reveal_strlit("context");
    reveal_strlit("invalid_data");
    // Any two names differ in length or, where the lengths agree, in one character.
    assert("bluetooth_generic"@.len() == 17);
    assert("bluetooth_api"@.len() == 13);
    assert("bluetooth_error"@.len() == 15);
    assert("config_generic"@.len() == 14);
    assert("config_error"@.len() == 12);
    assert("ui_generic"@.len() == 10);
    assert("ui_error"@.len() == 8);
    assert("system_generic"@.len() == 14);
    assert("state_generic"@.len() == 13);
    assert("device_generic"@.len() == 14);
    assert("device_not_found"@.len() == 16);
    assert("general"@.len() == 7);
    assert("application"@.len() == 11);
    assert("airpods"@.len() == 7);
    assert("battery_monitor"@.len() == 15);
    assert("battery_error"@.len() == 13);
    assert("state"@.len() == 5);
    assert("lifecycle"@.len() == 9);
    assert("file_io"@.len() == 7);
    assert("json"@.len() == 4);
    assert("path"@.len() == 4);
    assert("file_not_found"@.len() == 14);
    assert("permission"@.len() == 10);
    assert("validation"@.len() == 10);
    assert("parse"@.len() == 5);
    assert("timeout"@.len() == 7);
    assert("context"@.len() == 7);
    assert("invalid_data"@.len() == 12);
    assert("bluetooth_api"@[0] == 'b');
    assert("state_generic"@[0] == 's');
    assert("config_generic"@[0] == 'c');
    assert("system_generic"@[0] == 's');
    assert("device_generic"@[0] == 'd');
    assert("file_not_found"@[0] == 'f');
    assert("config_error"@[0] == 'c');
    assert("invalid_data"@[0] == 'i');
    assert("ui_generic"@[0] == 'u');
    assert("validation"@[0] == 'v');
    assert("general"@[0] == 'g');
    assert("timeout"@[0] == 't');
    assert("airpods"@[0] == 'a');
    assert("file_io"@[0] == 'f');
    assert("context"@[0] == 'c');
    assert("battery_monitor"@[1] == 'a');
    assert("bluetooth_error"@[1] == 'l');
    assert("battery_error"@[1] == 'a');
    assert("bluetooth_api"@[1] == 'l');
    assert("battery_error"@[0] == 'b');
    assert("json"@[0] == 'j');
    assert("path"@[0] == 'p');
    assert("permission"@[0] == 'p');
    assert("parse"@[0] == 'p');
    assert("state"@[0] == 's');
    match e {
        RustPodsError::Bluetooth(_) => {},
        RustPodsError::BluetoothApiError(_) => {},
        RustPodsError::BluetoothError(_) => {},
        RustPodsError::Config(_) => {},
        RustPodsError::ConfigError(_) => {},
        RustPodsError::Ui(..) => {},
        RustPodsError::UiError => {},
        RustPodsError::System(..) => {},
        RustPodsError::State(_) => {},
        RustPodsError::Device(_) => {},
        RustPodsError::DeviceNotFound => {},
        RustPodsError::General(_) => {},
        RustPodsError::Application(_) => {},
        RustPodsError::AirPods(_) => {},
        RustPodsError::BatteryMonitor(_) => {},
        RustPodsError::BatteryMonitorError(_) => {},
        RustPodsError::StatePersistence(_) => {},
        RustPodsError::Lifecycle(_) => {},
        RustPodsError::IoError(_) => {},
        RustPodsError::ParseError(_) => {},
        RustPodsError::Path(_) => {},
        RustPodsError::FileNotFound(_) => {},
        RustPodsError::PermissionDenied(_) => {},
        RustPodsError::Validation(_) => {},
        RustPodsError::Parse(_) => {},
        RustPodsError::Timeout(_) => {},
        RustPodsError::Context { .. } => {},
        RustPodsError::InvalidData(_) => {},
    }
}


} // verus!
