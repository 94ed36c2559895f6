//! BLE devices, scanning settings, battery monitoring and Bluetooth errors.

pub mod address;
pub mod adapter;
pub mod airpods_bridge;
pub mod battery;
pub mod battery_monitor;
pub mod cli_scanner;
pub mod events;
pub mod filter;
pub mod peripheral;
pub mod scanner;
pub mod scanner_config;

use vstd::prelude::*;

use crate::error::{BluetoothError, RecoveryAction};
use crate::text::{concat2};

verus! {

/// Entry point of Bluetooth management.
pub struct BluetoothManager;

/// Marker for Bluetooth devices.
pub trait BluetoothDevice {}

/// The error with the recovery action set where the kind of error carries one
/// (adapter refresh, availability and scan failures; a refresh failure also
/// restarts its retry count); other errors are unchanged.
pub open spec fn spec_with_recovery(e: BluetoothError, recovery: RecoveryAction) -> BluetoothError {
    match e {
        BluetoothError::AdapterRefreshFailed { error, .. } => BluetoothError::AdapterRefreshFailed {
            error,
            recovery,
            retries: 0,
        },
        BluetoothError::AdapterNotAvailable { reason, .. } => BluetoothError::AdapterNotAvailable {
            reason,
            recovery,
        },
        BluetoothError::AdapterScanFailed { error, .. } => BluetoothError::AdapterScanFailed {
            error,
            recovery,
        },
        _ => e,
    }
}

/// The recovery action recommended for each kind of Bluetooth error.
pub open spec fn spec_default_recovery(e: BluetoothError) -> RecoveryAction {
    match e {
        BluetoothError::ConnectionFailed(_) => RecoveryAction::Retry,
        BluetoothError::DeviceNotFound(_) => RecoveryAction::Retry,
        BluetoothError::ScanFailed(_) => RecoveryAction::RestartApplication,
        BluetoothError::NoAdapter => RecoveryAction::SelectDifferentAdapter,
        BluetoothError::Timeout(_) => RecoveryAction::Retry,
        _ => RecoveryAction::NotifyUser,
    }
}

/// Create a BluetoothError with recovery action
pub fn bluetooth_error_with_recovery(error_type: BluetoothError, recovery: RecoveryAction) -> (e:
    BluetoothError)
    ensures
        e == spec_with_recovery(error_type, recovery),
{
    match error_type {
        BluetoothError::AdapterRefreshFailed { error, .. } => BluetoothError::AdapterRefreshFailed {
            error,
            recovery,
            retries: 0,
        },
        BluetoothError::AdapterNotAvailable { reason, .. } => BluetoothError::AdapterNotAvailable {
            reason,
            recovery,
        },
        BluetoothError::AdapterScanFailed { error, .. } => BluetoothError::AdapterScanFailed {
            error,
            recovery,
        },
        other => other,
    }
}

/// The recovery action recommended for an error.
pub fn default_recovery(e: &BluetoothError) -> (r: RecoveryAction)
    ensures
        r == spec_default_recovery(*e),
{
    match e {
        BluetoothError::ConnectionFailed(_) => RecoveryAction::Retry,
        BluetoothError::DeviceNotFound(_) => RecoveryAction::Retry,
        BluetoothError::ScanFailed(_) => RecoveryAction::RestartApplication,
        BluetoothError::NoAdapter => RecoveryAction::SelectDifferentAdapter,
        BluetoothError::Timeout(_) => RecoveryAction::Retry,
        _ => RecoveryAction::NotifyUser,
    }
}

/// Enhanced error handling for Bluetooth operations: an error gets the
/// provided recovery action, or the one recommended for its kind.
pub fn handle_bluetooth_error<T>(
    result: Result<T, BluetoothError>,
    component: &str,
    operation: &str,
    recovery: Option<RecoveryAction>,
) -> (r: Result<T, BluetoothError>)
    ensures
        match result {
            Ok(v) => r == Ok::<T, BluetoothError>(v),
            Err(e) => r == Err::<T, BluetoothError>(
                spec_with_recovery(
                    e,
                    match recovery {
                        Some(a) => a,
                        None => spec_default_recovery(e),
                    },
                ),
            ),
        },
{
    match result {
        Ok(v) => Ok(v),
        Err(err) => {
            let recovery_action = match recovery {
                Some(a) => a,
                None => default_recovery(&err),
            };
            Err(bluetooth_error_with_recovery(err, recovery_action))
        },
    }
}

/// Create a BluetoothError from the message of another error
pub fn create_bluetooth_error(message: String, component: &str, operation: &str) -> (e:
    BluetoothError)
    ensures
        e == BluetoothError::Other(message),
{
    BluetoothError::Other(message)
}

/// The kinds of error that the Bluetooth platform layer reports.
#[derive(Debug, Clone)]
pub enum PlatformErrorKind {
    /// Permission denied by the platform
    PermissionDenied,
    /// The device was not found
    DeviceNotFound,
    /// The device is not connected
    NotConnected,
    /// An address could not be parsed
    InvalidBDAddr,
    /// A UUID could not be parsed
    Uuid,
    /// The operation is not supported
    NotSupported,
    /// Another error, with its message
    Other(String),
    /// An error of a kind not listed here
    Unknown,
}

/// The Bluetooth error that a platform error becomes, for the given operation.
pub open spec fn spec_convert_platform_error(kind: PlatformErrorKind, operation: Seq<char>, e: BluetoothError) -> bool {
    match kind {
        PlatformErrorKind::PermissionDenied => e matches BluetoothError::PermissionDenied(s) && s@
            == "Permission denied during "@ + operation,
        PlatformErrorKind::DeviceNotFound => e matches BluetoothError::DeviceNotFound(s) && s@
            == "Device not found during "@ + operation,
        PlatformErrorKind::NotConnected => e matches BluetoothError::ConnectionFailed(s) && s@
            == "Device not connected during "@ + operation,
        PlatformErrorKind::InvalidBDAddr => e matches BluetoothError::InvalidData(s) && s@
            == "Invalid Bluetooth address format"@,
        PlatformErrorKind::Uuid => e matches BluetoothError::InvalidData(s) && s@
            == "Invalid UUID format"@,
        PlatformErrorKind::NotSupported => e matches BluetoothError::Other(s) && s@
            == "Operation not supported: "@ + operation,
        PlatformErrorKind::Other(msg) => e matches BluetoothError::Other(s) && s@ == msg@,
        PlatformErrorKind::Unknown => e matches BluetoothError::Other(s) && s@
            == "Unknown Bluetooth error during "@ + operation,
    }
}

/// Convert a platform Bluetooth error to a BluetoothError
pub fn convert_btleplug_error(error: PlatformErrorKind, component: &str, operation: &str) -> (e:
    BluetoothError)
    ensures
        spec_convert_platform_error(error, operation@, e),
{
    match error {
        PlatformErrorKind::PermissionDenied => BluetoothError::PermissionDenied(
            concat2("Permission denied during ", operation),
        ),
        PlatformErrorKind::DeviceNotFound => BluetoothError::DeviceNotFound(
            concat2("Device not found during ", operation),
        ),
        PlatformErrorKind::NotConnected => BluetoothError::ConnectionFailed(
            concat2("Device not connected during ", operation),
        ),
        PlatformErrorKind::InvalidBDAddr => BluetoothError::InvalidData(
            "Invalid Bluetooth address format".to_owned(),
        ),
        PlatformErrorKind::Uuid => BluetoothError::InvalidData("Invalid UUID format".to_owned()),
        PlatformErrorKind::NotSupported => BluetoothError::Other(
            concat2("Operation not supported: ", operation),
        ),
        PlatformErrorKind::Other(msg) => BluetoothError::Other(msg),
        PlatformErrorKind::Unknown => BluetoothError::Other(
            concat2("Unknown Bluetooth error during ", operation),
        ),
    }
}

} // verus!
