//! What the bundled scanner programs report: AirPods with their battery
//! level, and the paired Bluetooth devices; and the errors for runs of those
//! programs.

use vstd::prelude::*;

use crate::text::concat2;

verus! {

/// An AirPods device with its battery level, as the BLE scanner reports it
#[derive(Debug, Clone)]
pub struct AirPodsBatteryInfo {
    pub name: String,
    pub address: String,
    pub battery: u8,
}

/// A paired Bluetooth device, as the paired-device scanner reports it
#[derive(Debug, Clone)]
pub struct PairedBluetoothDevice {
    pub name: String,
    pub address: String,
    pub paired: bool,
    pub connected: bool,
    pub device_type: Option<String>,
}

/// The error for a scanner program that is not where it is expected.
pub fn missing_program_error(what: &str, path: &str) -> (e: String)
    ensures
        e@ == "Bundled "@ + what@ + " not found: "@ + path@,
{
    let mut e = concat2("Bundled ", what);
    e.append(" not found: ");
    e.append(path);
    e
}

/// The error for a scanner program that ran and failed, with its error output.
pub fn failed_program_error(what: &str, stderr: &str) -> (e: String)
    ensures
        e@ == what@ + " .exe failed: "@ + stderr@,
{
    let mut e = concat2(what, " .exe failed: ");
    e.append(stderr);
    e
}

} // verus!
