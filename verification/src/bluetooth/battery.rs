//! Battery status of an AirPods device with the time of its last update.

use std::time::{Duration, Instant};
use vstd::prelude::*;
use vstd::string::StringExecFns;

use std::collections::HashMap;

use crate::airpods::detector::APPLE_COMPANY_ID;
use crate::airpods::{
    parse_airpods_data, spec_decoded_battery, spec_has_battery_data, spec_too_short_message,
    AirPodsBattery, AirPodsChargingState, MIN_BATTERY_DATA_LEN,
};
use crate::error::{AirPodsError, BluetoothError};
use crate::text::concat2;
use crate::text::{decimal_chars, decimal_string};
use crate::time::{duration_as_nanos, duration_nanos, instant_elapsed, instant_now};

verus! {

/// Battery status information for AirPods devices
#[derive(Debug, Clone, PartialEq)]
pub struct AirPodsBatteryStatus {
    /// Battery levels for the AirPods
    pub battery: AirPodsBattery,
    /// Timestamp of the last update
    pub last_updated: Instant,
}

/// The text of an optional battery level.
pub open spec fn level_text(level: Option<u8>) -> Seq<char> {
    match level {
        Some(v) => decimal_chars(v as nat),
        None => "Unknown"@,
    }
}

impl AirPodsChargingState {
    /// The name of the state, as `{:?}` writes it.
    pub open spec fn spec_name(self) -> Seq<char> {
        match self {
            AirPodsChargingState::NotCharging => "NotCharging"@,
            AirPodsChargingState::LeftCharging => "LeftCharging"@,
            AirPodsChargingState::RightCharging => "RightCharging"@,
            AirPodsChargingState::CaseCharging => "CaseCharging"@,
            AirPodsChargingState::BothBudsCharging => "BothBudsCharging"@,
        }
    }

    /// The name of the state, as `{:?}` writes it.
    pub fn name(&self) -> (s: &'static str)
        ensures
            s@ == self.spec_name(),
    {
        match self {
            AirPodsChargingState::NotCharging => "NotCharging",
            AirPodsChargingState::LeftCharging => "LeftCharging",
            AirPodsChargingState::RightCharging => "RightCharging",
            AirPodsChargingState::CaseCharging => "CaseCharging",
            AirPodsChargingState::BothBudsCharging => "BothBudsCharging",
        }
    }
}

/// The text of an optional charging state.
pub open spec fn charging_text(c: Option<AirPodsChargingState>) -> Seq<char> {
    match c {
        Some(s) => s.spec_name(),
        None => "Unknown"@,
    }
}

/// The one-line summary of a battery reading.
pub open spec fn spec_status_text(b: AirPodsBattery) -> Seq<char> {
    "Left: "@ + level_text(b.left) + "%, Right: "@ + level_text(b.right) + "%, Case: "@
        + level_text(b.case) + "%, Charging: "@ + charging_text(b.charging)
}

fn append_level(s: &mut String, level: Option<u8>)
    ensures
        final(s)@ == old(s)@ + level_text(level),
{
    match level {
        Some(v) => {
            let t = decimal_string(v as u64);
            s.append(t.as_str());
        },
        None => s.append("Unknown"),
    }
}

/// Whether a duration is strictly longer than another.
pub fn duration_exceeds(elapsed: &Duration, limit: &Duration) -> (r: bool)
    ensures
        r == (duration_nanos(*elapsed) > duration_nanos(*limit)),
{
    duration_as_nanos(elapsed) > duration_as_nanos(limit)
}

impl AirPodsBatteryStatus {
    /// Create a new battery status with the given battery information, updated now
    pub fn new(battery: AirPodsBattery) -> (s: Self)
        ensures
            s.battery == battery,
    {
        AirPodsBatteryStatus { battery, last_updated: instant_now() }
    }

    /// Update the battery status with new values, updated now
    pub fn update(&mut self, battery: AirPodsBattery)
        ensures
            final(self).battery == battery,
    {
        self.battery = battery;
        self.last_updated = instant_now();
    }

    /// Some level is known.
    pub open spec fn spec_has_battery_info(self) -> bool {
        self.battery.left is Some || self.battery.right is Some || self.battery.case is Some
    }

    /// Check if the status has any battery information
    pub fn has_battery_info(&self) -> (r: bool)
        ensures
            r == self.spec_has_battery_info(),
    {
        self.battery.left.is_some() || self.battery.right.is_some() || self.battery.case.is_some()
    }

    /// Check if the status is stale (older than the given duration). The age
    /// is read from the clock, so only the comparison is stated in
    /// `duration_exceeds`.
    pub fn is_stale(&self, duration: Duration) -> bool {
        let elapsed = instant_elapsed(&self.last_updated);
        duration_exceeds(&elapsed, &duration)
    }

    /// The one-line summary of the status (its display text).
    pub fn to_text(&self) -> (s: String)
        ensures
            s@ == spec_status_text(self.battery),
    {
        let mut s = String::from_str("Left: ");
        append_level(&mut s, self.battery.left);
        s.append("%, Right: ");
        append_level(&mut s, self.battery.right);
        s.append("%, Case: ");
        append_level(&mut s, self.battery.case);
        s.append("%, Charging: ");
        match self.battery.charging {
            Some(state) => s.append(state.name()),
            None => s.append("Unknown"),
        }
        s
    }
}

impl Default for AirPodsBatteryStatus {
    fn default() -> (s: Self)
        ensures
            s.battery == AirPodsBattery::spec_unknown(),
    {
        AirPodsBatteryStatus { battery: AirPodsBattery::default(), last_updated: instant_now() }
    }
}

/// The text of the error that decoding the battery section of Apple's data
/// fails with.
pub open spec fn spec_parse_failure_text(data: Seq<u8>) -> Seq<char> {
    if data.len() < MIN_BATTERY_DATA_LEN {
        "Invalid data: "@ + spec_too_short_message(data.len())
    } else {
        "Failed to parse AirPods data: "@ + "No valid battery data found in manufacturer data"@
    }
}

/// The battery reading in a device's manufacturer data: Apple's data must be
/// present and decode; otherwise the error says why.
pub fn battery_from_manufacturer_data(manufacturer_data: &HashMap<u16, Vec<u8>>) -> (r: Result<
    AirPodsBattery,
    BluetoothError,
>)
    ensures
        !manufacturer_data@.contains_key(APPLE_COMPANY_ID) ==> (r matches Err(
            BluetoothError::Other(m),
        ) && m@ == "No Apple manufacturer data found"@),
        manufacturer_data@.contains_key(APPLE_COMPANY_ID) ==> match r {
            Ok(b) => spec_has_battery_data(manufacturer_data@[APPLE_COMPANY_ID]@) && b
                == spec_decoded_battery(manufacturer_data@[APPLE_COMPANY_ID]@),
            Err(e) => !spec_has_battery_data(manufacturer_data@[APPLE_COMPANY_ID]@) && (e matches BluetoothError::Other(m)
                && m@ == "Failed to parse AirPods battery data: "@ + spec_parse_failure_text(
                manufacturer_data@[APPLE_COMPANY_ID]@,
            )),
        },
{
    broadcast use vstd::std_specs::hash::group_hash_axioms;
    let apple_data = match manufacturer_data.get(&APPLE_COMPANY_ID) {
        Some(data) => data,
        None => {
            return Err(BluetoothError::Other(String::from_str("No Apple manufacturer data found")));
        },
    };
    match parse_airpods_data(apple_data.as_slice()) {
        Ok(battery) => Ok(battery),
        Err(err) => {
            let t = err.to_text();
            Err(BluetoothError::Other(concat2("Failed to parse AirPods battery data: ", t.as_str())))
        },
    }
}

/// The battery status after reading a device: the reading when there is
/// one, otherwise the status with nothing known.
pub fn status_from_reading(reading: Result<AirPodsBattery, BluetoothError>) -> (s: AirPodsBatteryStatus)
    ensures
        match reading {
            Ok(b) => s.battery == b,
            Err(_) => s.battery == AirPodsBattery::spec_unknown(),
        },
{
    match reading {
        Ok(battery) => AirPodsBatteryStatus::new(battery),
        Err(_) => AirPodsBatteryStatus::default(),
    }
}

} // verus!
