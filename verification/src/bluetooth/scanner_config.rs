//! Settings of a scanning session.

use std::time::Duration;
use vstd::prelude::*;

use crate::time::{duration_from_secs, duration_nanos, nanos_per_sec};

verus! {

/// Configuration for the Bluetooth scanner
#[derive(Debug, Clone)]
pub struct ScanConfig {
    /// Duration of each scan
    pub scan_duration: Duration,
    /// Interval between scans
    pub interval_between_scans: Duration,
    /// Maximum number of scan cycles before auto-stop; None means indefinite scanning
    pub max_scan_cycles: Option<usize>,
    /// Whether to automatically stop scanning after the first cycle
    pub auto_stop_scan: bool,
    /// Minimum RSSI (signal strength) filter; devices with lower RSSI will be ignored
    pub min_rssi: Option<i16>,
    /// Timeout after which inactive devices are removed
    pub device_inactive_timeout: Option<Duration>,
    /// Whether to continue scanning in a loop
    pub continuous: bool,
}

/// A configuration whose two durations are the given numbers of seconds.
pub open spec fn spec_scan_secs(c: ScanConfig, scan: nat, interval: nat) -> bool {
    &&& duration_nanos(c.scan_duration) == scan * nanos_per_sec()
    &&& duration_nanos(c.interval_between_scans) == interval * nanos_per_sec()
}

impl ScanConfig {
    /// Create a new scan configuration with default values: 10 s scans every 20 s,
    /// stopping automatically.
    pub fn new() -> (c: Self)
        ensures
            spec_scan_secs(c, 10, 20),
            c.auto_stop_scan,
            c.max_scan_cycles is None,
            c.device_inactive_timeout is None,
            !c.continuous,
            c.min_rssi is None,
    {
        ScanConfig {
            scan_duration: duration_from_secs(10),
            interval_between_scans: duration_from_secs(20),
            auto_stop_scan: true,
            max_scan_cycles: None,
            device_inactive_timeout: None,
            continuous: false,
            min_rssi: None,
        }
    }

    /// Create a configuration for continuous scanning with minimal delays
    pub fn continuous() -> (c: Self)
        ensures
            spec_scan_secs(c, 5, 2),
            c.auto_stop_scan,
            c.max_scan_cycles is None,
            c.device_inactive_timeout is None,
            c.continuous,
            c.min_rssi is None,
    {
        ScanConfig {
            scan_duration: duration_from_secs(5),
            interval_between_scans: duration_from_secs(2),
            auto_stop_scan: true,
            max_scan_cycles: None,
            device_inactive_timeout: None,
            continuous: true,
            min_rssi: None,
        }
    }

    /// Create a configuration for power-efficient scanning
    pub fn power_efficient() -> (c: Self)
        ensures
            spec_scan_secs(c, 3, 60),
            c.auto_stop_scan,
            c.max_scan_cycles is None,
            c.device_inactive_timeout is None,
            !c.continuous,
            c.min_rssi == Some(-80i16),
    {
        ScanConfig {
            scan_duration: duration_from_secs(3),
            interval_between_scans: duration_from_secs(60),
            auto_stop_scan: true,
            max_scan_cycles: None,
            device_inactive_timeout: None,
            continuous: false,
            min_rssi: Some(-80),
        }
    }

    /// Create a configuration optimized for finding AirPods quickly
    pub fn airpods_optimized() -> (c: Self)
        ensures
            spec_scan_secs(c, 5, 10),
            c.auto_stop_scan,
            c.max_scan_cycles is None,
            c.device_inactive_timeout is None,
            !c.continuous,
            c.min_rssi == Some(-70i16),
    {
        ScanConfig {
            scan_duration: duration_from_secs(5),
            interval_between_scans: duration_from_secs(10),
            auto_stop_scan: true,
            max_scan_cycles: None,
            device_inactive_timeout: None,
            continuous: false,
            min_rssi: Some(-70),
        }
    }

    /// Create a configuration for a one-time scan
    pub fn one_time_scan(duration: Duration) -> (c: Self)
        ensures
            c.scan_duration == duration,
            duration_nanos(c.interval_between_scans) == 0,
            c.auto_stop_scan,
            c.max_scan_cycles == Some(1usize),
            c.device_inactive_timeout is None,
            !c.continuous,
            c.min_rssi is None,
    {
        ScanConfig {
            scan_duration: duration,
            interval_between_scans: duration_from_secs(0),
            auto_stop_scan: true,
            max_scan_cycles: Some(1),
            device_inactive_timeout: None,
            continuous: false,
            min_rssi: None,
        }
    }

    /// Set the scan duration
    pub fn with_scan_duration(self, duration: Duration) -> (c: Self)
        ensures
            c == (ScanConfig { scan_duration: duration, ..self }),
    {
        ScanConfig { scan_duration: duration, ..self }
    }

    /// Set the interval between scans
    pub fn with_interval(self, interval: Duration) -> (c: Self)
        ensures
            c == (ScanConfig { interval_between_scans: interval, ..self }),
    {
        ScanConfig { interval_between_scans: interval, ..self }
    }

    /// Set whether to automatically stop scanning
    pub fn with_auto_stop(self, auto_stop: bool) -> (c: Self)
        ensures
            c == (ScanConfig { auto_stop_scan: auto_stop, ..self }),
    {
        ScanConfig { auto_stop_scan: auto_stop, ..self }
    }

    /// Set the maximum number of scan cycles
    pub fn with_max_cycles(self, max_cycles: Option<usize>) -> (c: Self)
        ensures
            c == (ScanConfig { max_scan_cycles: max_cycles, ..self }),
    {
        ScanConfig { max_scan_cycles: max_cycles, ..self }
    }

    /// Set the device inactive timeout
    pub fn with_device_inactive_timeout(self, timeout: Option<Duration>) -> (c: Self)
        ensures
            c == (ScanConfig { device_inactive_timeout: timeout, ..self }),
    {
        ScanConfig { device_inactive_timeout: timeout, ..self }
    }

    /// Set whether to continue scanning in a loop
    pub fn with_continuous(self, continuous: bool) -> (c: Self)
        ensures
            c == (ScanConfig { continuous, ..self }),
    {
        ScanConfig { continuous, ..self }
    }

    /// Set the minimum signal strength
    pub fn with_min_rssi(self, min_rssi: Option<i16>) -> (c: Self)
        ensures
            c == (ScanConfig { min_rssi, ..self }),
    {
        ScanConfig { min_rssi, ..self }
    }
}

impl Default for ScanConfig {
    fn default() -> (c: Self)
        ensures
            spec_scan_secs(c, 10, 20),
            c.auto_stop_scan,
            c.max_scan_cycles is None,
            c.device_inactive_timeout is None,
            !c.continuous,
            c.min_rssi is None,
    {
        ScanConfig::new()
    }
}

} // verus!
