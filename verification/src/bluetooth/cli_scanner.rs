//! Battery readings from the command-line AirPods scanner: its settings, the
//! conversion of its reports, and the decisions of its polling loop.

use std::path::PathBuf;
use std::time::{Duration, Instant};
use vstd::prelude::*;

use crate::airpods::detector::DetectedAirPods;
use crate::airpods::{AirPodsBattery, AirPodsChargingState, AirPodsType};
use crate::bluetooth::address::BDAddr;
use crate::bluetooth::scanner::opt_chars;
use crate::config::app_config::{path_from_str, AppConfig, LogLevel};
use crate::error::BluetoothError;
use crate::text::{concat2, str_eq};
use crate::time::{
    duration_as_nanos, duration_as_secs, duration_from_secs, duration_nanos, instant_now,
    nanos_per_sec,
};
use vstd::string::StringExecFns;

verus! {

/// Default polling interval in seconds
pub const DEFAULT_POLL_INTERVAL_SECS: u64 = 30;

/// Fast polling interval in seconds, used when changes are detected
pub const FAST_POLL_INTERVAL_SECS: u64 = 10;

/// Minimum polling interval in seconds, to prevent resource exhaustion
pub const MIN_POLL_INTERVAL_SECS: u64 = 5;

/// Maximum polling interval in seconds, for battery conservation
pub const MAX_POLL_INTERVAL_SECS: u64 = 120;

/// Number of fast polls before returning to the normal interval
pub const FAST_POLL_COUNT: u32 = 3;

/// Scanner run time in seconds beyond which a scan counts as timed out
pub const CLI_TIMEOUT_SECS: u64 = 10;

/// Battery level change (percentage points) that counts as significant
pub const SIGNIFICANT_LEVEL_CHANGE: i32 = 10;

/// Largest exponent of the back-off factor after failed scans
pub const MAX_BACKOFF_EXPONENT: u32 = 4;

/// Consecutive failed scans after which polling stops, by default
pub const DEFAULT_MAX_ERRORS: u32 = 5;

/// The scanner's report of one scan
#[derive(Debug, Clone)]
pub struct CliScannerResult {
    pub scanner_version: String,
    pub scan_timestamp: String,
    pub total_devices: i32,
    pub devices: Vec<CliDeviceInfo>,
    pub airpods_count: i32,
    pub status: String,
    pub note: String,
}

/// One device of a scan report
#[derive(Debug, Clone)]
pub struct CliDeviceInfo {
    pub device_id: String,
    pub address: String,
    pub rssi: i32,
    pub manufacturer_data_hex: String,
    pub airpods_data: Option<CliAirPodsData>,
}

/// The AirPods state that the scanner reports for a device (battery levels
/// are -1 when unknown)
#[derive(Debug, Clone)]
pub struct CliAirPodsData {
    pub model: String,
    pub model_id: String,
    pub left_battery: i32,
    pub right_battery: i32,
    pub case_battery: i32,
    pub left_charging: bool,
    pub right_charging: bool,
    pub case_charging: bool,
    pub left_in_ear: bool,
    pub right_in_ear: bool,
    pub both_in_case: bool,
    pub lid_open: bool,
    pub broadcasting_ear: String,
}

/// What the library reads of a scanner report for a device.
pub struct CliAirPodsModel {
    pub model: Seq<char>,
    pub model_id: Seq<char>,
    pub left_battery: i32,
    pub right_battery: i32,
    pub case_battery: i32,
    pub left_charging: bool,
    pub right_charging: bool,
    pub case_charging: bool,
    pub left_in_ear: bool,
    pub right_in_ear: bool,
    pub both_in_case: bool,
    pub lid_open: bool,
    pub broadcasting_ear: Seq<char>,
}

impl View for CliAirPodsData {
    type V = CliAirPodsModel;

    open spec fn view(&self) -> CliAirPodsModel {
        CliAirPodsModel {
            model: self.model@,
            model_id: self.model_id@,
            left_battery: self.left_battery,
            right_battery: self.right_battery,
            case_battery: self.case_battery,
            left_charging: self.left_charging,
            right_charging: self.right_charging,
            case_charging: self.case_charging,
            left_in_ear: self.left_in_ear,
            right_in_ear: self.right_in_ear,
            both_in_case: self.both_in_case,
            lid_open: self.lid_open,
            broadcasting_ear: self.broadcasting_ear@,
        }
    }
}

impl CliAirPodsData {
    /// A copy of the report.
    pub fn duplicate(&self) -> (c: Self)
        ensures
            c@ == self@,
    {
        CliAirPodsData {
            model: self.model.clone(),
            model_id: self.model_id.clone(),
            left_battery: self.left_battery,
            right_battery: self.right_battery,
            case_battery: self.case_battery,
            left_charging: self.left_charging,
            right_charging: self.right_charging,
            case_charging: self.case_charging,
            left_in_ear: self.left_in_ear,
            right_in_ear: self.right_in_ear,
            both_in_case: self.both_in_case,
            lid_open: self.lid_open,
            broadcasting_ear: self.broadcasting_ear.clone(),
        }
    }
}

/// The view of an optional report.
pub open spec fn opt_cli(d: Option<CliAirPodsData>) -> Option<CliAirPodsModel> {
    match d {
        Some(x) => Some(x@),
        None => None,
    }
}

/// CLI scanner configuration options
#[derive(Debug, Clone)]
pub struct CliScannerConfig {
    /// Path to the CLI scanner executable
    pub scanner_path: PathBuf,
    /// Base polling interval
    pub poll_interval: Duration,
    /// Whether to use adaptive polling
    pub adaptive_polling: bool,
    /// Maximum number of consecutive errors before stopping
    pub max_errors: u32,
    /// Whether to enable detailed logging
    pub verbose_logging: bool,
}

impl Default for CliScannerConfig {
    fn default() -> (c: Self)
        ensures
            duration_nanos(c.poll_interval) == DEFAULT_POLL_INTERVAL_SECS * nanos_per_sec(),
            c.adaptive_polling,
            c.max_errors == DEFAULT_MAX_ERRORS,
            !c.verbose_logging,
    {
        CliScannerConfig {
            scanner_path: path_from_str(
                "scripts/airpods_battery_cli/build/Release/airpods_battery_cli_v5.exe",
            ),
            poll_interval: duration_from_secs(DEFAULT_POLL_INTERVAL_SECS),
            adaptive_polling: true,
            max_errors: DEFAULT_MAX_ERRORS,
            verbose_logging: false,
        }
    }
}

impl CliScannerConfig {
    /// Create configuration from app config, with the scanner found at
    /// `scanner_path`: the battery refresh interval (in whole seconds, at
    /// least the minimum) becomes the poll interval, and debug or trace
    /// logging turns on detailed logging.
    pub fn from_app_config(config: &AppConfig, scanner_path: PathBuf) -> (c: Self)
        ensures
            c.scanner_path == scanner_path,
            duration_nanos(c.poll_interval) == (if duration_nanos(
                config.bluetooth.battery_refresh_interval,
            ) / nanos_per_sec() >= MIN_POLL_INTERVAL_SECS {
                duration_nanos(config.bluetooth.battery_refresh_interval) / nanos_per_sec()
            } else {
                MIN_POLL_INTERVAL_SECS as nat
            }) * nanos_per_sec(),
            c.adaptive_polling == config.bluetooth.adaptive_polling,
            c.max_errors == DEFAULT_MAX_ERRORS,
            c.verbose_logging == (config.system.log_level == LogLevel::Debug
                || config.system.log_level == LogLevel::Trace),
    {
        let refresh = duration_as_secs(&config.bluetooth.battery_refresh_interval);
        let secs = if refresh >= MIN_POLL_INTERVAL_SECS {
            refresh
        } else {
            MIN_POLL_INTERVAL_SECS
        };
        CliScannerConfig {
            scanner_path,
            poll_interval: duration_from_secs(secs),
            adaptive_polling: config.bluetooth.adaptive_polling,
            max_errors: DEFAULT_MAX_ERRORS,
            verbose_logging: match config.system.log_level {
                LogLevel::Debug | LogLevel::Trace => true,
                _ => false,
            },
        }
    }
}

/// The model that the scanner's model name designates.
pub open spec fn spec_cli_model_type(model: Seq<char>) -> AirPodsType {
    if model == "AirPods 1"@ {
        AirPodsType::AirPods1
    } else if model == "AirPods 2"@ {
        AirPodsType::AirPods2
    } else if model == "AirPods 3"@ {
        AirPodsType::AirPods3
    } else if model == "AirPods Pro"@ {
        AirPodsType::AirPodsPro
    } else if model == "AirPods Pro 2"@ {
        AirPodsType::AirPodsPro2
    } else if model == "AirPods Max"@ {
        AirPodsType::AirPodsMax
    } else {
        AirPodsType::Unknown
    }
}

/// A reported level: none when negative, else the level as a byte.
pub open spec fn spec_cli_level(v: i32) -> Option<u8> {
    if v >= 0 {
        Some(v as u8)
    } else {
        None
    }
}

/// The charging state of a report; both buds take precedence over one bud,
/// and the buds over the case.
pub open spec fn spec_cli_charging(d: CliAirPodsModel) -> AirPodsChargingState {
    if d.left_charging && d.right_charging {
        AirPodsChargingState::BothBudsCharging
    } else if d.left_charging {
        AirPodsChargingState::LeftCharging
    } else if d.right_charging {
        AirPodsChargingState::RightCharging
    } else if d.case_charging {
        AirPodsChargingState::CaseCharging
    } else {
        AirPodsChargingState::NotCharging
    }
}

/// The battery reading of a report.
pub open spec fn spec_cli_battery(d: CliAirPodsModel) -> AirPodsBattery {
    AirPodsBattery {
        left: spec_cli_level(d.left_battery),
        right: spec_cli_level(d.right_battery),
        case: spec_cli_level(d.case_battery),
        charging: Some(spec_cli_charging(d)),
    }
}

/// The device that a report for `device_id` becomes.
pub open spec fn spec_converted(a: DetectedAirPods, device_id: Seq<char>, d: CliAirPodsModel) -> bool {
    &&& a.device_type == spec_cli_model_type(d.model)
    &&& a.battery == Some(spec_cli_battery(d))
    &&& opt_chars(a.name) == Some(d.model + " ("@ + device_id + ")"@)
    &&& a.rssi is None
    &&& !a.is_connected
    &&& a.address@ == seq![0u8, 0u8, 0u8, 0u8, 0u8, 0u8]
}

fn cli_model_type(model: &str) -> (t: AirPodsType)
    ensures
        t == spec_cli_model_type(model@),
{
    if str_eq(model, "AirPods 1") {
        AirPodsType::AirPods1
    } else if str_eq(model, "AirPods 2") {
        AirPodsType::AirPods2
    } else if str_eq(model, "AirPods 3") {
        AirPodsType::AirPods3
    } else if str_eq(model, "AirPods Pro") {
        AirPodsType::AirPodsPro
    } else if str_eq(model, "AirPods Pro 2") {
        AirPodsType::AirPodsPro2
    } else if str_eq(model, "AirPods Max") {
        AirPodsType::AirPodsMax
    } else {
        AirPodsType::Unknown
    }
}

fn cli_level(v: i32) -> (r: Option<u8>)
    ensures
        r == spec_cli_level(v),
{
    if v >= 0 {
        Some(v as u8)
    } else {
        None
    }
}

/// Convert a scanner report for `device_id` to a detected device, seen now.
pub fn convert_cli_data_to_airpods(device_id: String, cli_data: CliAirPodsData) -> (r: Result<
    DetectedAirPods,
    BluetoothError,
>)
    ensures
        r matches Ok(a) && spec_converted(a, device_id@, cli_data@),
{
    let airpods_type = cli_model_type(cli_data.model.as_str());
    let charging_state = if cli_data.left_charging && cli_data.right_charging {
        AirPodsChargingState::BothBudsCharging
    } else if cli_data.left_charging {
        AirPodsChargingState::LeftCharging
    } else if cli_data.right_charging {
        AirPodsChargingState::RightCharging
    } else if cli_data.case_charging {
        AirPodsChargingState::CaseCharging
    } else {
        AirPodsChargingState::NotCharging
    };
    let battery = AirPodsBattery {
        left: cli_level(cli_data.left_battery),
        right: cli_level(cli_data.right_battery),
        case: cli_level(cli_data.case_battery),
        charging: Some(charging_state),
    };
    let mut name = concat2(cli_data.model.as_str(), " (");
    name.append(device_id.as_str());
    name.append(")");
    let address = BDAddr::from([0u8, 0u8, 0u8, 0u8, 0u8, 0u8]);
    assert(address@ =~= seq![0u8, 0u8, 0u8, 0u8, 0u8, 0u8]);
    Ok(
        DetectedAirPods {
            address,
            name: Some(name),
            rssi: None,
            device_type: airpods_type,
            battery: Some(battery),
            last_seen: instant_now(),
            is_connected: false,
        },
    )
}

/// The reports of the devices that carry AirPods data, with their device ids.
pub open spec fn reported_airpods(devices: Seq<CliDeviceInfo>) -> Seq<(Seq<char>, CliAirPodsModel)>
    decreases devices.len(),
{
    if devices.len() == 0 {
        Seq::empty()
    } else {
        let rest = reported_airpods(devices.drop_last());
        match devices.last().airpods_data {
            Some(d) => rest.push((devices.last().device_id@, d@)),
            None => rest,
        }
    }
}

/// Convert a scan report to the detected devices it holds, in report order.
pub fn convert_scan_result(result: &CliScannerResult) -> (r: Result<
    Vec<DetectedAirPods>,
    BluetoothError,
>)
    ensures
        r matches Ok(v) && v@.len() == reported_airpods(result.devices@).len() && forall|k: int|
            0 <= k < v@.len() ==> spec_converted(
                #[trigger] v@[k],
                reported_airpods(result.devices@)[k].0,
                reported_airpods(result.devices@)[k].1,
            ),
{
    let mut list: Vec<DetectedAirPods> = Vec::new();
    for i in 0..result.devices.len()
        invariant
            list@.len() == reported_airpods(result.devices@.take(i as int)).len(),
            forall|k: int|
                0 <= k < list@.len() ==> spec_converted(
                    #[trigger] list@[k],
                    reported_airpods(result.devices@.take(i as int))[k].0,
                    reported_airpods(result.devices@.take(i as int))[k].1,
                ),
    {
        let ghost before = result.devices@.take(i as int);
        assert(result.devices@.take(i + 1).drop_last() =~= before);
        let device = &result.devices[i];
        match &device.airpods_data {
            Some(data) => {
                let converted = convert_cli_data_to_airpods(
                    device.device_id.clone(),
                    data.duplicate(),
                );
                match converted {
                    Ok(a) => {
                        list.push(a);
                    },
                    Err(e) => {
                        return Err(e);
                    },
                }
            },
            None => {},
        }
    }
    assert(result.devices@.take(result.devices.len() as int) =~= result.devices@);
    Ok(list)
}

/// Judge the run time of the scanner process: a run longer than the timeout
/// is an error carrying the run time.
pub fn check_scan_time(elapsed: Duration) -> (r: Result<(), BluetoothError>)
    ensures
        duration_nanos(elapsed) > CLI_TIMEOUT_SECS * nanos_per_sec() ==> (r matches Err(
            BluetoothError::Timeout(d),
        ) && d == elapsed),
        duration_nanos(elapsed) <= CLI_TIMEOUT_SECS * nanos_per_sec() ==> r is Ok,
{
    let limit = duration_from_secs(CLI_TIMEOUT_SECS);
    if duration_as_nanos(&elapsed) > duration_as_nanos(&limit) {
        Err(BluetoothError::Timeout(elapsed))
    } else {
        Ok(())
    }
}

/// A level as the scanner reports it: the level, or -1 when unknown.
pub open spec fn spec_level_code(level: Option<u8>) -> i32 {
    match level {
        Some(b) => b as i32,
        None => -1i32,
    }
}

/// The report that a detected device amounts to, for comparison with the
/// next one (what a device does not carry is reported as unknown or false).
pub open spec fn spec_to_cli(a: DetectedAirPods) -> CliAirPodsModel {
    let battery = match a.battery {
        Some(b) => b,
        None => AirPodsBattery::spec_unknown(),
    };
    let charging = match battery.charging {
        Some(c) => c,
        None => AirPodsChargingState::NotCharging,
    };
    CliAirPodsModel {
        model: a.device_type.spec_debug_name(),
        model_id: Seq::empty(),
        left_battery: spec_level_code(battery.left),
        right_battery: spec_level_code(battery.right),
        case_battery: spec_level_code(battery.case),
        left_charging: charging.spec_left(),
        right_charging: charging.spec_right(),
        case_charging: charging.spec_case(),
        left_in_ear: false,
        right_in_ear: false,
        both_in_case: false,
        lid_open: false,
        broadcasting_ear: "unknown"@,
    }
}

fn level_code(level: Option<u8>) -> (v: i32)
    ensures
        v == spec_level_code(level),
{
    match level {
        Some(b) => b as i32,
        None => -1,
    }
}

/// Convert a detected device back to a scanner report for comparison
pub fn airpods_to_cli_data(airpods: &DetectedAirPods) -> (d: CliAirPodsData)
    ensures
        d@ == spec_to_cli(*airpods),
{
    let battery = match airpods.battery {
        Some(b) => b,
        None => AirPodsBattery::default(),
    };
    let charging = match battery.charging {
        Some(c) => c,
        None => AirPodsChargingState::NotCharging,
    };
    CliAirPodsData {
        model: String::from_str(airpods.device_type.debug_name()),
        model_id: String::new(),
        left_battery: level_code(battery.left),
        right_battery: level_code(battery.right),
        case_battery: level_code(battery.case),
        left_charging: charging.is_left_charging(),
        right_charging: charging.is_right_charging(),
        case_charging: charging.is_case_charging(),
        left_in_ear: false,
        right_in_ear: false,
        both_in_case: false,
        lid_open: false,
        broadcasting_ear: String::from_str("unknown"),
    }
}

/// The absolute value of an integer.
pub open spec fn abs(x: int) -> int {
    if x < 0 {
        -x
    } else {
        x
    }
}

fn abs_i32(x: i32) -> (r: i32)
    requires
        x > i32::MIN,
    ensures
        r == abs(x as int),
{
    if x < 0 {
        -x
    } else {
        x
    }
}

/// The difference of two reported levels can be taken in `i32`, with its
/// absolute value.
pub open spec fn level_difference_fits(a: i32, b: i32) -> bool {
    i32::MIN < a - b <= i32::MAX
}

/// Some level moved by the significant amount or more.
pub open spec fn spec_battery_changed(prev: CliAirPodsModel, curr: CliAirPodsModel) -> bool {
    abs(prev.left_battery - curr.left_battery) >= SIGNIFICANT_LEVEL_CHANGE || abs(
        prev.right_battery - curr.right_battery,
    ) >= SIGNIFICANT_LEVEL_CHANGE || abs(prev.case_battery - curr.case_battery)
        >= SIGNIFICANT_LEVEL_CHANGE
}

/// Some component started or stopped charging.
pub open spec fn spec_charging_changed(prev: CliAirPodsModel, curr: CliAirPodsModel) -> bool {
    prev.left_charging != curr.left_charging || prev.right_charging != curr.right_charging
        || prev.case_charging != curr.case_charging
}

/// An ear, case or lid state changed.
pub open spec fn spec_usage_changed(prev: CliAirPodsModel, curr: CliAirPodsModel) -> bool {
    prev.left_in_ear != curr.left_in_ear || prev.right_in_ear != curr.right_in_ear
        || prev.both_in_case != curr.both_in_case || prev.lid_open != curr.lid_open
}

/// The change between two reports warrants faster polling.
pub open spec fn spec_report_changed(prev: CliAirPodsModel, curr: CliAirPodsModel) -> bool {
    spec_battery_changed(prev, curr) || spec_charging_changed(prev, curr) || spec_usage_changed(
        prev,
        curr,
    )
}

/// Check for significant battery level changes (10 points or more)
pub fn significant_battery_change(prev: &CliAirPodsData, curr: &CliAirPodsData) -> (r: bool)
    requires
        level_difference_fits(prev.left_battery, curr.left_battery),
        level_difference_fits(prev.right_battery, curr.right_battery),
        level_difference_fits(prev.case_battery, curr.case_battery),
    ensures
        r == spec_battery_changed(prev@, curr@),
{
    let left_change = abs_i32(prev.left_battery - curr.left_battery);
    let right_change = abs_i32(prev.right_battery - curr.right_battery);
    let case_change = abs_i32(prev.case_battery - curr.case_battery);
    left_change >= SIGNIFICANT_LEVEL_CHANGE || right_change >= SIGNIFICANT_LEVEL_CHANGE
        || case_change >= SIGNIFICANT_LEVEL_CHANGE
}

/// Check for charging state changes
pub fn charging_state_change(prev: &CliAirPodsData, curr: &CliAirPodsData) -> (r: bool)
    ensures
        r == spec_charging_changed(prev@, curr@),
{
    prev.left_charging != curr.left_charging || prev.right_charging != curr.right_charging
        || prev.case_charging != curr.case_charging
}

/// Check for usage state changes (in-ear, case lid)
pub fn usage_state_change(prev: &CliAirPodsData, curr: &CliAirPodsData) -> (r: bool)
    ensures
        r == spec_usage_changed(prev@, curr@),
{
    prev.left_in_ear != curr.left_in_ear || prev.right_in_ear != curr.right_in_ear
        || prev.both_in_case != curr.both_in_case || prev.lid_open != curr.lid_open
}

/// Whether the scan result differs enough from the last report kept: there
/// is a last report, the scan found a device, and the change is significant.
pub open spec fn spec_change_detected(
    last: Option<CliAirPodsModel>,
    current: Seq<DetectedAirPods>,
) -> bool {
    match last {
        None => false,
        Some(prev) => current.len() > 0 && spec_report_changed(prev, spec_to_cli(current[0])),
    }
}

/// The report kept after a scan: that of the first device found, or the one
/// kept before when none was found.
pub open spec fn spec_next_report(
    last: Option<CliAirPodsModel>,
    current: Seq<DetectedAirPods>,
) -> Option<CliAirPodsModel> {
    if current.len() > 0 {
        Some(spec_to_cli(current[0]))
    } else {
        last
    }
}

/// Polling state of the scanner between scans
#[derive(Debug)]
pub struct ScannerState {
    pub current_interval: Duration,
    pub fast_polls_remaining: u32,
    pub last_scan_time: Option<Instant>,
    pub last_airpods_data: Option<CliAirPodsData>,
    pub consecutive_errors: u32,
    pub total_scans: u64,
    pub successful_scans: u64,
}

/// A reported level code lies in -1 ..= 255.
pub open spec fn level_code_ok(v: i32) -> bool {
    -1 <= v <= 255
}

impl ScannerState {
    /// The report kept holds level codes, as made from detected devices.
    pub open spec fn wf(self) -> bool {
        self.last_airpods_data matches Some(d) ==> (level_code_ok(d.left_battery)
            && level_code_ok(d.right_battery) && level_code_ok(d.case_battery))
    }
}

impl Default for ScannerState {
    fn default() -> (s: Self)
        ensures
            s.wf(),
            duration_nanos(s.current_interval) == DEFAULT_POLL_INTERVAL_SECS * nanos_per_sec(),
            s.fast_polls_remaining == 0,
            s.last_scan_time is None,
            s.last_airpods_data is None,
            s.consecutive_errors == 0,
            s.total_scans == 0,
            s.successful_scans == 0,
    {
        ScannerState {
            current_interval: duration_from_secs(DEFAULT_POLL_INTERVAL_SECS),
            fast_polls_remaining: 0,
            last_scan_time: None,
            last_airpods_data: None,
            consecutive_errors: 0,
            total_scans: 0,
            successful_scans: 0,
        }
    }
}

/// Detect significant changes that warrant faster polling, and keep the
/// report of the first device found for the next comparison.
pub fn detect_significant_changes(state: &mut ScannerState, current_airpods: &[DetectedAirPods]) -> (r:
    bool)
    requires
        old(state).wf(),
    ensures
        final(state).wf(),
        r == spec_change_detected(opt_cli(old(state).last_airpods_data), current_airpods@),
        opt_cli(final(state).last_airpods_data) == spec_next_report(
            opt_cli(old(state).last_airpods_data),
            current_airpods@,
        ),
        final(state).current_interval == old(state).current_interval,
        final(state).fast_polls_remaining == old(state).fast_polls_remaining,
        final(state).last_scan_time == old(state).last_scan_time,
        final(state).consecutive_errors == old(state).consecutive_errors,
        final(state).total_scans == old(state).total_scans,
        final(state).successful_scans == old(state).successful_scans,
{
    if current_airpods.len() == 0 {
        return false;
    }
    let current_cli_data = airpods_to_cli_data(&current_airpods[0]);
    let changed = match &state.last_airpods_data {
        None => false,
        Some(previous_data) => {
            let battery_change = significant_battery_change(previous_data, &current_cli_data);
            let charging_change = charging_state_change(previous_data, &current_cli_data);
            let usage_change = usage_state_change(previous_data, &current_cli_data);
            battery_change || charging_change || usage_change
        },
    };
    state.last_airpods_data = Some(current_cli_data);
    changed
}

/// What the polling loop does after a scan.
#[derive(Debug, Clone, Copy, PartialEq, Eq)]
pub enum PollStep {
    /// Report the result, then wait this long before the next scan.
    Wait(Duration),
    /// Report the error, then back off: the next interval is the poll
    /// interval times 1.5 to this power, at most the maximum interval.
    BackOff(u32),
    /// Too many consecutive errors: stop polling (the back-off exponent is
    /// still given, for the interval kept in the state).
    Stop(u32),
}

/// CLI scanner for AirPods battery monitoring: its settings and polling state
#[derive(Debug)]
pub struct CliScanner {
    /// Scanner settings
    pub config: CliScannerConfig,
    /// Polling state
    pub state: ScannerState,
}

impl CliScanner {
    /// Create a new CLI scanner
    pub fn new(config: CliScannerConfig) -> (s: Self)
        ensures
            s.config == config,
            s.state.wf(),
            duration_nanos(s.state.current_interval) == DEFAULT_POLL_INTERVAL_SECS
                * nanos_per_sec(),
            s.state.fast_polls_remaining == 0,
            s.state.last_scan_time is None,
            s.state.last_airpods_data is None,
            s.state.consecutive_errors == 0,
            s.state.total_scans == 0,
            s.state.successful_scans == 0,
    {
        CliScanner { config, state: ScannerState::default() }
    }

    /// Record the result of one scan and decide what the polling loop does
    /// next: after a success, adaptive polling switches to the fast interval
    /// for a few polls when the report changed significantly; after an
    /// error, the loop backs off, and stops once the consecutive errors reach
    /// the configured maximum.
    pub fn record_scan(&mut self, outcome: &Result<Vec<DetectedAirPods>, BluetoothError>) -> (step:
        PollStep)
        requires
            old(self).state.wf(),
            old(self).state.total_scans < u64::MAX,
            old(self).state.successful_scans < u64::MAX,
            old(self).state.consecutive_errors < u32::MAX,
        ensures
            final(self).state.wf(),
            final(self).config == old(self).config,
            final(self).state.total_scans == old(self).state.total_scans + 1,
            final(self).state.last_scan_time is Some,
            match outcome {
                Ok(list) => {
                    let fast = old(self).config.adaptive_polling && spec_change_detected(
                        opt_cli(old(self).state.last_airpods_data),
                        list@,
                    );
                    &&& final(self).state.consecutive_errors == 0
                    &&& final(self).state.successful_scans == old(self).state.successful_scans + 1
                    &&& opt_cli(final(self).state.last_airpods_data) == (if old(
                        self,
                    ).config.adaptive_polling {
                        spec_next_report(opt_cli(old(self).state.last_airpods_data), list@)
                    } else {
                        opt_cli(old(self).state.last_airpods_data)
                    })
                    &&& if fast {
                        &&& final(self).state.fast_polls_remaining == FAST_POLL_COUNT
                        &&& duration_nanos(final(self).state.current_interval)
                            == FAST_POLL_INTERVAL_SECS * nanos_per_sec()
                    } else if old(self).state.fast_polls_remaining > 0 {
                        &&& final(self).state.fast_polls_remaining == old(
                            self,
                        ).state.fast_polls_remaining - 1
                        &&& duration_nanos(final(self).state.current_interval)
                            == FAST_POLL_INTERVAL_SECS * nanos_per_sec()
                    } else {
                        &&& final(self).state.fast_polls_remaining == 0
                        &&& final(self).state.current_interval == old(self).config.poll_interval
                    }
                    &&& step == PollStep::Wait(final(self).state.current_interval)
                },
                Err(_) => {
                    let errors = old(self).state.consecutive_errors + 1;
                    let exponent = if errors < MAX_BACKOFF_EXPONENT {
                        errors
                    } else {
                        MAX_BACKOFF_EXPONENT as int
                    };
                    &&& final(self).state.consecutive_errors == errors
                    &&& final(self).state.successful_scans == old(self).state.successful_scans
                    &&& final(self).state.last_airpods_data == old(self).state.last_airpods_data
                    &&& final(self).state.fast_polls_remaining == old(
                        self,
                    ).state.fast_polls_remaining
                    &&& final(self).state.current_interval == old(self).state.current_interval
                    &&& if errors >= old(self).config.max_errors {
                        step == PollStep::Stop(exponent as u32)
                    } else {
                        step == PollStep::BackOff(exponent as u32)
                    }
                },
            },
    {
        self.state.total_scans = self.state.total_scans + 1;
        self.state.last_scan_time = Some(instant_now());
        match outcome {
            Ok(airpods_list) => {
                self.state.consecutive_errors = 0;
                self.state.successful_scans = self.state.successful_scans + 1;
                let should_use_fast_polling = if self.config.adaptive_polling {
                    detect_significant_changes(&mut self.state, airpods_list.as_slice())
                } else {
                    false
                };
                if should_use_fast_polling {
                    self.state.fast_polls_remaining = FAST_POLL_COUNT;
                    self.state.current_interval = duration_from_secs(FAST_POLL_INTERVAL_SECS);
                } else if self.state.fast_polls_remaining > 0 {
                    self.state.fast_polls_remaining = self.state.fast_polls_remaining - 1;
                    self.state.current_interval = duration_from_secs(FAST_POLL_INTERVAL_SECS);
                } else {
                    self.state.current_interval = self.config.poll_interval;
                }
                PollStep::Wait(self.state.current_interval)
            },
            Err(_) => {
                self.state.consecutive_errors = self.state.consecutive_errors + 1;
                let exponent = if self.state.consecutive_errors < MAX_BACKOFF_EXPONENT {
                    self.state.consecutive_errors
                } else {
                    MAX_BACKOFF_EXPONENT
                };
                if self.state.consecutive_errors >= self.config.max_errors {
                    PollStep::Stop(exponent)
                } else {
                    PollStep::BackOff(exponent)
                }
            },
        }
    }

    /// Keep the back-off interval computed for an error, at most the maximum
    /// interval; returns the interval kept.
    pub fn set_backoff_interval(&mut self, error_interval: Duration) -> (d: Duration)
        ensures
            duration_nanos(d) == (if duration_nanos(error_interval) <= MAX_POLL_INTERVAL_SECS
                * nanos_per_sec() {
                duration_nanos(error_interval) as int
            } else {
                MAX_POLL_INTERVAL_SECS * nanos_per_sec()
            }),
            final(self).state.current_interval == d,
            final(self).config == old(self).config,
            final(self).state.fast_polls_remaining == old(self).state.fast_polls_remaining,
            final(self).state.last_scan_time == old(self).state.last_scan_time,
            final(self).state.last_airpods_data == old(self).state.last_airpods_data,
            final(self).state.consecutive_errors == old(self).state.consecutive_errors,
            final(self).state.total_scans == old(self).state.total_scans,
            final(self).state.successful_scans == old(self).state.successful_scans,
    {
        let max = duration_from_secs(MAX_POLL_INTERVAL_SECS);
        let d = if duration_as_nanos(&error_interval) <= duration_as_nanos(&max) {
            error_interval
        } else {
            max
        };
        self.state.current_interval = d;
        d
    }
}

} // verus!
