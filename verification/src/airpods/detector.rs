//! Recognising AirPods among discovered Bluetooth devices.

use std::time::Instant;
use vstd::prelude::*;

use crate::airpods::{
    parse_airpods_data, spec_decoded_battery, spec_has_battery_data, AirPodsBattery, AirPodsType,
};
use crate::airpods::filter::{
    airpods_all_models_filter, all_models, spec_default_filter, AirPodsFilter, AirPodsFilterOptions,
    FilterModel,
};
use crate::bluetooth::address::BDAddr;
use crate::bluetooth::scanner::{clone_name, opt_chars, DiscoveredDevice};
use crate::error::{AirPodsError, ErrorManager};
use crate::text::{concat2, concat3, decimal_chars, decimal_string, seq_contains, str_contains};
use crate::time::instant_now;

verus! {

broadcast use vstd::std_specs::hash::group_hash_axioms;

/// Apple's Bluetooth SIG company identifier.
pub const APPLE_COMPANY_ID: u16 = 0x004C;

/// Offset positions for AirPods device flags
pub const FLIP_STATUS_OFFSET: usize = 11;

/// A simple detector for AirPods devices
#[derive(Clone, Debug)]
pub struct AirPodsDetector {
    min_rssi: i16,
}

impl AirPodsDetector {
    /// The weakest signal the detector accepts.
    pub closed spec fn spec_min_rssi(self) -> i16 {
        self.min_rssi
    }

    /// Create a new AirPods detector (signal threshold -70)
    pub fn new() -> (d: Self)
        ensures
            d.spec_min_rssi() == -70,
    {
        AirPodsDetector { min_rssi: -70 }
    }

    /// Whether the detector accepts a device: a known signal must be at least
    /// the threshold, and Apple manufacturer data must be present.
    pub open spec fn spec_is_airpods(self, device: crate::bluetooth::scanner::DeviceModel) -> bool {
        &&& (device.rssi matches Some(r) ==> r >= self.spec_min_rssi())
        &&& device.manufacturer_data.contains_key(APPLE_COMPANY_ID)
    }

    /// Check if a device is an AirPods device
    pub fn is_airpods(&self, device: &DiscoveredDevice) -> (r: bool)
        ensures
            r == self.spec_is_airpods(device@),
    {
        if let Some(rssi) = device.rssi {
            if rssi < self.min_rssi {
                return false;
            }
        }
        device.manufacturer_data.contains_key(&APPLE_COMPANY_ID)
    }

    /// Set minimum RSSI threshold
    pub fn with_min_rssi(self, rssi: i16) -> (d: Self)
        ensures
            d.spec_min_rssi() == rssi,
    {
        AirPodsDetector { min_rssi: rssi }
    }
}

impl Default for AirPodsDetector {
    fn default() -> (d: Self)
        ensures
            d.spec_min_rssi() == -70,
    {
        AirPodsDetector::new()
    }
}

/// Detected AirPods device information
#[derive(Debug, Clone, PartialEq)]
pub struct DetectedAirPods {
    /// Device address
    pub address: BDAddr,
    /// Device name if available
    pub name: Option<String>,
    /// Signal strength
    pub rssi: Option<i16>,
    /// Type of AirPods device
    pub device_type: AirPodsType,
    /// Battery level information (if available)
    pub battery: Option<AirPodsBattery>,
    /// Last time device was seen
    pub last_seen: Instant,
    /// Whether the device is connected
    pub is_connected: bool,
}

impl DetectedAirPods {
    /// Creates a new detected AirPods device, seen now
    pub fn new(
        address: BDAddr,
        name: Option<String>,
        rssi: Option<i16>,
        device_type: AirPodsType,
        battery: Option<AirPodsBattery>,
        is_connected: bool,
    ) -> (d: Self)
        ensures
            d.address == address,
            d.name == name,
            d.rssi == rssi,
            d.device_type == device_type,
            d.battery == battery,
            d.is_connected == is_connected,
    {
        DetectedAirPods {
            address,
            name,
            rssi,
            device_type,
            battery,
            last_seen: instant_now(),
            is_connected,
        }
    }
}

impl Default for DetectedAirPods {
    fn default() -> (d: Self)
        ensures
            d.address@ == Seq::<u8>::empty().push(0).push(0).push(0).push(0).push(0).push(0),
            d.name is None,
            d.rssi is None,
            d.device_type == AirPodsType::Unknown,
            d.battery is None,
            !d.is_connected,
    {
        DetectedAirPods {
            address: BDAddr::default(),
            name: None,
            rssi: None,
            device_type: AirPodsType::Unknown,
            battery: None,
            last_seen: instant_now(),
            is_connected: false,
        }
    }
}

/// The model that a device name designates when the advertisement prefix is unknown.
pub open spec fn spec_type_from_name(name: Seq<char>) -> AirPodsType {
    if seq_contains(name, "Pro"@) {
        if seq_contains(name, "2"@) || seq_contains(name, "II"@) {
            AirPodsType::AirPodsPro2
        } else {
            AirPodsType::AirPodsPro
        }
    } else if seq_contains(name, "3"@) || seq_contains(name, "III"@) {
        AirPodsType::AirPods3
    } else if seq_contains(name, "2"@) || seq_contains(name, "II"@) {
        AirPodsType::AirPods2
    } else if seq_contains(name, "Max"@) {
        AirPodsType::AirPodsMax
    } else {
        AirPodsType::AirPods1
    }
}

impl AirPodsType {
    /// Identify the model from the device name (case-sensitive).
    pub fn from_name(name: &str) -> (t: AirPodsType)
        ensures
            t == spec_type_from_name(name@),
    {
        if str_contains(name, "Pro") {
            if str_contains(name, "2") || str_contains(name, "II") {
                AirPodsType::AirPodsPro2
            } else {
                AirPodsType::AirPodsPro
            }
        } else if str_contains(name, "3") || str_contains(name, "III") {
            AirPodsType::AirPods3
        } else if str_contains(name, "2") || str_contains(name, "II") {
            AirPodsType::AirPods2
        } else if str_contains(name, "Max") {
            AirPodsType::AirPodsMax
        } else {
            AirPodsType::AirPods1
        }
    }
}

/// The model a name designates when the advertisement does not: "Pro" with
/// "2" or "II" is the Pro 2, "Pro" alone the Pro; otherwise "3" or "III" the
/// third generation, "2" or "II" the second, "Max" the Max, and any other
/// name the first generation.
pub proof fn lemma_type_from_name_rules(n: Seq<char>)
    ensures
        seq_contains(n, "Pro"@) && (seq_contains(n, "2"@) || seq_contains(n, "II"@))
            ==> spec_type_from_name(n) == AirPodsType::AirPodsPro2,
        seq_contains(n, "Pro"@) && !seq_contains(n, "2"@) && !seq_contains(n, "II"@)
            ==> spec_type_from_name(n) == AirPodsType::AirPodsPro,
        !seq_contains(n, "Pro"@) && (seq_contains(n, "3"@) || seq_contains(n, "III"@))
            ==> spec_type_from_name(n) == AirPodsType::AirPods3,
        !seq_contains(n, "Pro"@) && !seq_contains(n, "3"@) && !seq_contains(n, "III"@) && (
        seq_contains(n, "2"@) || seq_contains(n, "II"@)) ==> spec_type_from_name(n)
            == AirPodsType::AirPods2,
        !seq_contains(n, "Pro"@) && !seq_contains(n, "3"@) && !seq_contains(n, "III"@)
            && !seq_contains(n, "2"@) && !seq_contains(n, "II"@) && seq_contains(n, "Max"@)
            ==> spec_type_from_name(n) == AirPodsType::AirPodsMax,
        !seq_contains(n, "Pro"@) && !seq_contains(n, "3"@) && !seq_contains(n, "III"@)
            && !seq_contains(n, "2"@) && !seq_contains(n, "II"@) && !seq_contains(n, "Max"@)
            ==> spec_type_from_name(n) == AirPodsType::AirPods1,
{
}

/// The model an Apple advertisement designates by its first two bytes:
/// `13 19` the third generation, `0E 19` the Pro, `0F 19` the Pro 2, `0A 19`
/// the Max; `07 19` the second generation unless a name without "2" or "II"
/// makes it the first; any other prefix without a name is unknown.
pub proof fn lemma_identify_prefixes(name: Option<Seq<char>>, data: Seq<u8>)
    requires
        data.len() >= 2,
    ensures
        data[0] == 0x13 && data[1] == 0x19 ==> spec_identify(name, data) == AirPodsType::AirPods3,
        data[0] == 0x0E && data[1] == 0x19 ==> spec_identify(name, data)
            == AirPodsType::AirPodsPro,
        data[0] == 0x0F && data[1] == 0x19 ==> spec_identify(name, data)
            == AirPodsType::AirPodsPro2,
        data[0] == 0x0A && data[1] == 0x19 ==> spec_identify(name, data)
            == AirPodsType::AirPodsMax,
        data[0] == 0x07 && data[1] == 0x19 && name is None ==> spec_identify(name, data)
            == AirPodsType::AirPods2,
        data[0] == 0x07 && data[1] == 0x19 && name is Some && !seq_contains(name->0, "2"@)
            && !seq_contains(name->0, "II"@) ==> spec_identify(name, data)
            == AirPodsType::AirPods1,
        data[0] == 0x07 && data[1] == 0x19 && name is Some && (seq_contains(name->0, "2"@)
            || seq_contains(name->0, "II"@)) ==> spec_identify(name, data)
            == AirPodsType::AirPods2,
        data[1] != 0x19 && name is None ==> spec_identify(name, data) == AirPodsType::Unknown,
        data[1] != 0x19 && name is Some && !seq_contains(name->0, "AirPods"@) ==> spec_identify(
            name,
            data,
        ) == AirPodsType::Unknown,
{
}

/// The model designated by an Apple advertisement of at least two bytes and
/// the optional device name.
pub open spec fn spec_identify(name: Option<Seq<char>>, data: Seq<u8>) -> AirPodsType {
    let (p0, p1) = (data[0], data[1]);
    if p0 == 0x07 && p1 == 0x19 {
        match name {
            Some(n) => if seq_contains(n, "2"@) || seq_contains(n, "II"@) {
                AirPodsType::AirPods2
            } else {
                AirPodsType::AirPods1
            },
            None => AirPodsType::AirPods2,
        }
    } else if p0 == 0x13 && p1 == 0x19 {
        AirPodsType::AirPods3
    } else if p0 == 0x0E && p1 == 0x19 {
        AirPodsType::AirPodsPro
    } else if p0 == 0x0F && p1 == 0x19 {
        AirPodsType::AirPodsPro2
    } else if p0 == 0x0A && p1 == 0x19 {
        AirPodsType::AirPodsMax
    } else {
        match name {
            Some(n) => if seq_contains(n, "AirPods"@) {
                spec_type_from_name(n)
            } else {
                AirPodsType::Unknown
            },
            None => AirPodsType::Unknown,
        }
    }
}

/// The message of the error for an advertisement too short to identify.
pub open spec fn spec_identify_short_message(len: nat) -> Seq<char> {
    "Manufacturer data too short for AirPods identification: "@ + decimal_chars(len)
        + " bytes (need at least 2)"@
}

/// Identify the type of AirPods from manufacturer data
pub fn identify_airpods_type(name: &Option<String>, data: &[u8]) -> (r: Result<
    AirPodsType,
    AirPodsError,
>)
    ensures
        data@.len() < 2 ==> (r matches Err(AirPodsError::InvalidData(msg))
            && msg@ == spec_identify_short_message(data@.len())),
        data@.len() >= 2 ==> r == Ok::<AirPodsType, AirPodsError>(
            spec_identify(opt_chars(*name), data@),
        ),
{
    if data.len() < 2 {
        let n = decimal_string(data.len() as u64);
        let msg = concat3(
            "Manufacturer data too short for AirPods identification: ",
            n.as_str(),
            " bytes (need at least 2)",
        );
        return Err(AirPodsError::InvalidData(msg));
    }
    let p0 = data[0];
    let p1 = data[1];
    let device_type = if p0 == 0x07 && p1 == 0x19 {
        match name {
            Some(n) => if str_contains(n.as_str(), "2") || str_contains(n.as_str(), "II") {
                AirPodsType::AirPods2
            } else {
                AirPodsType::AirPods1
            },
            None => AirPodsType::AirPods2,
        }
    } else if p0 == 0x13 && p1 == 0x19 {
        AirPodsType::AirPods3
    } else if p0 == 0x0E && p1 == 0x19 {
        AirPodsType::AirPodsPro
    } else if p0 == 0x0F && p1 == 0x19 {
        AirPodsType::AirPodsPro2
    } else if p0 == 0x0A && p1 == 0x19 {
        AirPodsType::AirPodsMax
    } else {
        match name {
            Some(n) => if str_contains(n.as_str(), "AirPods") {
                AirPodsType::from_name(n.as_str())
            } else {
                AirPodsType::Unknown
            },
            None => AirPodsType::Unknown,
        }
    };
    Ok(device_type)
}

/// The outcome of detection for a device, apart from the error texts: `None`
/// for a device that is not AirPods, otherwise the model and the decoded
/// battery (absent when the battery section cannot be decoded).
pub open spec fn spec_detect_kind(device: crate::bluetooth::scanner::DeviceModel) -> Option<
    (AirPodsType, Option<AirPodsBattery>),
> {
    let data = device.manufacturer_data[APPLE_COMPANY_ID]@;
    let t = spec_identify(device.name, data);
    if t == AirPodsType::Unknown {
        None
    } else {
        Some(
            (
                t,
                if spec_has_battery_data(data) {
                    Some(spec_decoded_battery(data))
                } else {
                    None
                },
            ),
        )
    }
}

/// Process a discovered device to determine if it's AirPods and extract information
pub fn detect_airpods(device: &DiscoveredDevice) -> (r: Result<Option<DetectedAirPods>, AirPodsError>)
    ensures
        !device@.manufacturer_data.contains_key(APPLE_COMPANY_ID) ==> if device.is_potential_airpods {
            r matches Err(AirPodsError::ManufacturerDataMissing)
        } else {
            r matches Ok(None)
        },
        device@.manufacturer_data.contains_key(APPLE_COMPANY_ID)
            && device@.manufacturer_data[APPLE_COMPANY_ID]@.len() < 2 ==> (r matches Err(
            AirPodsError::DetectionFailed(msg),
        ) && msg@ == "Failed to identify AirPods type: "@ + "Invalid data: "@
            + spec_identify_short_message(device@.manufacturer_data[APPLE_COMPANY_ID]@.len())),
        device@.manufacturer_data.contains_key(APPLE_COMPANY_ID)
            && device@.manufacturer_data[APPLE_COMPANY_ID]@.len() >= 2 ==> match spec_detect_kind(
            device@,
        ) {
            None => r matches Ok(None),
            Some((t, battery)) => r matches Ok(Some(d)) && d.device_type == t && d.battery
                == battery && d.address == device.address && opt_chars(d.name) == device@.name
                && d.rssi == device.rssi && d.is_connected == device.is_connected,
        },
{
    let apple_data = match device.manufacturer_data.get(&APPLE_COMPANY_ID) {
        Some(data) => data,
        None => {
            if device.is_potential_airpods {
                return Err(AirPodsError::ManufacturerDataMissing);
            }
            return Ok(None);
        },
    };
    let device_type = match identify_airpods_type(&device.name, apple_data.as_slice()) {
        Ok(device_type) => {
            if device_type == AirPodsType::Unknown {
                return Ok(None);
            }
            device_type
        },
        Err(err) => {
            let t = err.to_text();
            return Err(AirPodsError::DetectionFailed(concat2("Failed to identify AirPods type: ", t.as_str())));
        },
    };
    let battery = match parse_airpods_data(apple_data.as_slice()) {
        Ok(battery) => Some(battery),
        Err(_) => None,
    };
    let airpods = DetectedAirPods::new(
        device.address,
        clone_name(&device.name),
        device.rssi,
        device_type,
        battery,
        device.is_connected,
    );
    Ok(Some(airpods))
}

/// A list of detected AirPods, with the error manager that its errors go to
pub struct AirPodsScanner {
    /// List of detected AirPods devices
    pub devices: Vec<DetectedAirPods>,
    /// Error manager for handling errors
    error_manager: Option<ErrorManager>,
}

impl AirPodsScanner {
    /// Whether the scanner has an error manager.
    pub closed spec fn spec_has_error_manager(&self) -> bool {
        self.error_manager is Some
    }

    /// The devices detected.
    pub closed spec fn spec_devices(&self) -> Seq<DetectedAirPods> {
        self.devices@
    }

    /// Create a new AirPods scanner, with no devices and no error manager
    pub fn new() -> (s: Self)
        ensures
            s.spec_devices().len() == 0,
            !s.spec_has_error_manager(),
    {
        AirPodsScanner { devices: Vec::new(), error_manager: None }
    }

    /// Set the error manager for logging errors
    pub fn with_error_manager(self, manager: ErrorManager) -> (s: Self)
        ensures
            s.spec_devices() == self.spec_devices(),
            s.spec_has_error_manager(),
    {
        AirPodsScanner { devices: self.devices, error_manager: Some(manager) }
    }

    /// Whether errors of this scanner are recorded
    pub fn has_error_manager(&self) -> (r: bool)
        ensures
            r == self.spec_has_error_manager(),
    {
        self.error_manager.is_some()
    }
}

impl Default for AirPodsScanner {
    fn default() -> (s: Self)
        ensures
            s.spec_devices().len() == 0,
            !s.spec_has_error_manager(),
    {
        AirPodsScanner::new()
    }
}

/// Create a filter function that matches any AirPods devices
pub fn create_airpods_filter() -> (f: AirPodsFilter)
    ensures
        f.options@ == (FilterModel { model_types: Some(all_models()), ..spec_default_filter() }),
{
    airpods_all_models_filter()
}

/// Create a custom filter function for AirPods devices with specific options
pub fn create_custom_airpods_filter(options: AirPodsFilterOptions) -> (f: AirPodsFilter)
    ensures
        f.options@ == options@,
{
    options.create_filter_function()
}

} // verus!
