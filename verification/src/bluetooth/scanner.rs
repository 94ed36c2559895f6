//! Devices found by a Bluetooth scan, and the scanner's settings.

use std::collections::HashMap;
use std::time::{Duration, Instant};
use uuid::Uuid;
use vstd::prelude::*;

use crate::bluetooth::address::{
    bad_byte_message, parse_hex_u8, parse_pieces, spec_parse_bdaddr, spec_parse_hex_u8, BDAddr,
};
use crate::text::{lemma_split_nonempty, split_by};
use crate::airpods::detector::{create_airpods_filter, detect_airpods, spec_detect_kind, DetectedAirPods, APPLE_COMPANY_ID};
use crate::airpods::filter::{all_models, models, spec_default_filter, spec_passes, AirPodsFilter, FilterModel};
use crate::bluetooth::events::BleEvent;
use crate::bluetooth::filter::keep_matching;
use crate::bluetooth::scanner_config::ScanConfig;
use crate::config::app_config::AppConfig;
use crate::config::Configurable;
use crate::error::{BluetoothError, RecoveryAction};
use crate::text::{chars_of, concat2, concat3};
use vstd::string::StringExecFns;
use crate::time::{duration_from_millis, duration_from_secs, duration_nanos, instant_now, nanos_per_sec};

verus! {

/// A 128-bit identifier of a Bluetooth service.
#[verifier::external_type_specification]
#[verifier::external_body]
pub struct ExUuid(Uuid);

/// `Uuid` is `Copy` (its `Clone` is derived); its `clone` returns the same id.
pub assume_specification[ <uuid::Uuid as Clone>::clone ](u: &uuid::Uuid) -> (r: uuid::Uuid)
    ensures
        r == *u,
;

/// `Instant` is `Copy`; its `clone` returns the same reading.
pub assume_specification[ <Instant as Clone>::clone ](i: &Instant) -> (r: Instant)
    ensures
        r == *i,
;

/// What the library reads of a discovered device.
pub struct DeviceModel {
    pub address: BDAddr,
    pub name: Option<Seq<char>>,
    pub rssi: Option<i16>,
    pub manufacturer_data: Map<u16, Vec<u8>>,
    pub is_potential_airpods: bool,
    pub is_connected: bool,
    pub tx_power_level: Option<i16>,
    pub last_seen: Instant,
    pub service_data: Map<Uuid, Vec<u8>>,
    pub services: Seq<Uuid>,
}

/// The characters of an optional name.
pub open spec fn opt_chars(name: Option<String>) -> Option<Seq<char>> {
    match name {
        Some(n) => Some(n@),
        None => None,
    }
}

/// A discovered Bluetooth device
#[derive(Debug)]
pub struct DiscoveredDevice {
    /// Device address
    pub address: BDAddr,
    /// Device name if available
    pub name: Option<String>,
    /// RSSI (signal strength) value
    pub rssi: Option<i16>,
    /// Manufacturer data (used for AirPods detection)
    pub manufacturer_data: HashMap<u16, Vec<u8>>,
    /// Whether this might be an AirPods device
    pub is_potential_airpods: bool,
    /// When the device was last seen
    pub last_seen: Instant,
    /// Whether the device is connected
    pub is_connected: bool,
    /// Service data from the device
    pub service_data: HashMap<Uuid, Vec<u8>>,
    /// Services advertised by the device
    pub services: Vec<Uuid>,
    /// Transmit power level if available
    pub tx_power_level: Option<i16>,
}

impl View for DiscoveredDevice {
    type V = DeviceModel;

    open spec fn view(&self) -> DeviceModel {
        DeviceModel {
            address: self.address,
            name: opt_chars(self.name),
            rssi: self.rssi,
            manufacturer_data: self.manufacturer_data@,
            is_potential_airpods: self.is_potential_airpods,
            is_connected: self.is_connected,
            tx_power_level: self.tx_power_level,
            last_seen: self.last_seen,
            service_data: self.service_data@,
            services: self.services@,
        }
    }
}

/// A copy of an optional name.
pub fn clone_name(name: &Option<String>) -> (r: Option<String>)
    ensures
        opt_chars(r) == opt_chars(*name),
{
    match name {
        Some(n) => Some(n.clone()),
        None => None,
    }
}

impl DiscoveredDevice {
    /// A copy of the device.
    pub fn duplicate(&self) -> (d: DiscoveredDevice)
        ensures
            d@ == self@,
    {
        DiscoveredDevice {
            address: self.address,
            name: clone_name(&self.name),
            rssi: self.rssi,
            manufacturer_data: self.manufacturer_data.clone(),
            is_potential_airpods: self.is_potential_airpods,
            last_seen: self.last_seen.clone(),
            is_connected: self.is_connected,
            service_data: self.service_data.clone(),
            services: self.services.clone(),
            tx_power_level: self.tx_power_level,
        }
    }
}

/// What a peripheral reports of itself, as the scanner reads it.
#[derive(Debug, Clone)]
pub struct PeripheralProperties {
    /// The advertised name
    pub local_name: Option<String>,
    /// Signal strength
    pub rssi: Option<i16>,
    /// Manufacturer data by company id
    pub manufacturer_data: HashMap<u16, Vec<u8>>,
    /// Transmit power level
    pub tx_power_level: Option<i16>,
}

impl DiscoveredDevice {
    /// The device a peripheral at `address` describes, seen at `now`: its
    /// name, signal, manufacturer data and transmit power, marked as possible
    /// AirPods when the filter for all AirPods models accepts it; without
    /// properties there is no device.
    pub fn from_properties(address: BDAddr, properties: Option<PeripheralProperties>, now: Instant) -> (r:
        Result<DiscoveredDevice, BluetoothError>)
        ensures
            match properties {
                None => r matches Err(BluetoothError::InvalidData(m)) && m@
                    == "No device properties available"@,
                Some(p) => r matches Ok(d) && d@ == (DeviceModel {
                    address,
                    name: opt_chars(p.local_name),
                    rssi: p.rssi,
                    manufacturer_data: p.manufacturer_data@,
                    is_potential_airpods: spec_passes(
                        FilterModel { model_types: Some(all_models()), ..spec_default_filter() },
                        DeviceModel {
                            address,
                            name: opt_chars(p.local_name),
                            rssi: p.rssi,
                            manufacturer_data: p.manufacturer_data@,
                            is_potential_airpods: false,
                            is_connected: false,
                            tx_power_level: p.tx_power_level,
                            last_seen: now,
                            service_data: Map::empty(),
                            services: Seq::empty(),
                        },
                    ),
                    is_connected: false,
                    tx_power_level: p.tx_power_level,
                    last_seen: now,
                    service_data: Map::empty(),
                    services: Seq::empty(),
                }),
            },
    {
        let properties = match properties {
            Some(p) => p,
            None => {
                return Err(BluetoothError::InvalidData(String::from_str("No device properties available")));
            },
        };
        let probe = DiscoveredDevice {
            address,
            name: clone_name(&properties.local_name),
            rssi: properties.rssi,
            manufacturer_data: properties.manufacturer_data.clone(),
            is_potential_airpods: false,
            last_seen: now,
            is_connected: false,
            service_data: HashMap::new(),
            services: Vec::new(),
            tx_power_level: properties.tx_power_level,
        };
        let is_potential_airpods = create_airpods_filter().matches(&probe);
        Ok(DiscoveredDevice {
            address,
            name: properties.local_name,
            rssi: properties.rssi,
            manufacturer_data: properties.manufacturer_data,
            is_potential_airpods,
            last_seen: now,
            is_connected: false,
            service_data: HashMap::new(),
            services: Vec::new(),
            tx_power_level: properties.tx_power_level,
        })
    }
}

impl Clone for DiscoveredDevice {
    fn clone(&self) -> (d: Self)
        ensures
            d@ == self@,
    {
        self.duplicate()
    }
}

impl Default for DiscoveredDevice {
    fn default() -> (d: Self)
        ensures
            d@.name is None,
            d@.rssi is None,
            d@.manufacturer_data == Map::<u16, Vec<u8>>::empty(),
            !d@.is_potential_airpods,
            !d@.is_connected,
            d@.tx_power_level is None,
            d@.service_data == Map::<Uuid, Vec<u8>>::empty(),
            d@.services.len() == 0,
    {
        DiscoveredDevice {
            address: BDAddr::default(),
            name: None,
            rssi: None,
            manufacturer_data: HashMap::new(),
            is_potential_airpods: false,
            last_seen: instant_now(),
            is_connected: false,
            service_data: HashMap::new(),
            services: Vec::new(),
            tx_power_level: None,
        }
    }
}

/// Configuration for Bluetooth scanner
#[derive(Debug, Clone)]
pub struct BleScannerConfig {
    /// Duration of each scan
    pub scan_duration: Duration,
    /// Interval between scans
    pub interval_between_scans: Duration,
    /// Whether to filter out known devices
    pub filter_known_devices: bool,
    /// Whether to only update RSSI for known devices
    pub update_rssi_only: bool,
    /// Interval for updating device data
    pub update_interval: Duration,
    /// Timeout for scanning
    pub scan_timeout: Option<Duration>,
    /// Maximum number of retries for operations
    pub max_retries: u8,
    /// Delay between retries
    pub retry_delay: Duration,
}

impl Default for BleScannerConfig {
    fn default() -> (c: Self)
        ensures
            duration_nanos(c.scan_duration) == 10 * nanos_per_sec(),
            duration_nanos(c.interval_between_scans) == 30 * nanos_per_sec(),
            !c.filter_known_devices,
            !c.update_rssi_only,
            duration_nanos(c.update_interval) == 5 * nanos_per_sec(),
            c.scan_timeout is None,
            c.max_retries == 3,
            duration_nanos(c.retry_delay) == 500 * 1_000_000,
    {
        BleScannerConfig {
            scan_duration: duration_from_secs(10),
            interval_between_scans: duration_from_secs(30),
            filter_known_devices: false,
            update_rssi_only: false,
            update_interval: duration_from_secs(5),
            scan_timeout: None,
            max_retries: 3,
            retry_delay: duration_from_millis(500),
        }
    }
}

/// Parse a BDAddr from a string of six hexadecimal bytes separated by colons.
pub fn parse_bdaddr(s: &str) -> (r: Result<BDAddr, String>)
    ensures
        match spec_parse_bdaddr(s@) {
            Ok(bytes) => r matches Ok(a) && a@ == bytes,
            Err(m) => r matches Err(e) && e@ == m,
        },
{
    let chars = chars_of(s);
    let mut pieces: Vec<String> = Vec::new();
    let mut cur = String::new();
    for i in 0..chars.len()
        invariant
            chars@ == s@,
            pieces@.map_values(|x: String| x@).push(cur@) == split_by(s@.take(i as int), ':'),
    {
        proof {
            lemma_split_nonempty(s@.take(i as int), ':');
        }
        assert(s@.take(i + 1).drop_last() =~= s@.take(i as int));
        if chars[i] == ':' {
            let done = cur;
            pieces.push(done);
            cur = String::new();
            assert(pieces@.map_values(|x: String| x@).push(cur@) =~= split_by(
                s@.take(i + 1), ':'));
        } else {
            cur.push(chars[i]);
            assert(pieces@.map_values(|x: String| x@).push(cur@) =~= split_by(
                s@.take(i + 1), ':'));
        }
    }
    pieces.push(cur);
    assert(s@.take(chars.len() as int) =~= s@);
    let ghost parts = split_by(s@, ':');
    assert(pieces@.map_values(|x: String| x@) =~= parts);
    if pieces.len() != 6 {
        return Err(concat2("Invalid BDAddr format: ", s));
    }
    let mut bytes = [0u8; 6];
    assert(parts.skip(0) =~= parts);
    proof {
        if let Ok(rest) = parse_pieces(parts) {
            assert(bytes@.take(0) + rest =~= rest);
        }
    }
    let mut k: usize = 0;
    while k < 6
        invariant
            pieces@.len() == 6,
            pieces@.map_values(|x: String| x@) == parts,
            parts == split_by(s@, ':'),
            0 <= k <= 6,
            parse_pieces(parts) == match parse_pieces(parts.skip(k as int)) {
                Ok(rest) => Ok(bytes@.take(k as int) + rest),
                Err(m) => Err(m),
            },
        decreases 6 - k,
    {
        assert(parts[k as int] == pieces@[k as int]@);
        assert(parts.skip(k as int).drop_first() =~= parts.skip(k + 1));
        assert(parts.skip(k as int)[0] == parts[k as int]);
        match parse_hex_u8(pieces[k].as_str()) {
            Err(e) => {
                let mut m = concat3("Invalid hex byte '", pieces[k].as_str(), "': ");
                m.append(e.message());
                assert(m@ == bad_byte_message(parts[k as int], e));
                return Err(m);
            },
            Ok(b) => {
                let ghost old_bytes = bytes@;
                bytes[k] = b;
                assert(bytes@.take(k + 1) =~= old_bytes.take(k as int) + seq![b]);
                proof {
                    match parse_pieces(parts.skip(k + 1)) {
                        Ok(rest) => {
                            assert(bytes@.take(k + 1) + rest =~= old_bytes.take(k as int) + (
                            seq![b] + rest));
                        },
                        Err(m) => {},
                    }
                }
            },
        }
        k = k + 1;
    }
    assert(parts.skip(6) =~= Seq::<Seq<char>>::empty());
    assert(bytes@.take(6) =~= bytes@);
    Ok(BDAddr::from(bytes))
}

impl std::str::FromStr for BDAddr {
    type Err = String;

    /// Parses an address of the form `aa:bb:cc:dd:ee:ff`.
    fn from_str(s: &str) -> (r: Result<BDAddr, String>)
        ensures
            match spec_parse_bdaddr(s@) {
                Ok(bytes) => r matches Ok(a) && a@ == bytes,
                Err(m) => r matches Err(e) && e@ == m,
            },
    {
        parse_bdaddr(s)
    }
}

/// Both maps hold the same keys, with the same bytes under each.
pub open spec fn same_manufacturer_data(a: Map<u16, Vec<u8>>, b: Map<u16, Vec<u8>>) -> bool {
    a.dom() == b.dom() && forall|k: u16| #[trigger] a.contains_key(k) ==> a[k]@ == b[k]@
}

/// Compares two manufacturer-data maps with `==`: std's `HashMap` equality,
/// which holds when both maps hold the same keys with equal values, and
/// `Vec` equality, which holds for the same bytes in the same order.
#[verifier::external_body]
fn manufacturer_data_eq(a: &HashMap<u16, Vec<u8>>, b: &HashMap<u16, Vec<u8>>) -> (r: bool)
    ensures
        r == same_manufacturer_data(a@, b@),
{
    a == b
}

/// What recording a discovered device changed.
#[derive(Debug, Clone, Copy, PartialEq, Eq, Structural)]
pub enum DeviceChange {
    /// The address was not known: the device is new.
    New,
    /// The device was known and its signal or manufacturer data changed.
    Updated,
    /// The device was known and nothing that is reported changed.
    Unchanged,
}

/// Whether a device is recorded under this address.
pub open spec fn has_address(ds: Seq<DeviceModel>, a: Seq<u8>) -> bool {
    exists|i: int| 0 <= i < ds.len() && (#[trigger] ds[i]).address@ == a
}

/// The position of the device recorded under this address.
pub open spec fn address_index(ds: Seq<DeviceModel>, a: Seq<u8>) -> int {
    choose|i: int| 0 <= i < ds.len() && (#[trigger] ds[i]).address@ == a
}

/// Each address is recorded once.
pub open spec fn distinct_addresses(ds: Seq<DeviceModel>) -> bool {
    forall|i: int, j: int|
        0 <= i < j < ds.len() ==> (#[trigger] ds[i]).address@ != (#[trigger] ds[j]).address@
}

/// The devices after one is recorded: it replaces the device recorded under
/// its address, or is added at the end.
pub open spec fn spec_recorded_devices(ds: Seq<DeviceModel>, d: DeviceModel) -> Seq<DeviceModel> {
    if has_address(ds, d.address@) {
        ds.update(address_index(ds, d.address@), d)
    } else {
        ds.push(d)
    }
}

/// What recording the device changes.
pub open spec fn spec_device_change(ds: Seq<DeviceModel>, d: DeviceModel) -> DeviceChange {
    if !has_address(ds, d.address@) {
        DeviceChange::New
    } else {
        let old = ds[address_index(ds, d.address@)];
        if d.rssi != old.rssi || !same_manufacturer_data(d.manufacturer_data, old.manufacturer_data) {
            DeviceChange::Updated
        } else {
            DeviceChange::Unchanged
        }
    }
}

/// Detection finds AirPods in a device with this model.
pub open spec fn spec_detects(d: DeviceModel) -> bool {
    &&& d.manufacturer_data.contains_key(APPLE_COMPANY_ID)
    &&& d.manufacturer_data[APPLE_COMPANY_ID]@.len() >= 2
    &&& spec_detect_kind(d) is Some
}

/// `a` is what detection makes of a device with model `d`.
pub open spec fn spec_detection_of(a: DetectedAirPods, d: DeviceModel) -> bool {
    match spec_detect_kind(d) {
        Some((t, battery)) => a.device_type == t && a.battery == battery && a.address == d.address
            && opt_chars(a.name) == d.name && a.rssi == d.rssi && a.is_connected == d.is_connected,
        None => false,
    }
}

/// The scanner's record of discovered devices and its scanning settings.
#[derive(Debug)]
pub struct BleScanner {
    config: ScanConfig,
    is_scanning: bool,
    devices: Vec<DiscoveredDevice>,
    scan_cycles_completed: usize,
}

impl BleScanner {
    /// The devices recorded, in order of discovery.
    pub closed spec fn spec_devices(&self) -> Seq<DeviceModel> {
        models(self.devices@)
    }

    /// The scanning settings.
    pub closed spec fn spec_config(&self) -> ScanConfig {
        self.config
    }

    /// Whether a scan is running.
    pub closed spec fn spec_scanning(&self) -> bool {
        self.is_scanning
    }

    /// Scan cycles completed.
    pub closed spec fn spec_cycles(&self) -> usize {
        self.scan_cycles_completed
    }

    /// Each address is recorded once.
    pub closed spec fn wf(&self) -> bool {
        distinct_addresses(models(self.devices@))
    }

    /// Create a new scanner with the given configuration, not scanning and
    /// with no devices
    pub fn new(config: ScanConfig) -> (s: Self)
        ensures
            s.wf(),
            s.spec_config() == config,
            !s.spec_scanning(),
            s.spec_cycles() == 0,
            s.spec_devices().len() == 0,
    {
        BleScanner { config, is_scanning: false, devices: Vec::new(), scan_cycles_completed: 0 }
    }

    /// Create a new BLE scanner with the specified configuration
    pub fn with_config(config: ScanConfig) -> (s: Self)
        ensures
            s.wf(),
            s.spec_config() == config,
            !s.spec_scanning(),
            s.spec_cycles() == 0,
            s.spec_devices().len() == 0,
    {
        Self::new(config)
    }

    /// Update the scanner configuration
    pub fn set_config(&mut self, config: ScanConfig)
        ensures
            final(self).spec_config() == config,
            final(self).spec_devices() == old(self).spec_devices(),
            final(self).spec_scanning() == old(self).spec_scanning(),
            final(self).spec_cycles() == old(self).spec_cycles(),
            final(self).wf() == old(self).wf(),
    {
        self.config = config;
    }

    /// Get the current scanner configuration
    pub fn get_config(&self) -> (c: &ScanConfig)
        ensures
            *c == self.spec_config(),
    {
        &self.config
    }

    /// Check if scanning is currently in progress
    pub fn is_scanning(&self) -> (r: bool)
        ensures
            r == self.spec_scanning(),
    {
        self.is_scanning
    }

    /// Record that a scan started or stopped
    pub fn set_scanning(&mut self, scanning: bool)
        ensures
            final(self).spec_scanning() == scanning,
            final(self).spec_config() == old(self).spec_config(),
            final(self).spec_devices() == old(self).spec_devices(),
            final(self).spec_cycles() == old(self).spec_cycles(),
            final(self).wf() == old(self).wf(),
    {
        self.is_scanning = scanning;
    }

    /// Get the number of completed scan cycles
    pub fn get_scan_cycles(&self) -> (n: usize)
        ensures
            n == self.spec_cycles(),
    {
        self.scan_cycles_completed
    }

    /// Get a list of currently known devices, in order of discovery
    pub fn get_devices(&self) -> (v: Vec<DiscoveredDevice>)
        ensures
            models(v@) == self.spec_devices(),
    {
        let mut v: Vec<DiscoveredDevice> = Vec::new();
        for i in 0..self.devices.len()
            invariant
                models(v@) == models(self.devices@).take(i as int),
        {
            let ghost prev = v@;
            let d = self.devices[i].duplicate();
            v.push(d);
            assert(v@ == prev.push(d));
            assert(models(v@) =~= models(prev).push(self.devices@[i as int]@));
            assert(models(v@) =~= models(self.devices@).take(i + 1));
        }
        assert(models(self.devices@).take(self.devices.len() as int) =~= models(self.devices@));
        v
    }

    /// Clear the device list
    pub fn clear_devices(&mut self)
        ensures
            final(self).wf(),
            final(self).spec_devices().len() == 0,
            final(self).spec_config() == old(self).spec_config(),
            final(self).spec_scanning() == old(self).spec_scanning(),
            final(self).spec_cycles() == old(self).spec_cycles(),
    {
        self.devices.clear();
        assert(models(self.devices@) =~= Seq::<DeviceModel>::empty());
    }

    fn position_of(&self, address: &BDAddr) -> (r: Option<usize>)
        requires
            self.wf(),
        ensures
            match r {
                Some(i) => i < self.devices@.len() && has_address(self.spec_devices(), address@)
                    && address_index(self.spec_devices(), address@) == i,
                None => !has_address(self.spec_devices(), address@),
            },
    {
        for i in 0..self.devices.len()
            invariant
                distinct_addresses(models(self.devices@)),
                forall|k: int|
                    0 <= k < i ==> (#[trigger] models(self.devices@)[k]).address@ != address@,
        {
            if self.devices[i].address == *address {
                let ghost ds = self.spec_devices();
                assert(ds[i as int].address@ == address@);
                let ghost j = address_index(ds, address@);
                assert(j == i) by {
                    if j != i {
                        assert(ds[j].address@ == ds[i as int].address@);
                    }
                }
                return Some(i);
            }
        }
        None
    }

    /// Get a device by address if it exists
    pub fn get_device(&self, address: &BDAddr) -> (r: Option<DiscoveredDevice>)
        requires
            self.wf(),
        ensures
            has_address(self.spec_devices(), address@) ==> (r matches Some(d) && d@
                == self.spec_devices()[address_index(self.spec_devices(), address@)]),
            !has_address(self.spec_devices(), address@) ==> r is None,
    {
        match self.position_of(address) {
            Some(i) => Some(self.devices[i].duplicate()),
            None => None,
        }
    }

    /// Record a discovered device: a new address is added, a known one
    /// replaced; returns what changed, which decides the event to send
    pub fn process_discovered_device(&mut self, device: &DiscoveredDevice) -> (c: DeviceChange)
        requires
            old(self).wf(),
        ensures
            final(self).wf(),
            c == spec_device_change(old(self).spec_devices(), device@),
            final(self).spec_devices() == spec_recorded_devices(old(self).spec_devices(), device@),
            final(self).spec_config() == old(self).spec_config(),
            final(self).spec_scanning() == old(self).spec_scanning(),
            final(self).spec_cycles() == old(self).spec_cycles(),
    {
        let ghost ds = models(self.devices@);
        match self.position_of(&device.address) {
            None => {
                self.devices.push(device.duplicate());
                assert(models(self.devices@) =~= ds.push(device@));
                assert forall|i: int, j: int|
                    0 <= i < j < models(self.devices@).len() implies (#[trigger] models(
                        self.devices@,
                    )[i]).address@ != (#[trigger] models(self.devices@)[j]).address@ by {
                    if j == ds.len() {
                        assert(ds[i].address@ != device@.address@);
                    }
                }
                DeviceChange::New
            },
            Some(i) => {
                let changed = device.rssi != self.devices[i].rssi || !manufacturer_data_eq(
                    &device.manufacturer_data,
                    &self.devices[i].manufacturer_data,
                );
                self.devices.set(i, device.duplicate());
                assert(models(self.devices@) =~= ds.update(i as int, device@));
                assert forall|a: int, b: int|
                    0 <= a < b < models(self.devices@).len() implies (#[trigger] models(
                        self.devices@,
                    )[a]).address@ != (#[trigger] models(self.devices@)[b]).address@ by {
                    if a == i {
                        assert(ds[b].address@ != ds[a].address@);
                    } else if b == i {
                        assert(ds[b].address@ != ds[a].address@);
                    }
                }
                if changed {
                    DeviceChange::Updated
                } else {
                    DeviceChange::Unchanged
                }
            },
        }
    }

    /// Get potential AirPods devices from discovered devices
    pub fn get_potential_airpods(&self) -> (v: Vec<DiscoveredDevice>)
        ensures
            models(v@) == keep_matching(
                self.spec_devices(),
                |d: DeviceModel| d.is_potential_airpods,
            ),
    {
        let ghost p = |d: DeviceModel| d.is_potential_airpods;
        let mut v: Vec<DiscoveredDevice> = Vec::new();
        for i in 0..self.devices.len()
            invariant
                p == (|d: DeviceModel| d.is_potential_airpods),
                models(v@) == keep_matching(models(self.devices@).take(i as int), p),
        {
            if self.devices[i].is_potential_airpods {
                v.push(self.devices[i].duplicate());
            }
            assert(models(self.devices@).take(i + 1).drop_last() =~= models(self.devices@).take(
                i as int,
            ));
            assert(models(v@) =~= keep_matching(models(self.devices@).take(i + 1), p));
        }
        assert(models(self.devices@).take(self.devices.len() as int) =~= models(self.devices@));
        v
    }

    /// Get fully detected AirPods devices with battery information
    pub fn get_detected_airpods(&self) -> (v: Vec<DetectedAirPods>)
        ensures
            v@.len() == keep_matching(self.spec_devices(), |d: DeviceModel| spec_detects(d)).len(),
            forall|k: int|
                0 <= k < v@.len() ==> spec_detection_of(
                    #[trigger] v@[k],
                    keep_matching(self.spec_devices(), |d: DeviceModel| spec_detects(d))[k],
                ),
    {
        detected_in(&self.devices)
    }

    /// Get filtered AirPods devices matching a filter
    pub fn get_filtered_airpods(&self, filter: &AirPodsFilter) -> (v: Vec<DiscoveredDevice>)
        ensures
            models(v@) == keep_matching(
                self.spec_devices(),
                |d: DeviceModel| spec_passes(filter.options@, d),
            ),
    {
        self.filter_devices(filter)
    }

    /// Filter devices using an AirPods filter
    pub fn filter_devices(&self, filter: &AirPodsFilter) -> (v: Vec<DiscoveredDevice>)
        ensures
            models(v@) == keep_matching(
                self.spec_devices(),
                |d: DeviceModel| spec_passes(filter.options@, d),
            ),
    {
        let ghost p = |d: DeviceModel| spec_passes(filter.options@, d);
        let mut v: Vec<DiscoveredDevice> = Vec::new();
        for i in 0..self.devices.len()
            invariant
                p == (|d: DeviceModel| spec_passes(filter.options@, d)),
                models(v@) == keep_matching(models(self.devices@).take(i as int), p),
        {
            if filter.matches(&self.devices[i]) {
                v.push(self.devices[i].duplicate());
            }
            assert(models(self.devices@).take(i + 1).drop_last() =~= models(self.devices@).take(
                i as int,
            ));
            assert(models(v@) =~= keep_matching(models(self.devices@).take(i + 1), p));
        }
        assert(models(self.devices@).take(self.devices.len() as int) =~= models(self.devices@));
        v
    }

    /// Get detected AirPods devices matching a filter
    pub fn get_filtered_detected_airpods(&self, filter: &AirPodsFilter) -> (v: Vec<
        DetectedAirPods,
    >)
        ensures
            v@.len() == keep_matching(
                keep_matching(self.spec_devices(), |d: DeviceModel| spec_passes(filter.options@, d)),
                |d: DeviceModel| spec_detects(d),
            ).len(),
            forall|k: int|
                0 <= k < v@.len() ==> spec_detection_of(
                    #[trigger] v@[k],
                    keep_matching(
                        keep_matching(
                            self.spec_devices(),
                            |d: DeviceModel| spec_passes(filter.options@, d),
                        ),
                        |d: DeviceModel| spec_detects(d),
                    )[k],
                ),
    {
        let passing = self.filter_devices(filter);
        detected_in(&passing)
    }

    /// Check if there are any AirPods matching the filter
    pub fn has_airpods_matching(&self, filter: &AirPodsFilter) -> (r: bool)
        ensures
            r == exists|i: int|
                0 <= i < self.spec_devices().len() && spec_passes(
                    filter.options@,
                    #[trigger] self.spec_devices()[i],
                ),
    {
        for i in 0..self.devices.len()
            invariant
                forall|k: int|
                    0 <= k < i ==> !spec_passes(filter.options@, #[trigger] models(self.devices@)[k]),
        {
            if filter.matches(&self.devices[i]) {
                assert(spec_passes(filter.options@, self.spec_devices()[i as int]));
                return true;
            }
        }
        false
    }

    /// Whether an error may go away by trying again
    pub fn is_error_retryable(&self, error: &BluetoothError) -> (r: bool)
        ensures
            r == spec_retryable(*error),
    {
        match error {
            BluetoothError::ConnectionFailed(_) => true,
            BluetoothError::ScanFailed(_) => true,
            BluetoothError::DeviceDisconnected(_) => true,
            BluetoothError::NoAdapter => false,
            BluetoothError::ApiError(_) => true,
            BluetoothError::InvalidData(_) => false,
            BluetoothError::DeviceNotFound(_) => false,
            BluetoothError::PermissionDenied(_) => false,
            BluetoothError::Timeout(_) => true,
            BluetoothError::Other(_) => true,
            BluetoothError::AdapterRefreshFailed { .. } => true,
            BluetoothError::AdapterNotAvailable { .. } => false,
            BluetoothError::AdapterScanFailed { .. } => true,
        }
    }
}

/// Errors that trying again may cure: connection, scan, disconnection, API,
/// timeout, adapter refresh and adapter scan failures, and other errors; not
/// a missing adapter, invalid data, a missing device, a denied permission or
/// an unavailable adapter, which need the user.
pub open spec fn spec_retryable(e: BluetoothError) -> bool {
    match e {
        BluetoothError::NoAdapter => false,
        BluetoothError::InvalidData(_) => false,
        BluetoothError::DeviceNotFound(_) => false,
        BluetoothError::PermissionDenied(_) => false,
        BluetoothError::AdapterNotAvailable { .. } => false,
        _ => true,
    }
}

/// The AirPods detected among devices, in order: those for which detection
/// finds AirPods.
fn detected_in(devices: &Vec<DiscoveredDevice>) -> (v: Vec<DetectedAirPods>)
    ensures
        v@.len() == keep_matching(models(devices@), |d: DeviceModel| spec_detects(d)).len(),
        forall|k: int|
            0 <= k < v@.len() ==> spec_detection_of(
                #[trigger] v@[k],
                keep_matching(models(devices@), |d: DeviceModel| spec_detects(d))[k],
            ),
{
    let ghost p = |d: DeviceModel| spec_detects(d);
    let mut v: Vec<DetectedAirPods> = Vec::new();
    for i in 0..devices.len()
        invariant
            p == (|d: DeviceModel| spec_detects(d)),
            v@.len() == keep_matching(models(devices@).take(i as int), p).len(),
            forall|k: int|
                0 <= k < v@.len() ==> spec_detection_of(
                    #[trigger] v@[k],
                    keep_matching(models(devices@).take(i as int), p)[k],
                ),
    {
        let ghost before = models(devices@).take(i as int);
        assert(models(devices@).take(i + 1).drop_last() =~= before);
        assert(models(devices@).take(i + 1).last() == devices@[i as int]@);
        match detect_airpods(&devices[i]) {
            Ok(Some(a)) => {
                v.push(a);
            },
            _ => {},
        }
    }
    assert(models(devices@).take(devices.len() as int) =~= models(devices@));
    v
}

impl Configurable for BleScanner {
    /// Scan with the application's Bluetooth settings, for at most five cycles.
    fn apply_config(&mut self, config: &AppConfig)
        ensures
            final(self).spec_config().scan_duration == config.bluetooth.scan_duration,
            final(self).spec_config().interval_between_scans == config.bluetooth.scan_interval,
            final(self).spec_config().min_rssi == config.bluetooth.min_rssi,
            final(self).spec_config().max_scan_cycles == Some(5usize),
            final(self).spec_config().auto_stop_scan,
            final(self).spec_config().device_inactive_timeout is None,
            !final(self).spec_config().continuous,
            final(self).spec_devices() == old(self).spec_devices(),
            final(self).spec_scanning() == old(self).spec_scanning(),
            final(self).spec_cycles() == old(self).spec_cycles(),
    {
        let scan_config = ScanConfig::default().with_scan_duration(
            config.bluetooth.scan_duration,
        ).with_interval(config.bluetooth.scan_interval).with_min_rssi(
            config.bluetooth.min_rssi,
        ).with_max_cycles(Some(5));
        self.set_config(scan_config);
    }
}

/// What to do after an attempt to initialize the adapter.
#[derive(Debug)]
pub enum AdapterInitStep {
    /// The adapter is ready.
    Ready,
    /// Wait this long, then try again.
    Retry { delay: Duration },
    /// Give up with this error.
    Failed(BluetoothError),
}

impl BleScannerConfig {
    /// The decision after initialization attempt number `attempt` (counting
    /// from one, of at most `max_retries`) came back: success makes the
    /// adapter ready; a retryable error before the last attempt waits the
    /// retry delay; any other failure gives up: the adapter is not available,
    /// a different one should be selected, and the reason quotes the error.
    pub fn adapter_init_step(&self, attempt: u8, outcome: &Result<(), BluetoothError>) -> (step:
        AdapterInitStep)
        requires
            1 <= attempt <= self.max_retries,
        ensures
            outcome is Ok ==> step is Ready,
            outcome matches Err(e) ==> (if spec_retryable(*e) && attempt < self.max_retries {
                step matches AdapterInitStep::Retry { delay } && delay == self.retry_delay
            } else {
                step matches AdapterInitStep::Failed(BluetoothError::AdapterNotAvailable { reason, recovery })
                    && reason@ == "Failed to initialize adapter: "@ + e.spec_text()
                    && recovery == RecoveryAction::SelectDifferentAdapter
            }),
    {
        match outcome {
            Ok(()) => AdapterInitStep::Ready,
            Err(e) => {
                let retryable = match e {
                    BluetoothError::NoAdapter => false,
                    BluetoothError::InvalidData(_) => false,
                    BluetoothError::DeviceNotFound(_) => false,
                    BluetoothError::PermissionDenied(_) => false,
                    BluetoothError::AdapterNotAvailable { .. } => false,
                    _ => true,
                };
                if retryable && attempt < self.max_retries {
                    AdapterInitStep::Retry { delay: self.retry_delay }
                } else {
                    let t = e.to_text();
                    proof {
                        reveal_strlit("Failed to initialize adapter: ");
                    }
                    AdapterInitStep::Failed(
                        BluetoothError::AdapterNotAvailable {
                            reason: concat2("Failed to initialize adapter: ", t.as_str()),
                            recovery: RecoveryAction::SelectDifferentAdapter,
                        },
                    )
                }
            },
        }
    }
}

/// What became of one turn of the scan task.
#[derive(Debug)]
pub enum ScanCycleOutcome {
    /// The task was asked to stop.
    Cancelled,
    /// Starting the scan took longer than the scan timeout.
    TimedOut,
    /// Starting the scan failed, with the error's text.
    StartFailed(String),
    /// The scan started.
    Started,
}

/// What the scan task does after a turn.
#[derive(Debug)]
pub enum ScanTaskAction {
    /// Stop scanning and end the task.
    Finish,
    /// Wait for the next cycle.
    NextCycle,
    /// Send this event, then wait for the next cycle.
    Report(BleEvent),
    /// Take discovery events until none comes for a while, stop the scan,
    /// then wait for the next cycle.
    Listen,
}

/// The text sent when a scan could not start.
pub open spec fn start_failure_text(error: Seq<char>) -> Seq<char> {
    "Failed to start scan: "@ + error
}

/// The scan task's decision after a turn, given the cycles begun so far: a
/// cancelled task finishes without beginning a cycle; otherwise a cycle is
/// counted, and a timeout waits for the next cycle, a failure to start is
/// reported as an error event, and a started scan listens for devices.
pub fn scan_task_step(cycles: u64, outcome: &ScanCycleOutcome) -> (r: (u64, ScanTaskAction))
    requires
        outcome is Cancelled || cycles < u64::MAX,
    ensures
        outcome is Cancelled ==> r.0 == cycles && r.1 is Finish,
        !(outcome is Cancelled) ==> r.0 == cycles + 1,
        outcome is TimedOut ==> r.1 is NextCycle,
        outcome is Started ==> r.1 is Listen,
        outcome matches ScanCycleOutcome::StartFailed(e) ==> (r.1 matches ScanTaskAction::Report(
            BleEvent::Error(m),
        ) && m@ == start_failure_text(e@)),
{
    match outcome {
        ScanCycleOutcome::Cancelled => (cycles, ScanTaskAction::Finish),
        ScanCycleOutcome::TimedOut => (cycles + 1, ScanTaskAction::NextCycle),
        ScanCycleOutcome::StartFailed(e) => {
            let m = concat2("Failed to start scan: ", e.as_str());
            proof {
                reveal_strlit("Failed to start scan: ");
            }
            (cycles + 1, ScanTaskAction::Report(BleEvent::Error(m)))
        },
        ScanCycleOutcome::Started => (cycles + 1, ScanTaskAction::Listen),
    }
}

/// After a device is recorded, its address is known, a lookup of the address
/// gives the device, and each address is still recorded once.
pub proof fn lemma_recorded_device_found(ds: Seq<DeviceModel>, d: DeviceModel)
    requires
        distinct_addresses(ds),
    ensures
        distinct_addresses(spec_recorded_devices(ds, d)),
        has_address(spec_recorded_devices(ds, d), d.address@),
        spec_recorded_devices(ds, d)[address_index(spec_recorded_devices(ds, d), d.address@)] == d,
{
    let r = spec_recorded_devices(ds, d);
    if has_address(ds, d.address@) {
        let i = address_index(ds, d.address@);
        assert(r[i] == d);
        assert forall|a: int, b: int|
            0 <= a < b < r.len() implies (#[trigger] r[a]).address@ != (#[trigger] r[b]).address@ by {
            if a == i {
                assert(ds[b].address@ != ds[a].address@);
            } else if b == i {
                assert(ds[b].address@ != ds[a].address@);
            }
        }
    } else {
        let i = ds.len() as int;
        assert(r[i] == d);
        assert forall|a: int, b: int|
            0 <= a < b < r.len() implies (#[trigger] r[a]).address@ != (#[trigger] r[b]).address@ by {
            if b == i {
                assert(ds[a].address@ != d.address@);
            }
        }
    }
    let j = address_index(r, d.address@);
    if j != r.len() - 1 && !has_address(ds, d.address@) {
        assert(r[j].address@ == r[r.len() - 1].address@);
    }
    if has_address(ds, d.address@) {
        let i = address_index(ds, d.address@);
        if j != i {
            assert(r[j].address@ == r[i].address@);
        }
    }
}

/// Recording the same report again changes nothing and is reported as
/// unchanged.
pub proof fn lemma_record_again_unchanged(ds: Seq<DeviceModel>, d: DeviceModel)
    requires
        distinct_addresses(ds),
    ensures
        spec_device_change(spec_recorded_devices(ds, d), d) == DeviceChange::Unchanged,
        spec_recorded_devices(spec_recorded_devices(ds, d), d) == spec_recorded_devices(ds, d),
{
    lemma_recorded_device_found(ds, d);
    let r = spec_recorded_devices(ds, d);
    let j = address_index(r, d.address@);
    assert(r.update(j, d) =~= r);
    assert(same_manufacturer_data(d.manufacturer_data, d.manufacturer_data));
}

} // verus!
