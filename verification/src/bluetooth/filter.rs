//! Filters that pick Bluetooth devices out of a scan.

use vstd::prelude::*;

use crate::airpods::filter::models;
use crate::bluetooth::address::BDAddr;
use crate::bluetooth::scanner::{DeviceModel, DiscoveredDevice};
use crate::text::{lowercase_chars, to_lowercase};

verus! {

/// The devices that satisfy `p`, in the order given.
pub open spec fn keep_matching(ds: Seq<DeviceModel>, p: spec_fn(DeviceModel) -> bool) -> Seq<
    DeviceModel,
>
    decreases ds.len(),
{
    if ds.len() == 0 {
        Seq::<DeviceModel>::empty()
    } else {
        let rest = keep_matching(ds.drop_last(), p);
        if p(ds.last()) {
            rest.push(ds.last())
        } else {
            rest
        }
    }
}

/// Filter for Bluetooth devices
pub trait DeviceFilter {
    /// Whether a device with this model passes the filter.
    spec fn spec_matches(&self, d: DeviceModel) -> bool;

    /// Apply the filter to a list of devices
    fn apply_filter(&self, devices: &[DiscoveredDevice]) -> (r: Vec<DiscoveredDevice>)
        ensures
            models(r@) == keep_matching(models(devices@), |d: DeviceModel| self.spec_matches(d)),
    ;

    /// Check if a device passes the filter
    fn matches(&self, device: &DiscoveredDevice) -> (r: bool)
        ensures
            r == self.spec_matches(device@),
    ;
}

/// The devices for which `pred` holds, in the order given; `pred` decides
/// the predicate `p` on device models.
fn keep_devices<P: Fn(&DiscoveredDevice) -> bool>(
    devices: &[DiscoveredDevice],
    pred: P,
    Ghost(p): Ghost<spec_fn(DeviceModel) -> bool>,
) -> (r: Vec<DiscoveredDevice>)
    requires
        forall|d: &DiscoveredDevice| #[trigger] pred.requires((d,)),
        forall|d: &DiscoveredDevice, b: bool| pred.ensures((d,), b) ==> b == p(d@),
    ensures
        models(r@) == keep_matching(models(devices@), p),
{
    let mut kept: Vec<DiscoveredDevice> = Vec::new();
    for i in 0..devices.len()
        invariant
            forall|d: &DiscoveredDevice| #[trigger] pred.requires((d,)),
            forall|d: &DiscoveredDevice, b: bool| pred.ensures((d,), b) ==> b == p(d@),
            models(kept@) == keep_matching(models(devices@).take(i as int), p),
    {
        if pred(&devices[i]) {
            kept.push(devices[i].duplicate());
        }
        assert(models(devices@).take(i + 1).drop_last() =~= models(devices@).take(i as int));
        assert(models(kept@) =~= keep_matching(models(devices@).take(i + 1), p));
    }
    assert(models(devices@).take(devices.len() as int) =~= models(devices@));
    kept
}

/// The characters of each string.
pub open spec fn name_views(v: Seq<String>) -> Seq<Seq<char>> {
    v.map_values(|n: String| n@)
}

/// The bytes of each address.
pub open spec fn addr_views(v: Seq<BDAddr>) -> Seq<Seq<u8>> {
    v.map_values(|a: BDAddr| a@)
}

/// Filter devices by name
pub struct NameFilter {
    names: Vec<String>,
}

impl NameFilter {
    /// The names matched, in lowercase.
    pub closed spec fn spec_names(&self) -> Set<Seq<char>> {
        name_views(self.names@).to_set()
    }

    /// Create a new name filter (names are matched case-insensitively)
    pub fn new(names: Vec<String>) -> (f: Self)
        ensures
            f.spec_names() == names@.map_values(|n: String| lowercase_chars(n@)).to_set(),
    {
        let mut lower: Vec<String> = Vec::new();
        for i in 0..names.len()
            invariant
                name_views(lower@) == names@.take(i as int).map_values(
                    |n: String| lowercase_chars(n@),
                ),
        {
            let t = to_lowercase(names[i].as_str());
            let ghost prev = lower@;
            lower.push(t);
            assert(lower@ == prev.push(t));
            assert(name_views(lower@) =~= name_views(prev).push(t@));
            assert(names@.take(i + 1) =~= names@.take(i as int).push(names@[i as int]));
            assert(name_views(lower@) =~= names@.take(i + 1).map_values(
                |n: String| lowercase_chars(n@),
            ));
        }
        assert(names@.take(names.len() as int) =~= names@);
        NameFilter { names: lower }
    }

    fn contains_name(&self, name: &String) -> (r: bool)
        ensures
            r == self.spec_names().contains(name@),
    {
        for i in 0..self.names.len()
            invariant
                forall|k: int| 0 <= k < i ==> self.names@[k]@ != name@,
        {
            if self.names[i] == *name {
                assert(name_views(self.names@)[i as int] == name@);
                return true;
            }
        }
        proof {
            if self.spec_names().contains(name@) {
                let k = choose|k: int|
                    0 <= k < self.names@.len() && #[trigger] name_views(self.names@)[k] == name@;
                assert(self.names@[k]@ == name@);
            }
        }
        false
    }
}

impl DeviceFilter for NameFilter {
    open spec fn spec_matches(&self, d: DeviceModel) -> bool {
        d.name matches Some(n) && self.spec_names().contains(lowercase_chars(n))
    }

    fn apply_filter(&self, devices: &[DiscoveredDevice]) -> (r: Vec<DiscoveredDevice>) {
        let pred = |d: &DiscoveredDevice| -> (b: bool)
            ensures
                b == self.spec_matches(d@),
            { self.matches(d) };
        keep_devices(devices, pred, Ghost(|d: DeviceModel| self.spec_matches(d)))
    }

    fn matches(&self, device: &DiscoveredDevice) -> (r: bool) {
        match &device.name {
            Some(name) => {
                let lower = to_lowercase(name.as_str());
                self.contains_name(&lower)
            },
            None => false,
        }
    }
}

/// Filter devices by address
pub struct AddressFilter {
    addresses: Vec<BDAddr>,
}

impl AddressFilter {
    /// The addresses matched.
    pub closed spec fn spec_addresses(&self) -> Set<Seq<u8>> {
        addr_views(self.addresses@).to_set()
    }

    /// Create a new address filter
    pub fn new(addresses: Vec<BDAddr>) -> (f: Self)
        ensures
            f.spec_addresses() == addr_views(addresses@).to_set(),
    {
        AddressFilter { addresses }
    }
}

impl DeviceFilter for AddressFilter {
    open spec fn spec_matches(&self, d: DeviceModel) -> bool {
        self.spec_addresses().contains(d.address@)
    }

    fn apply_filter(&self, devices: &[DiscoveredDevice]) -> (r: Vec<DiscoveredDevice>) {
        let pred = |d: &DiscoveredDevice| -> (b: bool)
            ensures
                b == self.spec_matches(d@),
            { self.matches(d) };
        keep_devices(devices, pred, Ghost(|d: DeviceModel| self.spec_matches(d)))
    }

    fn matches(&self, device: &DiscoveredDevice) -> (r: bool) {
        for i in 0..self.addresses.len()
            invariant
                forall|k: int| 0 <= k < i ==> self.addresses@[k]@ != device.address@,
        {
            if self.addresses[i] == device.address {
                assert(addr_views(self.addresses@)[i as int] == device.address@);
                return true;
            }
        }
        proof {
            if self.spec_addresses().contains(device.address@) {
                let k = choose|k: int|
                    0 <= k < self.addresses@.len() && #[trigger] addr_views(self.addresses@)[k] == device.address@;
                assert(self.addresses@[k]@ == device.address@);
            }
        }
        false
    }
}

/// Filter devices by RSSI (signal strength)
pub struct RssiFilter {
    min_rssi: i16,
}

impl RssiFilter {
    /// The weakest signal that passes.
    pub closed spec fn spec_min_rssi(&self) -> i16 {
        self.min_rssi
    }

    /// Create a new RSSI filter
    pub fn new(min_rssi: i16) -> (f: Self)
        ensures
            f.spec_min_rssi() == min_rssi,
    {
        RssiFilter { min_rssi }
    }
}

impl DeviceFilter for RssiFilter {
    open spec fn spec_matches(&self, d: DeviceModel) -> bool {
        d.rssi matches Some(r) && r >= self.spec_min_rssi()
    }

    fn apply_filter(&self, devices: &[DiscoveredDevice]) -> (r: Vec<DiscoveredDevice>) {
        let pred = |d: &DiscoveredDevice| -> (b: bool)
            ensures
                b == self.spec_matches(d@),
            { self.matches(d) };
        keep_devices(devices, pred, Ghost(|d: DeviceModel| self.spec_matches(d)))
    }

    fn matches(&self, device: &DiscoveredDevice) -> (r: bool) {
        match device.rssi {
            Some(rssi) => rssi >= self.min_rssi,
            None => false,
        }
    }
}

/// Composite filter that combines multiple filters (all must pass)
pub struct CompositeFilter {
    filters: Vec<Box<dyn DeviceFilter>>,
}

impl CompositeFilter {
    /// The filters combined.
    pub closed spec fn spec_filters(&self) -> Seq<Box<dyn DeviceFilter>> {
        self.filters@
    }

    /// Create a new composite filter
    pub fn new(filters: Vec<Box<dyn DeviceFilter>>) -> (f: Self)
        ensures
            f.spec_filters() == filters@,
    {
        CompositeFilter { filters }
    }
}

impl DeviceFilter for CompositeFilter {
    open spec fn spec_matches(&self, d: DeviceModel) -> bool {
        forall|i: int| 0 <= i < self.spec_filters().len() ==> #[trigger] self.spec_filters()[i].spec_matches(d)
    }

    fn apply_filter(&self, devices: &[DiscoveredDevice]) -> (r: Vec<DiscoveredDevice>) {
        let pred = |d: &DiscoveredDevice| -> (b: bool)
            ensures
                b == self.spec_matches(d@),
            { self.matches(d) };
        keep_devices(devices, pred, Ghost(|d: DeviceModel| self.spec_matches(d)))
    }

    fn matches(&self, device: &DiscoveredDevice) -> (r: bool) {
        for i in 0..self.filters.len()
            invariant
                forall|k: int| 0 <= k < i ==> #[trigger] self.filters@[k].spec_matches(device@),
        {
            if !self.filters[i].matches(device) {
                assert(!self.spec_filters()[i as int].spec_matches(device@));
                return false;
            }
        }
        true
    }
}

} // verus!
