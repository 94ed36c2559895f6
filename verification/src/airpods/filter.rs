//! Filtering and ranking of discovered AirPods.

use vstd::prelude::*;

use crate::airpods::detector::{identify_airpods_type, spec_identify, APPLE_COMPANY_ID};
use crate::airpods::{parse_airpods_data, spec_has_battery_data, AirPodsType};
use crate::bluetooth::scanner::{DeviceModel, DiscoveredDevice};
use crate::text::{lowercase_chars, seq_contains, str_contains, to_lowercase};
use crate::time::{duration_as_secs, instant_duration_since, instant_now};

verus! {

broadcast use vstd::std_specs::hash::group_hash_axioms;

/// Advanced filter options for AirPods device detection
#[derive(Debug)]
pub struct AirPodsFilterOptions {
    /// Filter by specific device models
    pub model_types: Option<Vec<AirPodsType>>,
    /// Minimum RSSI (signal strength) value
    pub min_rssi: Option<i16>,
    /// Enable name-based filtering
    pub name_contains: Option<String>,
    /// Maximum number of devices to return
    pub max_devices: Option<usize>,
    /// Sort devices by RSSI strength (strongest first)
    pub sort_by_signal_strength: bool,
    /// Only include devices seen within this many seconds
    pub max_age_seconds: Option<u64>,
    /// Exclude devices with unknown battery levels
    pub require_battery_info: bool,
}

/// What a filter reads of its options.
pub struct FilterModel {
    pub model_types: Option<Seq<AirPodsType>>,
    pub min_rssi: Option<i16>,
    pub name_contains: Option<Seq<char>>,
    pub max_devices: Option<usize>,
    pub sort_by_signal_strength: bool,
    pub max_age_seconds: Option<u64>,
    pub require_battery_info: bool,
}

impl View for AirPodsFilterOptions {
    type V = FilterModel;

    open spec fn view(&self) -> FilterModel {
        FilterModel {
            model_types: match self.model_types {
                Some(v) => Some(v@),
                None => None,
            },
            min_rssi: self.min_rssi,
            name_contains: match self.name_contains {
                Some(n) => Some(n@),
                None => None,
            },
            max_devices: self.max_devices,
            sort_by_signal_strength: self.sort_by_signal_strength,
            max_age_seconds: self.max_age_seconds,
            require_battery_info: self.require_battery_info,
        }
    }
}

/// The default options: signal at least -80, seen within a minute, strongest first.
pub open spec fn spec_default_filter() -> FilterModel {
    FilterModel {
        model_types: None,
        min_rssi: Some(-80i16),
        name_contains: None,
        max_devices: None,
        sort_by_signal_strength: true,
        max_age_seconds: Some(60u64),
        require_battery_info: false,
    }
}

/// Whether a device passes every check of the options except the age check.
pub open spec fn spec_passes(f: FilterModel, d: DeviceModel) -> bool {
    let data = d.manufacturer_data[APPLE_COMPANY_ID]@;
    &&& d.manufacturer_data.contains_key(APPLE_COMPANY_ID)
    &&& (f.min_rssi matches Some(m) ==> (d.rssi matches Some(r) && r >= m))
    &&& (f.name_contains matches Some(text) ==> (d.name matches Some(n) && seq_contains(
        lowercase_chars(n),
        lowercase_chars(text),
    )))
    &&& (f.model_types matches Some(ms) ==> (data.len() >= 2 && ms.contains(
        spec_identify(d.name, data),
    ) && spec_identify(d.name, data) != AirPodsType::Unknown))
    &&& (f.require_battery_info ==> spec_has_battery_data(data))
}

/// Whether a device seen `age` seconds ago is recent enough.
pub open spec fn spec_recent(f: FilterModel, age: u64) -> bool {
    f.max_age_seconds matches Some(max) ==> age <= max
}

/// The models of a sequence of devices.
pub open spec fn models(v: Seq<DiscoveredDevice>) -> Seq<DeviceModel> {
    v.map_values(|d: DiscoveredDevice| d@)
}

/// The devices that pass the filter, in the order given.
pub open spec fn spec_kept(f: FilterModel, ds: Seq<DeviceModel>, ages: Seq<u64>) -> Seq<
    DeviceModel,
>
    decreases ds.len(),
{
    if ds.len() == 0 {
        Seq::empty()
    } else {
        let prev = spec_kept(f, ds.drop_last(), ages.drop_last());
        if spec_passes(f, ds.last()) && spec_recent(f, ages.last()) {
            prev.push(ds.last())
        } else {
            prev
        }
    }
}

/// The key by which devices are ranked: the signal, an unknown signal lowest.
pub open spec fn signal_key(d: DeviceModel) -> i16 {
    match d.rssi {
        Some(r) => r,
        None => i16::MIN,
    }
}

/// Insertion of `x` into a ranking, after every device ranked at least as high.
pub open spec fn insert_ranked(s: Seq<DeviceModel>, x: DeviceModel) -> Seq<DeviceModel>
    decreases s.len(),
{
    if s.len() == 0 {
        seq![x]
    } else if signal_key(s.last()) >= signal_key(x) {
        s.push(x)
    } else {
        insert_ranked(s.drop_last(), x).push(s.last())
    }
}

/// The stable ranking of devices by signal, strongest first.
pub open spec fn rank_by_signal(s: Seq<DeviceModel>) -> Seq<DeviceModel>
    decreases s.len(),
{
    if s.len() == 0 {
        Seq::empty()
    } else {
        insert_ranked(rank_by_signal(s.drop_last()), s.last())
    }
}

/// The outcome of applying the options to devices with the given ages.
pub open spec fn spec_apply(f: FilterModel, ds: Seq<DeviceModel>, ages: Seq<u64>) -> Seq<
    DeviceModel,
> {
    let kept = spec_kept(f, ds, ages);
    let ranked = if f.sort_by_signal_strength {
        rank_by_signal(kept)
    } else {
        kept
    };
    match f.max_devices {
        Some(max) => if max < ranked.len() {
            ranked.take(max as int)
        } else {
            ranked
        },
        None => ranked,
    }
}

/// A copy of a list of models.
fn copy_models(v: &Vec<AirPodsType>) -> (r: Vec<AirPodsType>)
    ensures
        r@ == v@,
{
    let mut r: Vec<AirPodsType> = Vec::new();
    for i in 0..v.len()
        invariant
            r@ == v@.take(i as int),
    {
        r.push(v[i]);
    }
    r
}

/// Whether a model occurs in a list.
fn contains_model(v: &Vec<AirPodsType>, t: AirPodsType) -> (r: bool)
    ensures
        r == v@.contains(t),
{
    for i in 0..v.len()
        invariant
            forall|k: int| 0 <= k < i ==> v@[k] != t,
    {
        if v[i] == t {
            return true;
        }
    }
    false
}

/// The signal key of a device.
fn device_key(d: &DiscoveredDevice) -> (k: i16)
    ensures
        k == signal_key(d@),
{
    match d.rssi {
        Some(r) => r,
        None => i16::MIN,
    }
}

proof fn lemma_insert_ranked_at(s: Seq<DeviceModel>, x: DeviceModel, j: int)
    requires
        0 <= j <= s.len(),
        forall|k: int| j <= k < s.len() ==> signal_key(#[trigger] s[k]) < signal_key(x),
        j > 0 ==> signal_key(s[j - 1]) >= signal_key(x),
    ensures
        insert_ranked(s, x) == s.insert(j, x),
    decreases s.len(),
{
    if s.len() == 0 {
        assert(seq![x] =~= s.insert(j, x));
    } else if j == s.len() {
        assert(s.push(x) =~= s.insert(j, x));
    } else {
        lemma_insert_ranked_at(s.drop_last(), x, j);
        assert(s.drop_last().insert(j, x).push(s.last()) =~= s.insert(j, x));
    }
}

/// Insert a device into a ranking, after every device ranked at least as high.
fn insert_by_signal(out: &mut Vec<DiscoveredDevice>, x: DiscoveredDevice)
    ensures
        models(final(out)@) == insert_ranked(models(old(out)@), x@),
{
    let ghost s = models(out@);
    let kx = device_key(&x);
    let mut j = out.len();
    while j > 0 && device_key(&out[j - 1]) < kx
        invariant
            s == models(out@),
            0 <= j <= out@.len(),
            kx == signal_key(x@),
            forall|k: int| j <= k < s.len() ==> signal_key(#[trigger] s[k]) < kx,
        decreases j,
    {
        j = j - 1;
    }
    proof {
        lemma_insert_ranked_at(s, x@, j as int);
    }
    out.insert(j, x);
    assert(models(out@) =~= s.insert(j as int, x@));
}

/// Rank devices by signal strength, strongest first, keeping the order of equals.
pub fn sort_by_signal(v: &Vec<DiscoveredDevice>) -> (r: Vec<DiscoveredDevice>)
    ensures
        models(r@) == rank_by_signal(models(v@)),
{
    let mut out: Vec<DiscoveredDevice> = Vec::new();
    for i in 0..v.len()
        invariant
            models(out@) == rank_by_signal(models(v@).take(i as int)),
    {
        let x = v[i].duplicate();
        insert_by_signal(&mut out, x);
        assert(models(v@).take(i + 1).drop_last() =~= models(v@).take(i as int));
    }
    assert(models(v@).take(v.len() as int) =~= models(v@));
    out
}

impl AirPodsFilterOptions {
    /// A copy of the options.
    pub fn duplicate(&self) -> (o: Self)
        ensures
            o@ == self@,
    {
        AirPodsFilterOptions {
            model_types: match &self.model_types {
                Some(v) => Some(copy_models(v)),
                None => None,
            },
            min_rssi: self.min_rssi,
            name_contains: match &self.name_contains {
                Some(n) => Some(n.clone()),
                None => None,
            },
            max_devices: self.max_devices,
            sort_by_signal_strength: self.sort_by_signal_strength,
            max_age_seconds: self.max_age_seconds,
            require_battery_info: self.require_battery_info,
        }
    }

    /// Create a new default AirPods filter
    pub fn new() -> (o: Self)
        ensures
            o@ == spec_default_filter(),
    {
        AirPodsFilterOptions {
            model_types: None,
            min_rssi: Some(-80),
            name_contains: None,
            max_devices: None,
            sort_by_signal_strength: true,
            max_age_seconds: Some(60),
            require_battery_info: false,
        }
    }

    /// Filter for only specific AirPods models
    pub fn with_models(self, models: Vec<AirPodsType>) -> (o: Self)
        ensures
            o@ == (FilterModel { model_types: Some(models@), ..self@ }),
    {
        AirPodsFilterOptions { model_types: Some(models), ..self }
    }

    /// Set minimum signal strength to include
    pub fn with_min_rssi(self, rssi: i16) -> (o: Self)
        ensures
            o@ == (FilterModel { min_rssi: Some(rssi), ..self@ }),
    {
        AirPodsFilterOptions { min_rssi: Some(rssi), ..self }
    }

    /// Filter by device name containing specific text
    pub fn with_name_containing(self, text: &str) -> (o: Self)
        ensures
            o@ == (FilterModel { name_contains: Some(text@), ..self@ }),
    {
        AirPodsFilterOptions { name_contains: Some(text.to_owned()), ..self }
    }

    /// Limit maximum number of results
    pub fn with_max_devices(self, count: usize) -> (o: Self)
        ensures
            o@ == (FilterModel { max_devices: Some(count), ..self@ }),
    {
        AirPodsFilterOptions { max_devices: Some(count), ..self }
    }

    /// Set whether to sort by signal strength
    pub fn with_signal_strength_sorting(self, enabled: bool) -> (o: Self)
        ensures
            o@ == (FilterModel { sort_by_signal_strength: enabled, ..self@ }),
    {
        AirPodsFilterOptions { sort_by_signal_strength: enabled, ..self }
    }

    /// Only include devices seen within the specified time period
    pub fn with_max_age(self, seconds: u64) -> (o: Self)
        ensures
            o@ == (FilterModel { max_age_seconds: Some(seconds), ..self@ }),
    {
        AirPodsFilterOptions { max_age_seconds: Some(seconds), ..self }
    }

    /// Only include devices with valid battery information
    pub fn with_battery_info(self, required: bool) -> (o: Self)
        ensures
            o@ == (FilterModel { require_battery_info: required, ..self@ }),
    {
        AirPodsFilterOptions { require_battery_info: required, ..self }
    }

    /// Whether a device passes every check of the options except the age check.
    pub fn passes(&self, device: &DiscoveredDevice) -> (r: bool)
        ensures
            r == spec_passes(self@, device@),
    {
        let data = match device.manufacturer_data.get(&APPLE_COMPANY_ID) {
            Some(data) => data,
            None => return false,
        };
        if let Some(min_rssi) = self.min_rssi {
            match device.rssi {
                Some(rssi) => {
                    if rssi < min_rssi {
                        return false;
                    }
                },
                None => return false,
            }
        }
        if let Some(name_filter) = &self.name_contains {
            match &device.name {
                Some(name) => {
                    let lower_name = to_lowercase(name.as_str());
                    let lower_filter = to_lowercase(name_filter.as_str());
                    if !str_contains(lower_name.as_str(), lower_filter.as_str()) {
                        return false;
                    }
                },
                None => return false,
            }
        }
        if let Some(model_types) = &self.model_types {
            match identify_airpods_type(&device.name, data.as_slice()) {
                Ok(device_type) => {
                    if !contains_model(model_types, device_type) || device_type
                        == AirPodsType::Unknown {
                        return false;
                    }
                },
                Err(_) => return false,
            }
        }
        if self.require_battery_info {
            if parse_airpods_data(data.as_slice()).is_err() {
                return false;
            }
        }
        true
    }

    /// Apply the filter to devices whose ages, in whole seconds since they were
    /// last seen, are given; then rank and limit the result as configured.
    pub fn apply_filter_with_ages(&self, devices: &[DiscoveredDevice], ages: &[u64]) -> (r: Vec<
        DiscoveredDevice,
    >)
        requires
            ages@.len() == devices@.len(),
        ensures
            models(r@) == spec_apply(self@, models(devices@), ages@),
    {
        let mut kept: Vec<DiscoveredDevice> = Vec::new();
        for i in 0..devices.len()
            invariant
                ages@.len() == devices@.len(),
                models(kept@) == spec_kept(
                    self@,
                    models(devices@).take(i as int),
                    ages@.take(i as int),
                ),
        {
            let recent = match self.max_age_seconds {
                Some(max_age) => ages[i] <= max_age,
                None => true,
            };
            if self.passes(&devices[i]) && recent {
                kept.push(devices[i].duplicate());
            }
            assert(models(devices@).take(i + 1).drop_last() =~= models(devices@).take(i as int));
            assert(ages@.take(i + 1).drop_last() =~= ages@.take(i as int));
            assert(models(kept@) =~= spec_kept(
                self@,
                models(devices@).take(i + 1),
                ages@.take(i + 1),
            ));
        }
        assert(models(devices@).take(devices.len() as int) =~= models(devices@));
        assert(ages@.take(devices.len() as int) =~= ages@);
        let mut ranked = if self.sort_by_signal_strength {
            sort_by_signal(&kept)
        } else {
            kept
        };
        if let Some(max) = self.max_devices {
            let ghost before = ranked@;
            ranked.truncate(max);
            assert(max < before.len() ==> models(ranked@) =~= models(before).take(max as int));
        }
        ranked
    }

    /// Apply the filter to a list of discovered devices, judging their age by
    /// the clock now.
    pub fn apply_filter(&self, devices: &[DiscoveredDevice]) -> (r: Result<
        Vec<DiscoveredDevice>,
        crate::error::AirPodsError,
    >)
        ensures
            r matches Ok(v) && exists|ages: Seq<u64>|
                ages.len() == devices@.len() && models(v@) == spec_apply(
                    self@,
                    models(devices@),
                    ages,
                ),
    {
        let now = instant_now();
        let mut ages: Vec<u64> = Vec::new();
        for i in 0..devices.len()
            invariant
                ages@.len() == i,
        {
            let age = instant_duration_since(&now, &devices[i].last_seen);
            ages.push(duration_as_secs(&age));
        }
        let v = self.apply_filter_with_ages(devices, ages.as_slice());
        Ok(v)
    }

    /// Creates a filter function for use with the scanner
    pub fn create_filter_function(&self) -> (f: AirPodsFilter)
        ensures
            f.options@ == self@,
    {
        AirPodsFilter { options: self.duplicate() }
    }
}

impl Default for AirPodsFilterOptions {
    fn default() -> (o: Self)
        ensures
            o@ == spec_default_filter(),
    {
        AirPodsFilterOptions::new()
    }
}

impl Clone for AirPodsFilterOptions {
    fn clone(&self) -> (o: Self)
        ensures
            o@ == self@,
    {
        self.duplicate()
    }
}

/// A predicate over discovered devices, built from filter options.
#[derive(Debug)]
pub struct AirPodsFilter {
    /// The options the predicate checks.
    pub options: AirPodsFilterOptions,
}

impl AirPodsFilter {
    /// Whether the device passes the filter: Apple manufacturer data, signal,
    /// name, model and battery checks as configured (age is not checked).
    pub fn matches(&self, device: &DiscoveredDevice) -> (r: bool)
        ensures
            r == spec_passes(self.options@, device@),
    {
        self.options.passes(device)
    }
}

/// The models of every AirPods generation.
pub open spec fn all_models() -> Seq<AirPodsType> {
    seq![
        AirPodsType::AirPods1,
        AirPodsType::AirPods2,
        AirPodsType::AirPods3,
        AirPodsType::AirPodsPro,
        AirPodsType::AirPodsPro2,
        AirPodsType::AirPodsMax,
    ]
}

/// Create a filter for all AirPods models
pub fn airpods_all_models_filter() -> (f: AirPodsFilter)
    ensures
        f.options@ == (FilterModel { model_types: Some(all_models()), ..spec_default_filter() }),
{
    let models = vec![
        AirPodsType::AirPods1,
        AirPodsType::AirPods2,
        AirPodsType::AirPods3,
        AirPodsType::AirPodsPro,
        AirPodsType::AirPodsPro2,
        AirPodsType::AirPodsMax,
    ];
    assert(models@ =~= all_models());
    let options = AirPodsFilterOptions::new().with_models(models);
    options.create_filter_function()
}

/// Create a filter for AirPods Pro models only
pub fn airpods_pro_filter() -> (f: AirPodsFilter)
    ensures
        f.options@ == (FilterModel {
            model_types: Some(seq![AirPodsType::AirPodsPro, AirPodsType::AirPodsPro2]),
            ..spec_default_filter()
        }),
{
    let models = vec![AirPodsType::AirPodsPro, AirPodsType::AirPodsPro2];
    assert(models@ =~= seq![AirPodsType::AirPodsPro, AirPodsType::AirPodsPro2]);
    let options = AirPodsFilterOptions::new().with_models(models);
    options.create_filter_function()
}

/// Create a filter for nearby AirPods (based on signal strength)
pub fn airpods_nearby_filter(min_rssi: i16) -> (f: AirPodsFilter)
    ensures
        f.options@ == (FilterModel { min_rssi: Some(min_rssi), ..spec_default_filter() }),
{
    let options = AirPodsFilterOptions::new().with_min_rssi(min_rssi);
    options.create_filter_function()
}

/// Create a filter for AirPods with battery information
pub fn airpods_with_battery_filter() -> (f: AirPodsFilter)
    ensures
        f.options@ == (FilterModel { require_battery_info: true, ..spec_default_filter() }),
{
    let options = AirPodsFilterOptions::new().with_battery_info(true);
    options.create_filter_function()
}

/// Devices ordered by signal, strongest first.
pub open spec fn is_ranked(s: Seq<DeviceModel>) -> bool {
    forall|i: int, j: int| 0 <= i < j < s.len() ==> signal_key(#[trigger] s[i]) >= signal_key(
        #[trigger] s[j],
    )
}

proof fn lemma_kept_members(f: FilterModel, ds: Seq<DeviceModel>, ages: Seq<u64>)
    ensures
        forall|y: DeviceModel| #[trigger]
            spec_kept(f, ds, ages).contains(y) ==> spec_passes(f, y) && ds.contains(y),
        spec_kept(f, ds, ages).len() <= ds.len(),
    decreases ds.len(),
{
    if ds.len() > 0 {
        lemma_kept_members(f, ds.drop_last(), ages.drop_last());
        let prev = spec_kept(f, ds.drop_last(), ages.drop_last());
        assert forall|y: DeviceModel| #[trigger]
            spec_kept(f, ds, ages).contains(y) implies spec_passes(f, y) && ds.contains(y) by {
            if prev.contains(y) {
                let k = choose|k: int| 0 <= k < prev.len() && prev[k] == y;
                assert(ds.drop_last().contains(y));
                let m = choose|m: int| 0 <= m < ds.drop_last().len() && ds.drop_last()[m] == y;
                assert(ds[m] == y);
            } else {
                let k = choose|k: int| 0 <= k < spec_kept(f, ds, ages).len() && spec_kept(f, ds, ages)[k] == y;
                assert(y == ds.last());
                assert(ds[ds.len() - 1] == y);
            }
        }
    }
}

proof fn lemma_insert_ranked_props(s: Seq<DeviceModel>, x: DeviceModel)
    ensures
        insert_ranked(s, x).len() == s.len() + 1,
        forall|y: DeviceModel| #[trigger]
            insert_ranked(s, x).contains(y) ==> s.contains(y) || y == x,
        is_ranked(s) ==> is_ranked(insert_ranked(s, x)),
        insert_ranked(s, x).len() > 0,
        s.len() > 0 ==> (insert_ranked(s, x).last() == s.last() || insert_ranked(s, x).last()
            == x),
    decreases s.len(),
{
    if s.len() == 0 {
        assert forall|y: DeviceModel| #[trigger] insert_ranked(s, x).contains(y) implies s.contains(y)
            || y == x by {
            assert(insert_ranked(s, x) =~= seq![x]);
        }
    } else if signal_key(s.last()) >= signal_key(x) {
        let r = s.push(x);
        assert forall|y: DeviceModel| #[trigger] r.contains(y) implies s.contains(y) || y == x by {
            let k = choose|k: int| 0 <= k < r.len() && r[k] == y;
            if k < s.len() {
                assert(s[k] == y);
            }
        }
        if is_ranked(s) {
            assert forall|i: int, j: int| 0 <= i < j < r.len() implies signal_key(#[trigger] r[i])
                >= signal_key(#[trigger] r[j]) by {
                if j == s.len() {
                    assert(signal_key(s[i]) >= signal_key(s[s.len() - 1]));
                }
            }
        }
    } else {
        let t = s.drop_last();
        lemma_insert_ranked_props(t, x);
        let it = insert_ranked(t, x);
        let r = it.push(s.last());
        assert forall|y: DeviceModel| #[trigger] r.contains(y) implies s.contains(y) || y == x by {
            let k = choose|k: int| 0 <= k < r.len() && r[k] == y;
            if k < it.len() {
                assert(it.contains(y));
                if t.contains(y) {
                    let m = choose|m: int| 0 <= m < t.len() && t[m] == y;
                    assert(s[m] == y);
                }
            } else {
                assert(s[s.len() - 1] == y);
            }
        }
        if is_ranked(s) {
            assert(is_ranked(t)) by {
                assert forall|i: int, j: int| 0 <= i < j < t.len() implies signal_key(
                    #[trigger] t[i],
                ) >= signal_key(#[trigger] t[j]) by {
                    assert(t[i] == s[i] && t[j] == s[j]);
                }
            }
            assert forall|i: int, j: int| 0 <= i < j < r.len() implies signal_key(#[trigger] r[i])
                >= signal_key(#[trigger] r[j]) by {
                if j == it.len() {
                    let y = it[i];
                    assert(it.contains(y));
                    if t.contains(y) {
                        let m = choose|m: int| 0 <= m < t.len() && t[m] == y;
                        assert(signal_key(s[m]) >= signal_key(s[s.len() - 1]));
                    }
                }
            }
        }
    }
}

proof fn lemma_rank_props(s: Seq<DeviceModel>)
    ensures
        rank_by_signal(s).len() == s.len(),
        forall|y: DeviceModel| #[trigger] rank_by_signal(s).contains(y) ==> s.contains(y),
        is_ranked(rank_by_signal(s)),
    decreases s.len(),
{
    if s.len() > 0 {
        let t = s.drop_last();
        lemma_rank_props(t);
        lemma_insert_ranked_props(rank_by_signal(t), s.last());
        assert forall|y: DeviceModel| #[trigger] rank_by_signal(s).contains(y) implies s.contains(
            y,
        ) by {
            if rank_by_signal(t).contains(y) {
                let m = choose|m: int| 0 <= m < t.len() && t[m] == y;
                assert(s[m] == y);
            } else {
                assert(s[s.len() - 1] == y);
            }
        }
    }
}

proof fn lemma_insert_ranked_multiset(s: Seq<DeviceModel>, x: DeviceModel)
    ensures
        insert_ranked(s, x).to_multiset() =~= s.to_multiset().insert(x),
    decreases s.len(),
{
    broadcast use vstd::seq_lib::group_to_multiset_ensures;
    broadcast use vstd::multiset::group_multiset_axioms;

    if s.len() == 0 {
        assert(seq![x] =~= Seq::<DeviceModel>::empty().push(x));
    } else if signal_key(s.last()) >= signal_key(x) {
    } else {
        let t = s.drop_last();
        lemma_insert_ranked_multiset(t, x);
        assert(s =~= t.push(s.last()));
        assert(insert_ranked(s, x) == insert_ranked(t, x).push(s.last()));
        assert(s.to_multiset() =~= t.to_multiset().insert(s.last()));
    }
}

/// Ranking by signal only reorders: the ranked devices are the same devices,
/// each as many times as before.
pub proof fn lemma_rank_by_signal_permutes(s: Seq<DeviceModel>)
    ensures
        rank_by_signal(s).to_multiset() =~= s.to_multiset(),
    decreases s.len(),
{
    broadcast use vstd::seq_lib::group_to_multiset_ensures;

    if s.len() > 0 {
        let t = s.drop_last();
        lemma_rank_by_signal_permutes(t);
        lemma_insert_ranked_multiset(rank_by_signal(t), s.last());
        assert(s =~= t.push(s.last()));
    }
}

/// Every device that passes the checks and is recent enough is kept.
pub proof fn lemma_kept_complete(f: FilterModel, ds: Seq<DeviceModel>, ages: Seq<u64>)
    requires
        ages.len() == ds.len(),
    ensures
        forall|i: int|
            0 <= i < ds.len() && spec_passes(f, #[trigger] ds[i]) && spec_recent(f, ages[i])
                ==> spec_kept(f, ds, ages).contains(ds[i]),
    decreases ds.len(),
{
    if ds.len() > 0 {
        let dl = ds.drop_last();
        let al = ages.drop_last();
        lemma_kept_complete(f, dl, al);
        let prev = spec_kept(f, dl, al);
        assert forall|i: int|
            0 <= i < ds.len() && spec_passes(f, #[trigger] ds[i]) && spec_recent(f, ages[i])
                implies spec_kept(f, ds, ages).contains(ds[i]) by {
            if i < ds.len() - 1 {
                assert(dl[i] == ds[i] && al[i] == ages[i]);
                let k = choose|k: int| 0 <= k < prev.len() && prev[k] == dl[i];
                if spec_passes(f, ds.last()) && spec_recent(f, ages.last()) {
                    assert(prev.push(ds.last())[k] == ds[i]);
                }
            } else {
                assert(spec_kept(f, ds, ages).last() == ds[i]);
            }
        }
    }
}

/// Without a limit, applying the options returns exactly the devices that
/// pass the checks and are recent enough (ranked or in the given order): every
/// such device is in the result, and the result holds each kept device as
/// many times as it was kept.
pub proof fn lemma_apply_filter_complete(f: FilterModel, ds: Seq<DeviceModel>, ages: Seq<u64>)
    requires
        ages.len() == ds.len(),
        f.max_devices is None,
    ensures
        spec_apply(f, ds, ages).to_multiset() =~= spec_kept(f, ds, ages).to_multiset(),
        forall|i: int|
            0 <= i < ds.len() && spec_passes(f, #[trigger] ds[i]) && spec_recent(f, ages[i])
                ==> spec_apply(f, ds, ages).contains(ds[i]),
{
    broadcast use vstd::seq_lib::group_to_multiset_ensures;

    let kept = spec_kept(f, ds, ages);
    lemma_kept_complete(f, ds, ages);
    lemma_rank_by_signal_permutes(kept);
    assert forall|i: int|
        0 <= i < ds.len() && spec_passes(f, #[trigger] ds[i]) && spec_recent(f, ages[i])
            implies spec_apply(f, ds, ages).contains(ds[i]) by {
        assert(kept.contains(ds[i]));
        assert(kept.to_multiset().count(ds[i]) > 0);
        assert(spec_apply(f, ds, ages).to_multiset().count(ds[i]) > 0);
    }
}

/// The checks a device must pass: it carries Apple manufacturer data, and
/// with a minimum signal its signal is known and at least that minimum; with
/// no other check set, such a device passes.
pub proof fn lemma_passes_rules(f: FilterModel, d: DeviceModel)
    ensures
        !d.manufacturer_data.contains_key(APPLE_COMPANY_ID) ==> !spec_passes(f, d),
        (f.min_rssi is Some && (d.rssi is None || d.rssi->0 < f.min_rssi->0)) ==> !spec_passes(
            f,
            d,
        ),
        (d.manufacturer_data.contains_key(APPLE_COMPANY_ID) && (f.min_rssi is None || (d.rssi is Some
            && d.rssi->0 >= f.min_rssi->0)) && f.name_contains is None && f.model_types is None
            && !f.require_battery_info) ==> spec_passes(f, d),
{
}

/// The signal of a device as a number, an unknown signal counting as the
/// weakest possible one.
pub open spec fn rssi_or_weakest(d: DeviceModel) -> int {
    match d.rssi {
        Some(r) => r as int,
        None => i16::MIN as int,
    }
}

/// With ranking enabled, the devices come out strongest signal first: the
/// signal of an earlier device is at least that of a later one (an unknown
/// signal counting as the weakest).
pub proof fn lemma_apply_filter_strongest_first(f: FilterModel, ds: Seq<DeviceModel>, ages: Seq<u64>)
    requires
        f.sort_by_signal_strength,
    ensures
        forall|i: int, j: int|
            0 <= i < j < spec_apply(f, ds, ages).len() ==> rssi_or_weakest(
                #[trigger] spec_apply(f, ds, ages)[i],
            ) >= rssi_or_weakest(#[trigger] spec_apply(f, ds, ages)[j]),
{
    lemma_apply_filter_sound(f, ds, ages);
    let r = spec_apply(f, ds, ages);
    assert forall|i: int, j: int| 0 <= i < j < r.len() implies rssi_or_weakest(#[trigger] r[i])
        >= rssi_or_weakest(#[trigger] r[j]) by {
        assert(signal_key(r[i]) >= signal_key(r[j]));
    }
}

/// Applying filter options keeps only devices that pass every check and are
/// recent enough, takes them from the input, ranks them strongest first when
/// ranking is enabled, and returns at most the configured number of devices.
pub proof fn lemma_apply_filter_sound(f: FilterModel, ds: Seq<DeviceModel>, ages: Seq<u64>)
    ensures
        forall|y: DeviceModel| #[trigger]
            spec_apply(f, ds, ages).contains(y) ==> spec_passes(f, y) && ds.contains(y),
        f.sort_by_signal_strength ==> is_ranked(spec_apply(f, ds, ages)),
        f.max_devices matches Some(max) ==> spec_apply(f, ds, ages).len() <= max,
        spec_apply(f, ds, ages).len() <= ds.len(),
{
    let kept = spec_kept(f, ds, ages);
    lemma_kept_members(f, ds, ages);
    lemma_rank_props(kept);
    let ranked = if f.sort_by_signal_strength {
        rank_by_signal(kept)
    } else {
        kept
    };
    assert forall|y: DeviceModel| #[trigger] ranked.contains(y) implies kept.contains(y) by {}
    assert forall|y: DeviceModel| #[trigger]
        spec_apply(f, ds, ages).contains(y) implies spec_passes(f, y) && ds.contains(y) by {
        let r = spec_apply(f, ds, ages);
        let k = choose|k: int| 0 <= k < r.len() && r[k] == y;
        assert(ranked[k] == y);
        assert(ranked.contains(y));
    }
    if f.sort_by_signal_strength {
        let r = spec_apply(f, ds, ages);
        assert forall|i: int, j: int| 0 <= i < j < r.len() implies signal_key(#[trigger] r[i])
            >= signal_key(#[trigger] r[j]) by {
            assert(r[i] == ranked[i] && r[j] == ranked[j]);
        }
    }
}

} // verus!
