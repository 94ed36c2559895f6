//! Bluetooth adapters: their capabilities, the choice among them, and the
//! history of their status.

use std::time::{Duration, Instant};
use vstd::prelude::*;

use crate::bluetooth::address::{spec_addr_text, BDAddr};
use crate::error::{BluetoothError, RecoveryAction};
use crate::text::{
    concat2, concat3, decimal_chars, decimal_string, lowercase_chars, seq_contains, str_contains, str_eq,
    to_lowercase,
};
use crate::time::{duration_as_nanos, duration_from_secs, duration_nanos, instant_duration_since, nanos_per_sec};
use vstd::string::StringExecFns;

verus! {

/// Connections an adapter is assumed to support
pub const DEFAULT_MAX_CONNECTIONS: u8 = 5;

/// Entries of status history kept per adapter
pub const MAX_HISTORY_ENTRIES: usize = 10;

/// Age in seconds after which an unchanged status is recorded again
pub const HISTORY_REFRESH_SECS: u64 = 300;

/// Adapter status
#[derive(Debug, Clone, Copy, PartialEq, Eq, Structural)]
pub enum AdapterStatus {
    /// Normal operation
    Normal,
    /// Adapter is ready
    Ready,
    /// Adapter is in error state
    Error,
    /// Adapter is disabled
    Disabled,
    /// Adapter is busy
    Busy,
}

impl Default for AdapterStatus {
    fn default() -> (s: Self)
        ensures
            s == AdapterStatus::Normal,
    {
        AdapterStatus::Normal
    }
}

impl AdapterStatus {
    /// The suffix that the adapter's display text gives the status.
    pub open spec fn spec_suffix(self) -> Seq<char> {
        match self {
            AdapterStatus::Normal => Seq::empty(),
            AdapterStatus::Ready => " (ready)"@,
            AdapterStatus::Error => " (error)"@,
            AdapterStatus::Disabled => " (disabled)"@,
            AdapterStatus::Busy => " (busy)"@,
        }
    }

    /// The suffix that the adapter's display text gives the status.
    pub fn suffix(&self) -> (s: String)
        ensures
            s@ == self.spec_suffix(),
    {
        match self {
            AdapterStatus::Normal => String::new(),
            AdapterStatus::Ready => String::from_str(" (ready)"),
            AdapterStatus::Error => String::from_str(" (error)"),
            AdapterStatus::Disabled => String::from_str(" (disabled)"),
            AdapterStatus::Busy => String::from_str(" (busy)"),
        }
    }
}

/// Adapter capabilities
#[derive(Debug, Clone)]
pub struct AdapterCapabilities {
    /// Whether the adapter supports scanning
    pub supports_scanning: bool,
    /// Whether the adapter supports the central role
    pub supports_central_role: bool,
    /// Whether the adapter supports advertising
    pub supports_advertising: bool,
    /// Whether the adapter supports connecting to peripherals
    pub supports_connecting: bool,
    /// Whether the adapter is powered on
    pub is_powered_on: bool,
    /// Maximum number of connections supported
    pub max_connections: u8,
    /// When the capabilities were last checked
    pub last_checked: Option<Instant>,
    /// Adapter status
    pub status: AdapterStatus,
    /// Adapter information string
    pub adapter_info: String,
}

impl Default for AdapterCapabilities {
    fn default() -> (c: Self)
        ensures
            !c.supports_scanning,
            !c.supports_central_role,
            !c.supports_advertising,
            !c.supports_connecting,
            !c.is_powered_on,
            c.max_connections == 0,
            c.last_checked is None,
            c.status == AdapterStatus::Normal,
            c.adapter_info@ == Seq::<char>::empty(),
    {
        AdapterCapabilities {
            supports_scanning: false,
            supports_central_role: false,
            supports_advertising: false,
            supports_connecting: false,
            is_powered_on: false,
            max_connections: 0,
            last_checked: None,
            status: AdapterStatus::Normal,
            adapter_info: String::new(),
        }
    }
}

/// The capabilities found by checking an adapter at `checked_at`: an adapter
/// that cannot scan is in error, else normal; it is taken to be powered on,
/// to act as central and not to advertise.
pub fn capabilities_from_checks(
    scanning_supported: bool,
    supports_connecting: bool,
    checked_at: Instant,
    adapter_id: &str,
) -> (c: AdapterCapabilities)
    ensures
        c.supports_scanning == scanning_supported,
        c.supports_central_role,
        !c.supports_advertising,
        c.supports_connecting == supports_connecting,
        c.is_powered_on,
        c.max_connections == DEFAULT_MAX_CONNECTIONS,
        c.last_checked == Some(checked_at),
        c.status == (if scanning_supported {
            AdapterStatus::Normal
        } else {
            AdapterStatus::Error
        }),
        c.adapter_info@ == "Adapter "@ + adapter_id@,
{
    let status = if !scanning_supported {
        AdapterStatus::Error
    } else {
        AdapterStatus::Normal
    };
    AdapterCapabilities {
        supports_scanning: scanning_supported,
        supports_central_role: true,
        supports_advertising: false,
        supports_connecting,
        is_powered_on: true,
        max_connections: DEFAULT_MAX_CONNECTIONS,
        last_checked: Some(checked_at),
        status,
        adapter_info: concat2("Adapter ", adapter_id),
    }
}

/// Whether a scan test that failed with this message still counts the
/// adapter as able to scan: not when the message says scanning is not
/// supported or that no adapter was found; yes otherwise (permission and
/// passing troubles included). The message is compared in lower case.
pub open spec fn spec_scanning_after_error(message: Seq<char>) -> bool {
    let m = lowercase_chars(message);
    !(seq_contains(m, "not supported"@) || seq_contains(m, "unsupported"@) || seq_contains(
        m,
        "no adapter"@,
    ) || seq_contains(m, "not found"@))
}

/// Judge a failed scan test by its error message
pub fn scanning_supported_after_error(message: &str) -> (r: bool)
    ensures
        r == spec_scanning_after_error(message@),
{
    let m = to_lowercase(message);
    let unsupported = str_contains(m.as_str(), "not supported") || str_contains(
        m.as_str(),
        "unsupported",
    );
    if unsupported {
        false
    } else if str_contains(m.as_str(), "no adapter") || str_contains(m.as_str(), "not found") {
        false
    } else {
        true
    }
}

/// The error text says Bluetooth itself is off: it mentions Bluetooth and
/// says unavailable, disabled or powered off (in any case).
pub open spec fn spec_reports_bluetooth_off(message: Seq<char>) -> bool {
    let m = lowercase_chars(message);
    seq_contains(m, "bluetooth"@) && (seq_contains(m, "unavailable"@) || seq_contains(
        m,
        "disabled"@,
    ) || seq_contains(m, "powered off"@))
}

/// Whether an error listing the adapters means Bluetooth is off
pub fn reports_bluetooth_off(message: &str) -> (r: bool)
    ensures
        r == spec_reports_bluetooth_off(message@),
{
    let m = to_lowercase(message);
    str_contains(m.as_str(), "bluetooth") && (str_contains(m.as_str(), "unavailable")
        || str_contains(m.as_str(), "disabled") || str_contains(m.as_str(), "powered off"))
}

/// Whether Bluetooth is available, from the outcome of listing the
/// adapters (their number, or the error's text and the error it converts
/// to): some adapter means yes; an error saying Bluetooth is off means no;
/// another error is passed on.
pub fn bluetooth_availability(listing: Result<usize, (String, BluetoothError)>) -> (r: Result<
    bool,
    BluetoothError,
>)
    ensures
        match listing {
            Ok(n) => r == Ok::<bool, BluetoothError>(n > 0),
            Err((text, e)) => if spec_reports_bluetooth_off(text@) {
                r == Ok::<bool, BluetoothError>(false)
            } else {
                r == Err::<bool, BluetoothError>(e)
            },
        },
{
    match listing {
        Ok(n) => Ok(n > 0),
        Err((text, e)) => {
            if reports_bluetooth_off(text.as_str()) {
                Ok(false)
            } else {
                Err(e)
            }
        },
    }
}

/// Information about a Bluetooth adapter
#[derive(Debug, Clone)]
pub struct AdapterInfo {
    /// Adapter index
    pub index: usize,
    /// Adapter address if available
    pub address: Option<BDAddr>,
    /// Adapter name or identifier
    pub name: String,
    /// Whether this is the default adapter
    pub is_default: bool,
    /// Adapter capabilities
    pub capabilities: AdapterCapabilities,
    /// Adapter vendor/manufacturer if available
    pub vendor: Option<String>,
}

impl Default for AdapterInfo {
    fn default() -> (a: Self)
        ensures
            a.index == 0,
            a.address is None,
            a.name@ == Seq::<char>::empty(),
            !a.is_default,
            a.capabilities.status == AdapterStatus::Normal,
            !a.capabilities.supports_scanning,
            a.vendor is None,
    {
        AdapterInfo {
            index: 0,
            address: None,
            name: String::new(),
            is_default: false,
            capabilities: AdapterCapabilities::default(),
            vendor: None,
        }
    }
}

/// The text of an optional adapter address.
pub open spec fn spec_opt_addr_text(a: Option<BDAddr>) -> Seq<char> {
    match a {
        Some(addr) => spec_addr_text(addr@),
        None => "unknown address"@,
    }
}

/// The display text of an adapter: name, index, address, whether it is the
/// default, and its status.
pub open spec fn spec_adapter_text(a: AdapterInfo) -> Seq<char> {
    a.name@ + "#"@ + decimal_chars(a.index as nat) + ": "@ + spec_opt_addr_text(a.address) + (
    if a.is_default {
        " (default)"@
    } else {
        Seq::empty()
    }) + a.capabilities.status.spec_suffix()
}

impl AdapterInfo {
    /// The display text of the adapter
    pub fn to_text(&self) -> (s: String)
        ensures
            s@ == spec_adapter_text(*self),
    {
        let mut s = concat2(self.name.as_str(), "#");
        let idx = decimal_string(self.index as u64);
        s.append(idx.as_str());
        s.append(": ");
        match self.address {
            Some(addr) => {
                let t = addr.to_text();
                s.append(t.as_str());
            },
            None => s.append("unknown address"),
        }
        if self.is_default {
            s.append(" (default)");
        }
        let suffix = self.capabilities.status.suffix();
        s.append(suffix.as_str());
        proof {
            if !self.is_default {
                assert(s@ =~= spec_adapter_text(*self));
            }
        }
        s
    }
}

/// The identifier under which an adapter's history is kept: its address, or
/// `adapter_` and its index when the address is unknown.
pub open spec fn spec_adapter_id(address: Option<BDAddr>, index: usize) -> Seq<char> {
    match address {
        Some(a) => spec_addr_text(a@),
        None => "adapter_"@ + decimal_chars(index as nat),
    }
}

/// The identifier under which an adapter's history is kept
pub fn adapter_id(address: Option<BDAddr>, index: usize) -> (s: String)
    ensures
        s@ == spec_adapter_id(address, index),
{
    match address {
        Some(a) => a.to_text(),
        None => {
            let n = decimal_string(index as u64);
            concat2("adapter_", n.as_str())
        },
    }
}

/// The adapter is the one to prefer: normal status and able to scan.
pub open spec fn is_ideal_adapter(a: AdapterInfo) -> bool {
    a.capabilities.status == AdapterStatus::Normal && a.capabilities.supports_scanning
}

/// `i` is the first position of `s` whose adapter satisfies `p`.
pub open spec fn is_first_where(s: Seq<AdapterInfo>, p: spec_fn(AdapterInfo) -> bool, i: int) -> bool {
    0 <= i < s.len() && p(s[i]) && forall|j: int| 0 <= j < i ==> !p(#[trigger] s[j])
}

/// The adapter chosen as best: the first ideal one; else the first that can
/// scan; else the first one.
pub open spec fn is_best_choice(s: Seq<AdapterInfo>, i: int) -> bool {
    ||| is_first_where(s, |a: AdapterInfo| is_ideal_adapter(a), i)
    ||| (forall|j: int| 0 <= j < s.len() ==> !is_ideal_adapter(#[trigger] s[j])) && is_first_where(
        s,
        |a: AdapterInfo| a.capabilities.supports_scanning,
        i,
    )
    ||| (forall|j: int| 0 <= j < s.len() ==> !(#[trigger] s[j]).capabilities.supports_scanning)
        && i == 0 && s.len() > 0
}

/// One recorded status of an adapter, with the time it was recorded.
pub type StatusEntry = (Instant, AdapterStatus);

/// The history after a status is recorded: the entry is added when the
/// history is empty, the status changed, or the last entry is older than the
/// refresh age (`since_last` is the time since the last entry); the oldest
/// entry goes when there are more than the maximum.
pub open spec fn spec_recorded(
    h: Seq<StatusEntry>,
    entry: StatusEntry,
    since_last: Duration,
) -> Seq<StatusEntry> {
    if h.len() == 0 || h.last().1 != entry.1 || duration_nanos(since_last) > HISTORY_REFRESH_SECS
        * nanos_per_sec() {
        let grown = h.push(entry);
        if grown.len() > MAX_HISTORY_ENTRIES {
            grown.drop_first()
        } else {
            grown
        }
    } else {
        h
    }
}

/// Record a status in an adapter's history, given the time since its last
/// entry.
pub fn record_status(history: &mut Vec<StatusEntry>, entry: StatusEntry, since_last: Duration)
    ensures
        final(history)@ == spec_recorded(old(history)@, entry, since_last),
{
    let refresh = duration_from_secs(HISTORY_REFRESH_SECS);
    let n = history.len();
    let add = n == 0 || history[n - 1].1 != entry.1 || duration_as_nanos(&since_last)
        > duration_as_nanos(&refresh);
    if add {
        history.push(entry);
        if history.len() > MAX_HISTORY_ENTRIES {
            history.remove(0);
        }
    }
}

/// The adapters known and the one selected, with each adapter's status
/// history (keyed by adapter identifier, each identifier once).
#[derive(Debug)]
pub struct AdapterManager {
    available_adapters: Vec<AdapterInfo>,
    selected_index: Option<usize>,
    adapter_history: Vec<(String, Vec<StatusEntry>)>,
}

/// The history kept under each identifier.
pub open spec fn history_map(h: Seq<(String, Vec<StatusEntry>)>) -> Map<Seq<char>, Seq<StatusEntry>> {
    Map::new(
        |k: Seq<char>| history_keys(h).contains(k),
        |k: Seq<char>|
            {
                let i = choose|i: int| 0 <= i < h.len() && #[trigger] history_keys(h)[i] == k;
                h[i].1@
            },
    )
}

/// With each identifier once, the history under the identifier at `i` is
/// the one at `i`.
proof fn lemma_history_map_at(h: Seq<(String, Vec<StatusEntry>)>, i: int)
    requires
        history_keys(h).no_duplicates(),
        0 <= i < h.len(),
    ensures
        history_map(h).dom().contains(h[i].0@),
        history_map(h)[h[i].0@] == h[i].1@,
{
    let k = h[i].0@;
    assert(history_keys(h)[i] == k);
    let j = choose|j: int| 0 <= j < h.len() && #[trigger] history_keys(h)[j] == k;
    assert(j == i);
}

/// Replacing the history at `i` (same identifier) replaces it in the map.
proof fn lemma_history_map_update(
    h: Seq<(String, Vec<StatusEntry>)>,
    i: int,
    v: (String, Vec<StatusEntry>),
)
    requires
        history_keys(h).no_duplicates(),
        0 <= i < h.len(),
        v.0@ == h[i].0@,
    ensures
        history_keys(h.update(i, v)) == history_keys(h),
        history_map(h.update(i, v)) == history_map(h).insert(v.0@, v.1@),
{
    let h2 = h.update(i, v);
    assert(history_keys(h2) =~= history_keys(h));
    assert forall|k: Seq<char>| #[trigger] history_map(h2).dom().contains(k) implies history_map(
        h2,
    )[k] == history_map(h).insert(v.0@, v.1@)[k] by {
        let j = choose|j: int| 0 <= j < h2.len() && #[trigger] history_keys(h2)[j] == k;
        lemma_history_map_at(h2, j);
        lemma_history_map_at(h, j);
        if j != i {
            assert(history_keys(h)[j] != history_keys(h)[i]);
            assert(k != v.0@);
        } else {
            assert(k == v.0@);
        }
    }
    lemma_history_map_at(h, i);
    assert(history_map(h2).dom() =~= history_map(h).insert(v.0@, v.1@).dom());
    assert(history_map(h2) =~= history_map(h).insert(v.0@, v.1@));
}

/// Adding a history under a new identifier adds it to the map.
proof fn lemma_history_map_push(h: Seq<(String, Vec<StatusEntry>)>, v: (String, Vec<StatusEntry>))
    requires
        history_keys(h).no_duplicates(),
        !history_keys(h).contains(v.0@),
    ensures
        history_keys(h.push(v)).no_duplicates(),
        history_map(h.push(v)) == history_map(h).insert(v.0@, v.1@),
{
    let h2 = h.push(v);
    assert(history_keys(h2) =~= history_keys(h).push(v.0@));
    assert forall|a: int, b: int|
        0 <= a < b < history_keys(h2).len() implies history_keys(h2)[a] != history_keys(h2)[b] by {
        if b == h.len() {
            assert(history_keys(h)[a] == history_keys(h2)[a]);
        }
    }
    assert forall|k: Seq<char>| #[trigger] history_map(h2).dom().contains(k) implies history_map(
        h2,
    )[k] == history_map(h).insert(v.0@, v.1@)[k] by {
        let j = choose|j: int| 0 <= j < h2.len() && #[trigger] history_keys(h2)[j] == k;
        lemma_history_map_at(h2, j);
        if j < h.len() {
            lemma_history_map_at(h, j);
        }
    }
    assert forall|k: Seq<char>| #[trigger] history_map(h).insert(v.0@, v.1@).dom().contains(k) implies history_map(
        h2,
    ).dom().contains(k) by {
        if k != v.0@ {
            let j = choose|j: int| 0 <= j < h.len() && #[trigger] history_keys(h)[j] == k;
            assert(history_keys(h2)[j] == k);
        } else {
            assert(history_keys(h2)[h.len() as int] == k);
        }
    }
    assert(history_map(h2) =~= history_map(h).insert(v.0@, v.1@));
}

/// The identifiers of the histories, in order.
pub open spec fn history_keys(h: Seq<(String, Vec<StatusEntry>)>) -> Seq<Seq<char>> {
    h.map_values(|e: (String, Vec<StatusEntry>)| e.0@)
}

impl AdapterManager {
    /// The adapters known.
    pub closed spec fn spec_adapters(&self) -> Seq<AdapterInfo> {
        self.available_adapters@
    }

    /// The position of the selected adapter.
    pub closed spec fn spec_selected(&self) -> Option<usize> {
        self.selected_index
    }

    /// The status history of each adapter identifier.
    pub closed spec fn spec_history(&self) -> Map<Seq<char>, Seq<StatusEntry>> {
        history_map(self.adapter_history@)
    }

    /// Each identifier has one history; the selection is a known adapter.
    pub closed spec fn wf(&self) -> bool {
        &&& history_keys(self.adapter_history@).no_duplicates()
        &&& self.selected_index matches Some(i) ==> i < self.available_adapters@.len()
    }

    /// A manager that knows no adapter yet
    pub fn new() -> (m: Self)
        ensures
            m.wf(),
            m.spec_adapters().len() == 0,
            m.spec_selected() is None,
            m.spec_history() == Map::<Seq<char>, Seq<StatusEntry>>::empty(),
    {
        let m = AdapterManager {
            available_adapters: Vec::new(),
            selected_index: None,
            adapter_history: Vec::new(),
        };
        assert(m.spec_history() =~= Map::<Seq<char>, Seq<StatusEntry>>::empty());
        m
    }

    /// Replace the adapters known with those just discovered; the selection
    /// is dropped when its adapter is gone.
    pub fn set_adapters(&mut self, adapters: Vec<AdapterInfo>)
        requires
            old(self).wf(),
        ensures
            final(self).wf(),
            final(self).spec_adapters() == adapters@,
            final(self).spec_selected() == (match old(self).spec_selected() {
                Some(i) => if i < adapters@.len() {
                    Some(i)
                } else {
                    None
                },
                None => None,
            }),
            final(self).spec_history() == old(self).spec_history(),
    {
        self.available_adapters = adapters;
        if let Some(index) = self.selected_index {
            if index >= self.available_adapters.len() {
                self.selected_index = None;
            }
        }
    }

    /// Get the list of available adapters
    pub fn get_available_adapters(&self) -> (s: &[AdapterInfo])
        ensures
            s@ == self.spec_adapters(),
    {
        self.available_adapters.as_slice()
    }

    /// Select an adapter by index
    pub fn select_adapter(&mut self, index: usize) -> (r: Result<(), BluetoothError>)
        requires
            old(self).wf(),
        ensures
            final(self).wf(),
            final(self).spec_adapters() == old(self).spec_adapters(),
            final(self).spec_history() == old(self).spec_history(),
            index < old(self).spec_adapters().len() ==> r is Ok && final(self).spec_selected()
                == Some(index),
            index >= old(self).spec_adapters().len() ==> (final(self).spec_selected() == old(self).spec_selected()
                && (r matches Err(
                BluetoothError::AdapterNotAvailable { reason, recovery },
            ) && recovery == RecoveryAction::SelectDifferentAdapter && reason@
                == "Adapter index "@ + decimal_chars(index as nat) + " out of bounds (max: "@
                + decimal_chars(
                if old(self).spec_adapters().len() == 0 {
                    0nat
                } else {
                    (old(self).spec_adapters().len() - 1) as nat
                },
            ) + ")"@)),
    {
        let len = self.available_adapters.len();
        if index >= len {
            let max = if len == 0 {
                0
            } else {
                len - 1
            };
            let mut reason = concat2("Adapter index ", decimal_string(index as u64).as_str());
            reason.append(" out of bounds (max: ");
            reason.append(decimal_string(max as u64).as_str());
            reason.append(")");
            return Err(
                BluetoothError::AdapterNotAvailable {
                    reason,
                    recovery: RecoveryAction::SelectDifferentAdapter,
                },
            );
        }
        self.selected_index = Some(index);
        Ok(())
    }

    /// Select the best available adapter based on capabilities
    pub fn select_best_adapter(&mut self) -> (r: Result<(), BluetoothError>)
        requires
            old(self).wf(),
        ensures
            final(self).wf(),
            final(self).spec_adapters() == old(self).spec_adapters(),
            final(self).spec_history() == old(self).spec_history(),
            old(self).spec_adapters().len() == 0 ==> (r matches Err(BluetoothError::NoAdapter)
                && final(self).spec_selected() == old(self).spec_selected()),
            old(self).spec_adapters().len() > 0 ==> (r is Ok && (final(self).spec_selected() matches Some(i)
                && is_best_choice(old(self).spec_adapters(), i as int))),
    {
        let n = self.available_adapters.len();
        if n == 0 {
            return Err(BluetoothError::NoAdapter);
        }
        let ghost s = self.available_adapters@;
        for i in 0..n
            invariant
                n == s.len(),
                s == self.available_adapters@,
                *self == *old(self),
                old(self).wf(),
                forall|j: int| 0 <= j < i ==> !is_ideal_adapter(#[trigger] s[j]),
        {
            let info = &self.available_adapters[i];
            if info.capabilities.status == AdapterStatus::Normal
                && info.capabilities.supports_scanning {
                self.selected_index = Some(i);
                assert(is_first_where(s, |a: AdapterInfo| is_ideal_adapter(a), i as int));
                return Ok(());
            }
        }
        for i in 0..n
            invariant
                n == s.len(),
                s == self.available_adapters@,
                *self == *old(self),
                old(self).wf(),
                forall|j: int| 0 <= j < n ==> !is_ideal_adapter(#[trigger] s[j]),
                forall|j: int| 0 <= j < i ==> !(#[trigger] s[j]).capabilities.supports_scanning,
        {
            if self.available_adapters[i].capabilities.supports_scanning {
                self.selected_index = Some(i);
                assert(is_first_where(
                    s,
                    |a: AdapterInfo| a.capabilities.supports_scanning,
                    i as int,
                ));
                return Ok(());
            }
        }
        self.selected_index = Some(0);
        Ok(())
    }

    /// Get info about the currently selected adapter
    pub fn get_selected_adapter_info(&self) -> (r: Option<&AdapterInfo>)
        requires
            self.wf(),
        ensures
            match self.spec_selected() {
                Some(i) => r == Some(&self.spec_adapters()[i as int]),
                None => r is None,
            },
    {
        match self.selected_index {
            Some(index) => Some(&self.available_adapters[index]),
            None => None,
        }
    }

    fn history_position(&self, adapter_id: &str) -> (r: Option<usize>)
        ensures
            match r {
                Some(i) => i < self.adapter_history@.len() && history_keys(
                    self.adapter_history@,
                )[i as int] == adapter_id@,
                None => !history_keys(self.adapter_history@).contains(adapter_id@),
            },
    {
        for i in 0..self.adapter_history.len()
            invariant
                forall|k: int| 0 <= k < i ==> history_keys(self.adapter_history@)[k] != adapter_id@,
        {
            if str_eq(self.adapter_history[i].0.as_str(), adapter_id) {
                return Some(i);
            }
        }
        None
    }

    /// Get adapter history for a specific adapter
    pub fn get_adapter_history(&self, adapter_id: &str) -> (r: Option<&[StatusEntry]>)
        requires
            self.wf(),
        ensures
            match r {
                Some(h) => self.spec_history().dom().contains(adapter_id@) && h@
                    == self.spec_history()[adapter_id@],
                None => !self.spec_history().dom().contains(adapter_id@),
            },
    {
        match self.history_position(adapter_id) {
            Some(i) => {
                proof {
                    let k = choose|k: int|
                        0 <= k < self.adapter_history@.len() && #[trigger] history_keys(
                            self.adapter_history@,
                        )[k] == adapter_id@;
                    assert(k == i) by {
                        if k != i {
                            assert(history_keys(self.adapter_history@)[k] == history_keys(
                                self.adapter_history@,
                            )[i as int]);
                        }
                    }
                }
                Some(self.adapter_history[i].1.as_slice())
            },
            None => None,
        }
    }

    /// Update an adapter's status history with a status observed at
    /// `timestamp`: a new identifier starts a history with the entry; for a
    /// known one the entry is recorded as `spec_recorded` says, with the time
    /// since its last entry read from the clock.
    pub fn update_adapter_history(&mut self, adapter_id: &str, status: AdapterStatus, timestamp: Instant)
        requires
            old(self).wf(),
        ensures
            final(self).wf(),
            final(self).spec_adapters() == old(self).spec_adapters(),
            final(self).spec_selected() == old(self).spec_selected(),
            !old(self).spec_history().dom().contains(adapter_id@) ==> final(self).spec_history()
                == old(self).spec_history().insert(adapter_id@, seq![(timestamp, status)]),
            old(self).spec_history().dom().contains(adapter_id@) ==> exists|since: Duration|
                final(self).spec_history() == old(self).spec_history().insert(
                    adapter_id@,
                    spec_recorded(old(self).spec_history()[adapter_id@], (timestamp, status), since),
                ),
    {
        match self.history_position(adapter_id) {
            None => {
                let mut fresh: Vec<StatusEntry> = Vec::new();
                fresh.push((timestamp, status));
                let entry = (String::from_str(adapter_id), fresh);
                proof {
                    lemma_history_map_push(self.adapter_history@, entry);
                    assert(entry.1@ =~= seq![(timestamp, status)]);
                }
                self.adapter_history.push(entry);
            },
            Some(i) => {
                let ghost h = self.adapter_history@;
                proof {
                    lemma_history_map_at(h, i as int);
                }
                let (key, mut hist) = self.adapter_history.remove(i);
                let ghost before = hist@;
                let since = if hist.len() > 0 {
                    instant_duration_since(&timestamp, &hist[hist.len() - 1].0)
                } else {
                    duration_from_secs(0)
                };
                record_status(&mut hist, (timestamp, status), since);
                let entry = (key, hist);
                proof {
                    lemma_history_map_update(h, i as int, entry);
                    assert(h.remove(i as int).insert(i as int, entry) =~= h.update(i as int, entry));
                }
                self.adapter_history.insert(i, entry);
            },
        }
    }

    /// The adapter after a successful recovery at `now`: it can scan, its
    /// status is normal and it was checked at `now`.
    pub open spec fn spec_recovered(a: AdapterInfo, now: Instant) -> AdapterInfo {
        AdapterInfo {
            capabilities: AdapterCapabilities {
                supports_scanning: true,
                status: AdapterStatus::Normal,
                last_checked: Some(now),
                ..a.capabilities
            },
            ..a
        }
    }

    /// Try to recover the adapter at `index`, given how many adapters the
    /// system lists now and the outcome of checking again, at `now`, whether
    /// that adapter can scan: an unknown index has no adapter; one the system
    /// no longer lists is not available; a failed check is passed on; an
    /// adapter that scans again is marked normal and its history records it;
    /// otherwise nothing changes and the recovery failed.
    pub fn try_recover_adapter(
        &mut self,
        index: usize,
        system_adapters: usize,
        scanning_check: Result<bool, BluetoothError>,
        now: Instant,
    ) -> (r: Result<bool, BluetoothError>)
        requires
            old(self).wf(),
        ensures
            final(self).wf(),
            final(self).spec_selected() == old(self).spec_selected(),
            index >= old(self).spec_adapters().len() ==> r matches Err(BluetoothError::NoAdapter),
            index < old(self).spec_adapters().len() && index >= system_adapters ==> (r matches Err(
                BluetoothError::AdapterNotAvailable { reason, recovery },
            ) && reason@ == "Adapter at index "@ + decimal_chars(index as nat) + " not found"@
                && recovery == RecoveryAction::RestartApplication),
            index < old(self).spec_adapters().len() && index < system_adapters ==> match scanning_check {
                Err(e) => r == Err::<bool, BluetoothError>(e),
                Ok(scans) => r == Ok::<bool, BluetoothError>(scans),
            },
            !(r matches Ok(true)) ==> final(self).spec_adapters() == old(self).spec_adapters()
                && final(self).spec_history() == old(self).spec_history(),
            r matches Ok(true) ==> {
                let a = old(self).spec_adapters()[index as int];
                let key = spec_adapter_id(a.address, index);
                &&& final(self).spec_adapters() == old(self).spec_adapters().update(
                    index as int,
                    AdapterManager::spec_recovered(a, now),
                )
                &&& !old(self).spec_history().dom().contains(key) ==> final(self).spec_history()
                    == old(self).spec_history().insert(key, seq![(now, AdapterStatus::Normal)])
                &&& old(self).spec_history().dom().contains(key) ==> exists|since: Duration|
                    final(self).spec_history() == old(self).spec_history().insert(
                        key,
                        spec_recorded(old(self).spec_history()[key], (now, AdapterStatus::Normal), since),
                    )
            },
    {
        if index >= self.available_adapters.len() {
            return Err(BluetoothError::NoAdapter);
        }
        if index >= system_adapters {
            let n = decimal_string(index as u64);
            let reason = concat3("Adapter at index ", n.as_str(), " not found");
            proof {
                reveal_strlit("Adapter at index ");
                reveal_strlit(" not found");
            }
            return Err(
                BluetoothError::AdapterNotAvailable {
                    reason,
                    recovery: RecoveryAction::RestartApplication,
                },
            );
        }
        let scans = match scanning_check {
            Err(e) => {
                return Err(e);
            },
            Ok(b) => b,
        };
        if !scans {
            return Ok(false);
        }
        let ghost before = self.available_adapters@;
        let mut info = self.available_adapters.remove(index);
        info.capabilities.supports_scanning = true;
        info.capabilities.status = AdapterStatus::Normal;
        info.capabilities.last_checked = Some(now);
        let id = adapter_id(info.address, index);
        self.available_adapters.insert(index, info);
        assert(self.available_adapters@ =~= before.update(
            index as int,
            AdapterManager::spec_recovered(before[index as int], now),
        ));
        self.update_adapter_history(id.as_str(), AdapterStatus::Normal, now);
        Ok(true)
    }
}

/// A status history never grows beyond the maximum number of entries.
pub proof fn lemma_recorded_history_bounded(h: Seq<StatusEntry>, entry: StatusEntry, since_last: Duration)
    requires
        h.len() <= MAX_HISTORY_ENTRIES,
    ensures
        spec_recorded(h, entry, since_last).len() <= MAX_HISTORY_ENTRIES,
        spec_recorded(h, entry, since_last).len() > 0,
{
}

} // verus!
