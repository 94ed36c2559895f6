//! Bluetooth events and the filters that subscribers put on them.

use std::time::{Duration, Instant};
use vstd::prelude::*;

use crate::airpods::detector::DetectedAirPods;
use crate::bluetooth::adapter::AdapterInfo;
use crate::bluetooth::address::BDAddr;
use crate::bluetooth::filter::addr_views;
use crate::bluetooth::scanner::DiscoveredDevice;
use crate::time::{duration_as_nanos, duration_from_secs, duration_nanos, instant_duration_since, nanos_per_sec};

verus! {

/// Type of BLE event
#[derive(Debug, Clone, Copy, PartialEq, Eq, Structural)]
pub enum EventType {
    /// Device discovered event
    DeviceDiscovered,
    /// Device lost event
    DeviceLost,
    /// Error event
    Error,
    /// Adapter changed event
    AdapterChanged,
    /// Scan cycle completed event
    ScanCycleCompleted,
    /// Scanning completed event
    ScanningCompleted,
    /// AirPods detected event
    AirPodsDetected,
}

/// Event type for discovered devices
#[derive(Debug, Clone)]
pub enum BleEvent {
    /// A new device was discovered or updated
    DeviceDiscovered(DiscoveredDevice),
    /// A device was lost (went out of range)
    DeviceLost(BDAddr),
    /// An error occurred during scanning
    Error(String),
    /// The adapter was changed
    AdapterChanged(AdapterInfo),
    /// A scan cycle has completed
    ScanCycleCompleted { devices_found: usize },
    /// All scanning has completed (due to cycle limit or cancellation)
    ScanningCompleted,
    /// AirPods detected with battery information
    AirPodsDetected(DetectedAirPods),
}

impl BleEvent {
    /// The type of an event.
    pub open spec fn spec_type(&self) -> EventType {
        match self {
            BleEvent::DeviceDiscovered(_) => EventType::DeviceDiscovered,
            BleEvent::DeviceLost(_) => EventType::DeviceLost,
            BleEvent::Error(_) => EventType::Error,
            BleEvent::AdapterChanged(_) => EventType::AdapterChanged,
            BleEvent::ScanCycleCompleted { .. } => EventType::ScanCycleCompleted,
            BleEvent::ScanningCompleted => EventType::ScanningCompleted,
            BleEvent::AirPodsDetected(_) => EventType::AirPodsDetected,
        }
    }

    /// The device address an event carries, if any.
    pub open spec fn spec_device_address(&self) -> Option<BDAddr> {
        match self {
            BleEvent::DeviceDiscovered(device) => Some(device.address),
            BleEvent::DeviceLost(addr) => Some(*addr),
            BleEvent::AirPodsDetected(airpods) => Some(airpods.address),
            _ => None,
        }
    }

    /// Get the type of this event
    pub fn get_type(&self) -> (t: EventType)
        ensures
            t == self.spec_type(),
    {
        match self {
            BleEvent::DeviceDiscovered(_) => EventType::DeviceDiscovered,
            BleEvent::DeviceLost(_) => EventType::DeviceLost,
            BleEvent::Error(_) => EventType::Error,
            BleEvent::AdapterChanged(_) => EventType::AdapterChanged,
            BleEvent::ScanCycleCompleted { .. } => EventType::ScanCycleCompleted,
            BleEvent::ScanningCompleted => EventType::ScanningCompleted,
            BleEvent::AirPodsDetected(_) => EventType::AirPodsDetected,
        }
    }

    /// Get the device address from this event, if available
    pub fn get_device_address(&self) -> (a: Option<BDAddr>)
        ensures
            a == self.spec_device_address(),
    {
        match self {
            BleEvent::DeviceDiscovered(device) => Some(device.address),
            BleEvent::DeviceLost(addr) => Some(*addr),
            BleEvent::AirPodsDetected(airpods) => Some(airpods.address),
            _ => None,
        }
    }
}

/// A test on events that a subscriber supplies for a custom filter.
pub trait EventPredicate: Send + Sync {
    /// Whether the event is of interest.
    fn accepts(&self, event: &BleEvent) -> bool;
}

/// Defines which types of events a subscriber is interested in
pub enum EventFilter {
    /// Accept all events
    All,
    /// Only specific event types
    EventTypes(Vec<EventType>),
    /// Only events for specific devices
    Devices(Vec<BDAddr>),
    /// Custom filter function
    Custom(Box<dyn EventPredicate>),
}

/// Whether a filter's answer `r` for an event is right; the answer of a
/// custom filter is that of its predicate, which is the subscriber's code and
/// is not stated here.
pub open spec fn spec_filter_accepts(f: &EventFilter, e: &BleEvent, r: bool) -> bool {
    match f {
        EventFilter::All => r,
        EventFilter::EventTypes(types) => r == types@.contains(e.spec_type()),
        EventFilter::Devices(addresses) => r == (e.spec_device_address() matches Some(a)
            && addr_views(addresses@).contains(a@)),
        EventFilter::Custom(_) => true,
    }
}

/// Each kind of event has its own type, and only device events carry an
/// address: a discovered device and a detection carry the device's address,
/// a lost device the lost address.
pub proof fn lemma_event_types(e: BleEvent)
    ensures
        e is DeviceDiscovered <==> e.spec_type() == EventType::DeviceDiscovered,
        e is DeviceLost <==> e.spec_type() == EventType::DeviceLost,
        e is Error <==> e.spec_type() == EventType::Error,
        e is AdapterChanged <==> e.spec_type() == EventType::AdapterChanged,
        e is ScanCycleCompleted <==> e.spec_type() == EventType::ScanCycleCompleted,
        e is ScanningCompleted <==> e.spec_type() == EventType::ScanningCompleted,
        e is AirPodsDetected <==> e.spec_type() == EventType::AirPodsDetected,
        e.spec_device_address() is Some <==> (e is DeviceDiscovered || e is DeviceLost
            || e is AirPodsDetected),
        e matches BleEvent::DeviceLost(a) ==> e.spec_device_address() == Some(a),
        e matches BleEvent::DeviceDiscovered(d) ==> e.spec_device_address() == Some(d.address),
        e matches BleEvent::AirPodsDetected(d) ==> e.spec_device_address() == Some(d.address),
{
}

/// What the filters accept: everything for `All`; for a list of types,
/// exactly the events of a listed type; for a list of devices, exactly the
/// events that carry a listed address, so never an event without one.
pub proof fn lemma_event_filter_rules(f: &EventFilter, e: &BleEvent, r: bool)
    requires
        spec_filter_accepts(f, e, r),
    ensures
        f is All ==> r,
        f matches EventFilter::EventTypes(types) ==> (r <==> types@.contains(e.spec_type())),
        (f is Devices && e.spec_device_address() is None) ==> !r,
        f matches EventFilter::Devices(addresses) ==> (r <==> (e.spec_device_address() is Some
            && exists|i: int|
            0 <= i < addresses@.len() && e.spec_device_address()->0@ == (#[trigger] addresses@[i])@)),
{
    if let EventFilter::Devices(addresses) = f {
        if let Some(a) = e.spec_device_address() {
            if addr_views(addresses@).contains(a@) {
                let i = choose|i: int| 0 <= i < addr_views(addresses@).len() && addr_views(addresses@)[i] == a@;
                assert(addresses@[i]@ == a@);
            }
            if exists|i: int| 0 <= i < addresses@.len() && a@ == (#[trigger] addresses@[i])@ {
                let i = choose|i: int| 0 <= i < addresses@.len() && a@ == (#[trigger] addresses@[i])@;
                assert(addr_views(addresses@)[i] == a@);
            }
        }
    }
}

impl EventFilter {
    /// Create a new default filter that includes all events
    pub fn all() -> (f: Self)
        ensures
            f is All,
    {
        EventFilter::All
    }

    /// Create a filter for specific event types
    pub fn event_types(types: Vec<EventType>) -> (f: Self)
        ensures
            f matches EventFilter::EventTypes(t) && t@ == types@,
    {
        EventFilter::EventTypes(types)
    }

    /// Create a filter for specific devices
    pub fn devices(addresses: Vec<BDAddr>) -> (f: Self)
        ensures
            f matches EventFilter::Devices(a) && a@ == addresses@,
    {
        EventFilter::Devices(addresses)
    }

    /// Create a custom filter with a closure
    pub fn custom(filter_fn: Box<dyn EventPredicate>) -> (f: Self)
        ensures
            f == EventFilter::Custom(filter_fn),
    {
        EventFilter::Custom(filter_fn)
    }

    /// Create a filter that only accepts AirPods-related events
    pub fn airpods_only() -> (f: Self)
        ensures
            f matches EventFilter::EventTypes(t) && t@ == seq![EventType::AirPodsDetected],
    {
        let mut types: Vec<EventType> = Vec::new();
        types.push(EventType::AirPodsDetected);
        EventFilter::EventTypes(types)
    }

    /// Check if an event matches this filter
    pub fn matches(&self, event: &BleEvent) -> (r: bool)
        ensures
            spec_filter_accepts(self, event, r),
    {
        match self {
            EventFilter::All => true,
            EventFilter::EventTypes(types) => {
                let event_type = event.get_type();
                for i in 0..types.len()
                    invariant
                        event_type == event.spec_type(),
                        spec_filter_accepts(self, event, true) == types@.contains(
                            event.spec_type(),
                        ),
                        forall|k: int| 0 <= k < i ==> types@[k] != event_type,
                {
                    if types[i] == event_type {
                        assert(types@[i as int] == event.spec_type());
                        assert(types@.contains(event.spec_type()));
                        return true;
                    }
                }
                false
            },
            EventFilter::Devices(addresses) => {
                match event.get_device_address() {
                    Some(address) => {
                        for i in 0..addresses.len()
                            invariant
                                event.spec_device_address() == Some(address),
                                spec_filter_accepts(self, event, true) == addr_views(
                                    addresses@,
                                ).contains(address@),
                                forall|k: int| 0 <= k < i ==> addresses@[k]@ != address@,
                        {
                            if addresses[i] == address {
                                assert(addr_views(addresses@)[i as int] == address@);
                                assert(addr_views(addresses@).contains(address@));
                                return true;
                            }
                        }
                        proof {
                            if addr_views(addresses@).contains(address@) {
                                let k = choose|k: int|
                                    0 <= k < addresses@.len() && #[trigger] addr_views(addresses@)[k] == address@;
                                assert(addresses@[k]@ == address@);
                            }
                        }
                        false
                    },
                    None => false,
                }
            },
            EventFilter::Custom(predicate) => predicate.accepts(event),
        }
    }

    /// A copy of the filter; a custom filter, whose function cannot be
    /// copied, becomes the filter of all events.
    pub fn duplicate(&self) -> (f: Self)
        ensures
            match self {
                EventFilter::All => f is All,
                EventFilter::EventTypes(t) => f matches EventFilter::EventTypes(u) && u@ == t@,
                EventFilter::Devices(a) => f matches EventFilter::Devices(b) && b@ == a@,
                EventFilter::Custom(_) => f is All,
            },
    {
        match self {
            EventFilter::All => EventFilter::All,
            EventFilter::EventTypes(types) => {
                let mut copy: Vec<EventType> = Vec::new();
                for i in 0..types.len()
                    invariant
                        copy@ == types@.take(i as int),
                {
                    copy.push(types[i]);
                    assert(copy@ =~= types@.take(i + 1));
                }
                assert(types@.take(types.len() as int) =~= types@);
                EventFilter::EventTypes(copy)
            },
            EventFilter::Devices(addresses) => {
                let mut copy: Vec<BDAddr> = Vec::new();
                for i in 0..addresses.len()
                    invariant
                        copy@ == addresses@.take(i as int),
                {
                    copy.push(addresses[i]);
                    assert(copy@ =~= addresses@.take(i + 1));
                }
                assert(addresses@.take(addresses.len() as int) =~= addresses@);
                EventFilter::Devices(copy)
            },
            EventFilter::Custom(_) => EventFilter::All,
        }
    }
}

/// Subscriber ID type
pub type SubscriberId = u32;

/// Seconds after which a subscriber that saw no event counts as inactive, by
/// default
pub const DEFAULT_INACTIVE_TIMEOUT_SECS: u64 = 60;

/// A subscriber to BLE events, with the channel `S` it receives them on
pub struct Subscriber<S> {
    /// Unique ID for this subscriber
    pub id: SubscriberId,
    /// Sender channel
    pub sender: S,
    /// Filter for events
    pub filter: EventFilter,
    /// Last activity timestamp
    pub last_active: Instant,
}

/// A subscriber as it is after the filter of `id` is set to `filter`: the
/// subscriber with that id takes the filter and keeps the rest; any other
/// subscriber stays as it is.
pub open spec fn with_filter<S>(s: Subscriber<S>, id: SubscriberId, filter: EventFilter) -> Subscriber<S> {
    if s.id == id {
        Subscriber { id: s.id, sender: s.sender, filter, last_active: s.last_active }
    } else {
        s
    }
}

/// The ids of subscribers, in order.
pub open spec fn subscriber_ids<S>(v: Seq<Subscriber<S>>) -> Seq<SubscriberId> {
    v.map_values(|s: Subscriber<S>| s.id)
}

/// The subscribers whose flag is set, in order.
pub open spec fn flagged<S>(subs: Seq<Subscriber<S>>, keep: Seq<bool>) -> Seq<Subscriber<S>>
    decreases subs.len(),
{
    if subs.len() == 0 || keep.len() != subs.len() {
        Seq::empty()
    } else {
        let rest = flagged(subs.drop_last(), keep.drop_last());
        if keep.last() {
            rest.push(subs.last())
        } else {
            rest
        }
    }
}

/// Whether a subscriber has an id other than `id`.
pub open spec fn other_than<S>(id: SubscriberId) -> spec_fn(Subscriber<S>) -> bool {
    |s: Subscriber<S>| s.id != id
}

/// Taking subscribers in order from a list with distinct ids, each at most
/// once, keeps the ids distinct when the next one is added.
proof fn lemma_push_keeps_ids_distinct<S>(before: Seq<Subscriber<S>>, i: int, kept: Seq<Subscriber<S>>)
    requires
        0 <= i < before.len(),
        subscriber_ids(before).no_duplicates(),
        subscriber_ids(kept).no_duplicates(),
        forall|k: int| 0 <= k < kept.len() ==> before.take(i).contains(#[trigger] kept[k]),
    ensures
        subscriber_ids(kept.push(before[i])).no_duplicates(),
{
    let ids = subscriber_ids(kept.push(before[i]));
    assert(ids =~= subscriber_ids(kept).push(before[i].id));
    assert forall|a: int, b: int| 0 <= a < b < ids.len() implies ids[a] != ids[b] by {
        if b == kept.len() {
            assert(before.take(i).contains(kept[a]));
            let j = choose|j: int| 0 <= j < i && before.take(i)[j] == kept[a];
            assert(subscriber_ids(before)[j] != subscriber_ids(before)[i]);
        } else {
            assert(subscriber_ids(kept)[a] != subscriber_ids(kept)[b]);
        }
    }
}

/// The subscribers to events and the ids handed out; sending is done by the
/// caller over the subscribers' channels.
pub struct EventBroker<S> {
    next_subscriber_id: SubscriberId,
    subscribers: Vec<Subscriber<S>>,
    inactive_timeout: Option<Duration>,
}

impl<S> EventBroker<S> {
    /// The subscribers, in order of subscription.
    pub closed spec fn spec_subscribers(&self) -> Seq<Subscriber<S>> {
        self.subscribers@
    }

    /// The id the next subscriber gets.
    pub closed spec fn spec_next_id(&self) -> SubscriberId {
        self.next_subscriber_id
    }

    /// The inactivity timeout.
    pub closed spec fn spec_timeout(&self) -> Option<Duration> {
        self.inactive_timeout
    }

    /// Each subscriber has its own id, below the next one to hand out.
    pub closed spec fn wf(&self) -> bool {
        &&& subscriber_ids(self.subscribers@).no_duplicates()
        &&& forall|i: int|
            0 <= i < self.subscribers@.len() ==> (#[trigger] self.subscribers@[i]).id
                < self.next_subscriber_id
    }

    /// Create a new event broker: no subscribers, ids from 1, a one minute
    /// inactivity timeout
    pub fn new() -> (b: Self)
        ensures
            b.wf(),
            b.spec_subscribers().len() == 0,
            b.spec_next_id() == 1,
            b.spec_timeout() matches Some(t) && duration_nanos(t) == DEFAULT_INACTIVE_TIMEOUT_SECS
                * nanos_per_sec(),
    {
        EventBroker {
            next_subscriber_id: 1,
            subscribers: Vec::new(),
            inactive_timeout: Some(duration_from_secs(DEFAULT_INACTIVE_TIMEOUT_SECS)),
        }
    }

    /// Subscribe a channel with a filter, active as of `now`; returns the new
    /// subscriber's id
    pub fn subscribe(&mut self, sender: S, filter: EventFilter, now: Instant) -> (id: SubscriberId)
        requires
            old(self).wf(),
            old(self).spec_next_id() < u32::MAX,
        ensures
            final(self).wf(),
            id == old(self).spec_next_id(),
            final(self).spec_next_id() == id + 1,
            !subscriber_ids(old(self).spec_subscribers()).contains(id),
            final(self).spec_subscribers().len() == old(self).spec_subscribers().len() + 1,
            final(self).spec_subscribers().drop_last() == old(self).spec_subscribers(),
            final(self).spec_subscribers().last() == (Subscriber { id, sender, filter, last_active: now }),
            final(self).spec_timeout() == old(self).spec_timeout(),
    {
        let id = self.next_subscriber_id;
        self.next_subscriber_id = self.next_subscriber_id + 1;
        let ghost before = self.subscribers@;
        proof {
            if subscriber_ids(before).contains(id) {
                let k = choose|k: int| 0 <= k < before.len() && subscriber_ids(before)[k] == id;
                assert(before[k].id < id);
            }
        }
        self.subscribers.push(Subscriber { id, sender, filter, last_active: now });
        assert(subscriber_ids(self.subscribers@) =~= subscriber_ids(before).push(id));
        assert(self.subscribers@.drop_last() =~= before);
        proof {
            let ids = subscriber_ids(self.subscribers@);
            assert forall|a: int, b: int| 0 <= a < b < ids.len() implies ids[a] != ids[b] by {
                if b == before.len() {
                    assert(before[a].id < id);
                } else {
                    assert(subscriber_ids(before)[a] != subscriber_ids(before)[b]);
                }
            }
        }
        id
    }

    /// Unsubscribe from events: the subscriber with this id goes, the others
    /// stay in order
    pub fn unsubscribe(&mut self, id: SubscriberId)
        requires
            old(self).wf(),
        ensures
            final(self).wf(),
            final(self).spec_subscribers() == old(self).spec_subscribers().filter(other_than::<S>(id)),
            !subscriber_ids(final(self).spec_subscribers()).contains(id),
            final(self).spec_next_id() == old(self).spec_next_id(),
            final(self).spec_timeout() == old(self).spec_timeout(),
    {
        let ghost before = self.subscribers@;
        let ghost keep = other_than::<S>(id);
        let mut kept: Vec<Subscriber<S>> = Vec::new();
        let mut rest: Vec<Subscriber<S>> = Vec::new();
        std::mem::swap(&mut rest, &mut self.subscribers);
        let n = rest.len();
        let mut i: usize = 0;
        while i < n
            invariant
                n == before.len(),
                0 <= i <= n,
                rest@ == before.subrange(i as int, n as int),
                kept@ == before.take(i as int).filter(keep),
                keep == other_than::<S>(id),
                subscriber_ids(before).no_duplicates(),
                subscriber_ids(kept@).no_duplicates(),
                forall|k: int| 0 <= k < kept@.len() ==> before.take(i as int).contains(#[trigger] kept@[k]),
                forall|k: int| 0 <= k < kept@.len() ==> (#[trigger] kept@[k]).id != id,
            decreases n - i,
        {
            let s = rest.remove(0);
            assert(s == before[i as int]);
            assert(rest@ =~= before.subrange(i + 1, n as int));
            assert(before.take(i + 1) =~= before.take(i as int).push(s));
            proof {
                before.take(i as int).lemma_filter_push(s, keep);
            }
            if s.id != id {
                let ghost kept0 = kept@;
                kept.push(s);
                proof {
                    lemma_push_keeps_ids_distinct(before, i as int, kept0);
                }
            }
            proof {
                assert forall|k: int| 0 <= k < kept@.len() implies before.take(i + 1).contains(#[trigger] kept@[k]) by {
                    if k < kept@.len() - 1 || s.id == id {
                        let j = choose|j: int| 0 <= j < i && before.take(i as int)[j] == kept@[k];
                        assert(before.take(i + 1)[j] == kept@[k]);
                    } else {
                        assert(before.take(i + 1)[i as int] == kept@[k]);
                    }
                }
            }
            i = i + 1;
        }
        assert(before.take(n as int) =~= before);
        self.subscribers = kept;
        proof {
            assert forall|k: int| 0 <= k < self.subscribers@.len() implies (#[trigger] self.subscribers@[k]).id < self.next_subscriber_id by {
                let j = choose|j: int| 0 <= j < before.len() && before[j] == self.subscribers@[k];
                assert(before[j].id < self.next_subscriber_id);
            }
            if subscriber_ids(self.subscribers@).contains(id) {
                let k = choose|k: int| 0 <= k < self.subscribers@.len() && subscriber_ids(self.subscribers@)[k] == id;
                assert(self.subscribers@[k].id != id);
            }
        }
    }

    /// Modify a subscriber's filter; false when no subscriber has the id
    pub fn modify_filter(&mut self, id: SubscriberId, filter: EventFilter) -> (found: bool)
        requires
            old(self).wf(),
        ensures
            final(self).wf(),
            found == subscriber_ids(old(self).spec_subscribers()).contains(id),
            subscriber_ids(final(self).spec_subscribers()) == subscriber_ids(
                old(self).spec_subscribers(),
            ),
            final(self).spec_subscribers() == old(self).spec_subscribers().map_values(
                |s: Subscriber<S>| with_filter(s, id, filter),
            ),
            final(self).spec_next_id() == old(self).spec_next_id(),
            final(self).spec_timeout() == old(self).spec_timeout(),
    {
        let ghost before = self.subscribers@;
        let mut i: usize = 0;
        while i < self.subscribers.len()
            invariant
                self.subscribers@ == before,
                before == old(self).subscribers@,
                0 <= i <= before.len(),
                forall|k: int| 0 <= k < i ==> subscriber_ids(before)[k] != id,
                self.wf(),
                self.next_subscriber_id == old(self).next_subscriber_id,
                self.inactive_timeout == old(self).inactive_timeout,
            decreases before.len() - i,
        {
            if self.subscribers[i].id == id {
                let mut s = self.subscribers.remove(i);
                s.filter = filter;
                self.subscribers.insert(i, s);
                assert(subscriber_ids(self.subscribers@) =~= subscriber_ids(before));
                proof {
                    let target = before.map_values(|t: Subscriber<S>| with_filter(t, id, filter));
                    assert forall|k: int| 0 <= k < before.len() implies self.subscribers@[k]
                        == target[k] by {
                        if k != i {
                            assert(subscriber_ids(before)[k] != subscriber_ids(before)[i as int]);
                        }
                    }
                    assert(self.subscribers@ =~= target);
                }
                assert(subscriber_ids(before)[i as int] == id);
                proof {
                    assert forall|k: int| 0 <= k < self.subscribers@.len() implies (#[trigger] self.subscribers@[k]).id < self.next_subscriber_id by {
                        assert(subscriber_ids(self.subscribers@)[k] == subscriber_ids(before)[k]);
                        assert(before[k].id < self.next_subscriber_id);
                    }
                }
                return true;
            }
            i = i + 1;
        }
        proof {
            let target = before.map_values(|t: Subscriber<S>| with_filter(t, id, filter));
            assert forall|k: int| 0 <= k < before.len() implies before[k] == target[k] by {
                assert(subscriber_ids(before)[k] != id);
            }
            assert(before =~= target);
        }
        false
    }

    /// Set timeout for inactive subscribers (None to disable)
    pub fn set_inactive_timeout(&mut self, timeout: Option<Duration>)
        requires
            old(self).wf(),
        ensures
            final(self).wf(),
            final(self).spec_timeout() == timeout,
            final(self).spec_subscribers() == old(self).spec_subscribers(),
            final(self).spec_next_id() == old(self).spec_next_id(),
    {
        self.inactive_timeout = timeout;
    }

    /// The inactivity timeout
    pub fn inactive_timeout(&self) -> (t: Option<Duration>)
        ensures
            t == self.spec_timeout(),
    {
        self.inactive_timeout
    }

    /// Deliver an event at `now`: every subscriber becomes active as of `now`
    /// (nothing else of it changes), and the positions of those whose filter
    /// accepts the event are returned, in order, for their channels to be
    /// sent the event
    pub fn recipients(&mut self, event: &BleEvent, now: Instant) -> (r: Vec<usize>)
        requires
            old(self).wf(),
        ensures
            final(self).wf(),
            final(self).spec_subscribers().len() == old(self).spec_subscribers().len(),
            forall|k: int| 0 <= k < final(self).spec_subscribers().len() ==> #[trigger] final(self).spec_subscribers()[k]
                == (Subscriber { last_active: now, ..old(self).spec_subscribers()[k] }),
            subscriber_ids(final(self).spec_subscribers()) == subscriber_ids(
                old(self).spec_subscribers(),
            ),
            forall|k: int| 0 <= k < r@.len() ==> #[trigger] r@[k] < final(self).spec_subscribers().len()
                && spec_filter_accepts(&final(self).spec_subscribers()[r@[k] as int].filter, event, true),
            forall|j: int| 0 <= j < final(self).spec_subscribers().len() && !r@.contains(j as usize)
                ==> spec_filter_accepts(&#[trigger] final(self).spec_subscribers()[j].filter, event, false),
            forall|a: int, b: int| 0 <= a < b < r@.len() ==> r@[a] < r@[b],
            final(self).spec_next_id() == old(self).spec_next_id(),
            final(self).spec_timeout() == old(self).spec_timeout(),
    {
        let ghost subs0 = self.subscribers@;
        let mut r: Vec<usize> = Vec::new();
        let n = self.subscribers.len();
        let mut i: usize = 0;
        while i < n
            invariant
                n == self.subscribers@.len(),
                n == subs0.len(),
                0 <= i <= n,
                subscriber_ids(subs0).no_duplicates(),
                forall|k: int| 0 <= k < n ==> (#[trigger] subs0[k]).id < self.next_subscriber_id,
                forall|k: int| 0 <= k < i ==> #[trigger] self.subscribers@[k] == (Subscriber { last_active: now, ..subs0[k] }),
                forall|k: int| i <= k < n ==> #[trigger] self.subscribers@[k] == subs0[k],
                forall|k: int| 0 <= k < r@.len() ==> #[trigger] r@[k] < i
                    && spec_filter_accepts(&self.subscribers@[r@[k] as int].filter, event, true),
                forall|j: int| 0 <= j < i && !r@.contains(j as usize)
                    ==> spec_filter_accepts(&#[trigger] self.subscribers@[j].filter, event, false),
                forall|a: int, b: int| 0 <= a < b < r@.len() ==> r@[a] < r@[b],
                self.next_subscriber_id == old(self).next_subscriber_id,
                self.inactive_timeout == old(self).inactive_timeout,
                subs0 == old(self).subscribers@,
            decreases n - i,
        {
            let mut s = self.subscribers.remove(i);
            s.last_active = now;
            let accept = s.filter.matches(event);
            self.subscribers.insert(i, s);
            let ghost r0 = r@;
            if accept {
                r.push(i);
            }
            proof {
                assert forall|j: int| 0 <= j < i + 1 && !r@.contains(j as usize)
                    implies spec_filter_accepts(&#[trigger] self.subscribers@[j].filter, event, false) by {
                    if j < i {
                        if r0.contains(j as usize) {
                            let k = choose|k: int| 0 <= k < r0.len() && r0[k] == j as usize;
                            assert(r@[k] == j as usize);
                        }
                    } else {
                        if accept {
                            assert(r@[r0.len() as int] == j as usize);
                        }
                    }
                }
            }
            i = i + 1;
        }
        proof {
            assert(subscriber_ids(self.subscribers@) =~= subscriber_ids(subs0));
        }
        r
    }

    /// Keep the subscribers whose flag is set, in order; the others go
    pub fn retain_flagged(&mut self, keep: &Vec<bool>)
        requires
            old(self).wf(),
            keep@.len() == old(self).spec_subscribers().len(),
        ensures
            final(self).wf(),
            final(self).spec_subscribers() == flagged(old(self).spec_subscribers(), keep@),
            final(self).spec_next_id() == old(self).spec_next_id(),
            final(self).spec_timeout() == old(self).spec_timeout(),
    {
        let ghost before = self.subscribers@;
        let mut kept: Vec<Subscriber<S>> = Vec::new();
        let mut rest: Vec<Subscriber<S>> = Vec::new();
        std::mem::swap(&mut rest, &mut self.subscribers);
        let n = rest.len();
        let mut i: usize = 0;
        while i < n
            invariant
                n == before.len(),
                n == keep@.len(),
                0 <= i <= n,
                rest@ == before.subrange(i as int, n as int),
                kept@ == flagged(before.take(i as int), keep@.take(i as int)),
                subscriber_ids(before).no_duplicates(),
                subscriber_ids(kept@).no_duplicates(),
                forall|k: int| 0 <= k < kept@.len() ==> before.take(i as int).contains(#[trigger] kept@[k]),
            decreases n - i,
        {
            let s = rest.remove(0);
            assert(s == before[i as int]);
            assert(rest@ =~= before.subrange(i + 1, n as int));
            assert(before.take(i + 1).drop_last() =~= before.take(i as int));
            assert(keep@.take(i + 1).drop_last() =~= keep@.take(i as int));
            if keep[i] {
                let ghost kept0 = kept@;
                kept.push(s);
                proof {
                    lemma_push_keeps_ids_distinct(before, i as int, kept0);
                }
            }
            proof {
                assert forall|k: int| 0 <= k < kept@.len() implies before.take(i + 1).contains(#[trigger] kept@[k]) by {
                    if exists|j: int| 0 <= j < i && before.take(i as int)[j] == kept@[k] {
                        let j = choose|j: int| 0 <= j < i && before.take(i as int)[j] == kept@[k];
                        assert(before.take(i + 1)[j] == kept@[k]);
                    } else {
                        assert(before.take(i + 1)[i as int] == kept@[k]);
                    }
                }
            }
            i = i + 1;
        }
        assert(before.take(n as int) =~= before);
        assert(keep@.take(n as int) =~= keep@);
        self.subscribers = kept;
        proof {
            assert forall|k: int| 0 <= k < self.subscribers@.len() implies (#[trigger] self.subscribers@[k]).id < self.next_subscriber_id by {
                let j = choose|j: int| 0 <= j < before.len() && before[j] == self.subscribers@[k];
                assert(before[j].id < self.next_subscriber_id);
            }
        }
    }

    /// Remove subscribers that saw no event for the timeout, judged at `now`
    /// (nothing is removed without a timeout): those whose time since their
    /// last activity, as the clock gives it, is below the timeout stay, in
    /// order
    pub fn remove_inactive(&mut self, now: Instant)
        requires
            old(self).wf(),
        ensures
            final(self).wf(),
            old(self).spec_timeout() is Some ==> exists|keep: Seq<bool>|
                keep.len() == old(self).spec_subscribers().len() && final(self).spec_subscribers()
                    == flagged(old(self).spec_subscribers(), keep),
            old(self).spec_timeout() is None ==> final(self).spec_subscribers() == old(self).spec_subscribers(),
            final(self).spec_next_id() == old(self).spec_next_id(),
            final(self).spec_timeout() == old(self).spec_timeout(),
    {
        let timeout = match self.inactive_timeout {
            Some(t) => t,
            None => {
                return ;
            },
        };
        let mut keep: Vec<bool> = Vec::new();
        for i in 0..self.subscribers.len()
            invariant
                keep@.len() == i,
        {
            let idle = instant_duration_since(&now, &self.subscribers[i].last_active);
            keep.push(duration_as_nanos(&idle) < duration_as_nanos(&timeout));
        }
        self.retain_flagged(&keep);
    }

    /// The number of subscribers
    pub fn subscriber_count(&self) -> (n: usize)
        ensures
            n == self.spec_subscribers().len(),
    {
        self.subscribers.len()
    }

    /// The subscribers' ids, in order of subscription
    pub fn ids(&self) -> (v: Vec<SubscriberId>)
        ensures
            v@ == subscriber_ids(self.spec_subscribers()),
    {
        let mut v: Vec<SubscriberId> = Vec::new();
        for i in 0..self.subscribers.len()
            invariant
                v@ == subscriber_ids(self.subscribers@.take(i as int)),
        {
            v.push(self.subscribers[i].id);
            assert(subscriber_ids(self.subscribers@.take(i + 1)) =~= subscriber_ids(self.subscribers@.take(i as int)).push(self.subscribers@[i as int].id));
        }
        assert(self.subscribers@.take(self.subscribers.len() as int) =~= self.subscribers@);
        v
    }

    /// The id the next subscriber gets
    pub fn next_id(&self) -> (id: SubscriberId)
        ensures
            id == self.spec_next_id(),
    {
        self.next_subscriber_id
    }

    /// The channel of the subscriber at a position, if there is one
    pub fn sender_at(&self, position: usize) -> (s: Option<&S>)
        ensures
            match s {
                Some(x) => position < self.spec_subscribers().len() && *x == self.spec_subscribers()[position as int].sender,
                None => position >= self.spec_subscribers().len(),
            },
    {
        if position < self.subscribers.len() {
            Some(&self.subscribers[position].sender)
        } else {
            None
        }
    }

    /// Shut down: all subscribers go
    pub fn shutdown(&mut self)
        requires
            old(self).wf(),
        ensures
            final(self).wf(),
            final(self).spec_subscribers().len() == 0,
            final(self).spec_next_id() == old(self).spec_next_id(),
            final(self).spec_timeout() == old(self).spec_timeout(),
    {
        self.subscribers.clear();
    }
}

/// Subscriber ids are never reused: the id the broker hands out next is
/// held by no current subscriber, and ids are distinct.
pub proof fn lemma_next_id_is_fresh<S>(b: EventBroker<S>)
    requires
        b.wf(),
    ensures
        !subscriber_ids(b.spec_subscribers()).contains(b.spec_next_id()),
        subscriber_ids(b.spec_subscribers()).no_duplicates(),
{
    if subscriber_ids(b.spec_subscribers()).contains(b.spec_next_id()) {
        let k = choose|k: int|
            0 <= k < b.spec_subscribers().len() && subscriber_ids(b.spec_subscribers())[k]
                == b.spec_next_id();
        assert(b.spec_subscribers()[k].id < b.spec_next_id());
    }
}

} // verus!
