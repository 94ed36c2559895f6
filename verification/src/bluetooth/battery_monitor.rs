//! Smoothing of battery readings and the decisions of the battery monitor.

use std::collections::VecDeque;
use std::time::{Duration, Instant};
use vstd::prelude::*;
use vstd::string::StringExecFns;

use crate::airpods::{AirPodsBattery, AirPodsChargingState};
use crate::config::app_config::AppConfig;
use crate::time::{duration_as_secs, duration_from_secs, duration_nanos, instant_elapsed, instant_now, nanos_per_sec};

verus! {

/// Size of the battery reading buffer for smoothing
pub const BATTERY_BUFFER_SIZE: usize = 3;
/// Default polling interval in seconds
pub const DEFAULT_POLLING_INTERVAL: u64 = 5;
/// Minimum polling interval in seconds
pub const MIN_POLLING_INTERVAL: u64 = 2;
/// Maximum polling interval in seconds
pub const MAX_POLLING_INTERVAL: u64 = 30;
/// Low battery threshold (percentage)
pub const LOW_BATTERY_THRESHOLD: u8 = 20;
/// Default level change threshold for adaptive polling
pub const DEFAULT_CHANGE_THRESHOLD: u8 = 5;
/// Seconds during which a second low-battery alert for a component is held back.
pub const NOTIFICATION_COOLDOWN_SECS: u64 = 1800;

/// Sum of the readings in a buffer.
pub open spec fn seq_sum(s: Seq<u8>) -> nat
    decreases s.len(),
{
    if s.len() == 0 {
        0
    } else {
        seq_sum(s.drop_last()) + s.last() as nat
    }
}

/// The integer mean of a buffer, absent when it is empty.
pub open spec fn spec_average(s: Seq<u8>) -> Option<u8> {
    if s.len() == 0 {
        None
    } else {
        Some((seq_sum(s) / s.len()) as u8)
    }
}

/// A buffer after a reading: a known level is appended, and the oldest
/// reading is dropped when the buffer outgrows `max`.
pub open spec fn spec_push_reading(s: Seq<u8>, v: Option<u8>, max: nat) -> Seq<u8> {
    match v {
        Some(x) => if s.push(x).len() > max {
            s.push(x).drop_first()
        } else {
            s.push(x)
        },
        None => s,
    }
}

/// The smoothed value of one component: unknown stays unknown, an empty
/// buffer gives the current level, otherwise the buffer mean.
pub open spec fn spec_smoothed(buffer: Seq<u8>, current: Option<u8>) -> Option<u8> {
    match current {
        Some(c) => if buffer.len() == 0 {
            Some(c)
        } else {
            spec_average(buffer)
        },
        None => None,
    }
}

proof fn lemma_sum_bound(s: Seq<u8>)
    ensures
        seq_sum(s) <= 255 * s.len(),
    decreases s.len(),
{
    if s.len() > 0 {
        lemma_sum_bound(s.drop_last());
    }
}

/// Battery reading buffer for smoothing readings
#[derive(Debug, Clone)]
pub struct BatteryBuffer {
    /// Buffer for left earbud readings
    pub left_buffer: VecDeque<u8>,
    /// Buffer for right earbud readings
    pub right_buffer: VecDeque<u8>,
    /// Buffer for case readings
    pub case_buffer: VecDeque<u8>,
    /// Maximum buffer size
    pub max_size: usize,
}

impl BatteryBuffer {
    /// No buffer holds more than `max_size` readings.
    pub open spec fn wf(self) -> bool {
        &&& self.left_buffer@.len() <= self.max_size
        &&& self.right_buffer@.len() <= self.max_size
        &&& self.case_buffer@.len() <= self.max_size
    }

    /// Create a new battery buffer
    pub fn new(max_size: usize) -> (b: Self)
        ensures
            b.wf(),
            b.max_size == max_size,
            b.left_buffer@.len() == 0,
            b.right_buffer@.len() == 0,
            b.case_buffer@.len() == 0,
    {
        BatteryBuffer {
            left_buffer: VecDeque::new(),
            right_buffer: VecDeque::new(),
            case_buffer: VecDeque::new(),
            max_size,
        }
    }

    fn push_reading(buffer: &mut VecDeque<u8>, value: Option<u8>, max_size: usize)
        requires
            old(buffer)@.len() <= max_size,
        ensures
            final(buffer)@ == spec_push_reading(old(buffer)@, value, max_size as nat),
            final(buffer)@.len() <= max_size,
    {
        if let Some(v) = value {
            buffer.push_back(v);
            if buffer.len() > max_size {
                buffer.pop_front();
            }
        }
    }

    /// Add a battery reading to the buffer
    pub fn add_reading(&mut self, battery: &AirPodsBattery)
        requires
            old(self).wf(),
        ensures
            final(self).wf(),
            final(self).max_size == old(self).max_size,
            final(self).left_buffer@ == spec_push_reading(
                old(self).left_buffer@,
                battery.left,
                old(self).max_size as nat,
            ),
            final(self).right_buffer@ == spec_push_reading(
                old(self).right_buffer@,
                battery.right,
                old(self).max_size as nat,
            ),
            final(self).case_buffer@ == spec_push_reading(
                old(self).case_buffer@,
                battery.case,
                old(self).max_size as nat,
            ),
    {
        let max = self.max_size;
        Self::push_reading(&mut self.left_buffer, battery.left, max);
        Self::push_reading(&mut self.right_buffer, battery.right, max);
        Self::push_reading(&mut self.case_buffer, battery.case, max);
    }

    fn calculate_average(buffer: &VecDeque<u8>) -> (r: Option<u8>)
        ensures
            r == spec_average(buffer@),
    {
        let n = buffer.len();
        if n == 0 {
            return None;
        }
        // The sum is taken in 128 bits, where any number of readings fits.
        let mut sum: u128 = 0;
        let mut i: usize = 0;
        while i < n
            invariant
                n == buffer@.len(),
                0 <= i <= n,
                sum == seq_sum(buffer@.take(i as int)),
            decreases n - i,
        {
            proof {
                lemma_sum_bound(buffer@.take(i as int));
                assert(buffer@.take(i + 1).drop_last() =~= buffer@.take(i as int));
            }
            sum = sum + buffer[i] as u128;
            i = i + 1;
        }
        assert(buffer@.take(n as int) =~= buffer@);
        proof {
            lemma_sum_bound(buffer@);
            assert(seq_sum(buffer@) / (n as nat) <= 255) by (nonlinear_arith)
                requires
                    seq_sum(buffer@) <= 255 * n,
                    n > 0,
            ;
        }
        Some((sum / (n as u128)) as u8)
    }

    /// Get the average left earbud battery level
    pub fn get_average_left(&self) -> (r: Option<u8>)
        requires
            self.wf(),
        ensures
            r == spec_average(self.left_buffer@),
    {
        Self::calculate_average(&self.left_buffer)
    }

    /// Get the average right earbud battery level
    pub fn get_average_right(&self) -> (r: Option<u8>)
        requires
            self.wf(),
        ensures
            r == spec_average(self.right_buffer@),
    {
        Self::calculate_average(&self.right_buffer)
    }

    /// Get the average case battery level
    pub fn get_average_case(&self) -> (r: Option<u8>)
        requires
            self.wf(),
        ensures
            r == spec_average(self.case_buffer@),
    {
        Self::calculate_average(&self.case_buffer)
    }

    /// Clear the buffer
    pub fn clear(&mut self)
        requires
            old(self).wf(),
        ensures
            final(self).wf(),
            final(self).max_size == old(self).max_size,
            final(self).left_buffer@.len() == 0,
            final(self).right_buffer@.len() == 0,
            final(self).case_buffer@.len() == 0,
    {
        self.left_buffer.clear();
        self.right_buffer.clear();
        self.case_buffer.clear();
    }

    /// The smoothed reading of the buffer for a current reading.
    pub open spec fn spec_smoothed_reading(self, current: AirPodsBattery) -> AirPodsBattery {
        AirPodsBattery {
            left: spec_smoothed(self.left_buffer@, current.left),
            right: spec_smoothed(self.right_buffer@, current.right),
            case: spec_smoothed(self.case_buffer@, current.case),
            charging: current.charging,
        }
    }

    /// Get a smoothed reading based on the buffer contents and current reading
    pub fn get_smoothed_reading(&self, current: &AirPodsBattery) -> (r: AirPodsBattery)
        requires
            self.wf(),
        ensures
            r == self.spec_smoothed_reading(*current),
    {
        let left = match current.left {
            Some(c) => if self.left_buffer.len() == 0 {
                Some(c)
            } else {
                self.get_average_left()
            },
            None => None,
        };
        let right = match current.right {
            Some(c) => if self.right_buffer.len() == 0 {
                Some(c)
            } else {
                self.get_average_right()
            },
            None => None,
        };
        let case = match current.case {
            Some(c) => if self.case_buffer.len() == 0 {
                Some(c)
            } else {
                self.get_average_case()
            },
            None => None,
        };
        AirPodsBattery { left, right, case, charging: current.charging }
    }
}

proof fn lemma_sum_between(s: Seq<u8>, lo: u8, hi: u8)
    requires
        forall|i: int| 0 <= i < s.len() ==> lo <= #[trigger] s[i] <= hi,
    ensures
        lo * s.len() <= seq_sum(s) <= hi * s.len(),
    decreases s.len(),
{
    if s.len() > 0 {
        let t = s.drop_last();
        assert forall|i: int| 0 <= i < t.len() implies lo <= #[trigger] t[i] <= hi by {
            assert(t[i] == s[i]);
        }
        lemma_sum_between(t, lo, hi);
        assert(s.last() == s[s.len() - 1]);
        assert(lo * s.len() == lo * t.len() + lo) by (nonlinear_arith)
            requires
                s.len() == t.len() + 1,
        ;
        assert(hi * s.len() == hi * t.len() + hi) by (nonlinear_arith)
            requires
                s.len() == t.len() + 1,
        ;
    }
}

/// The mean of a non-empty buffer lies between the smallest and largest bounds
/// of its readings; in particular readings of at most 100 average to at most 100.
pub proof fn lemma_average_within_bounds(s: Seq<u8>, lo: u8, hi: u8)
    requires
        s.len() > 0,
        forall|i: int| 0 <= i < s.len() ==> lo <= #[trigger] s[i] <= hi,
    ensures
        spec_average(s) matches Some(a) && lo <= a <= hi,
{
    lemma_sum_between(s, lo, hi);
    let n = s.len();
    let t = seq_sum(s);
    assert(lo <= t / n <= hi) by (nonlinear_arith)
        requires
            lo * n <= t <= hi * n,
            n > 0,
    ;
}

/// A buffer never holds more readings than its capacity, and a known reading
/// is always its newest element.
pub proof fn lemma_push_reading_bounded(s: Seq<u8>, v: Option<u8>, max: nat)
    requires
        s.len() <= max,
    ensures
        spec_push_reading(s, v, max).len() <= max,
        max > 0 && v is Some ==> spec_push_reading(s, v, max).last() == v->0,
        v is None ==> spec_push_reading(s, v, max) == s,
{
}

/// Options for battery monitoring
#[derive(Debug, Clone, Copy, PartialEq, Eq, Structural)]
pub struct BatteryMonitorOptions {
    /// Initial polling interval in seconds
    pub polling_interval: u64,
    /// Whether to use adaptive polling interval
    pub adaptive_polling: bool,
    /// Minimum level change to trigger faster polling (percentage)
    pub change_threshold: u8,
    /// Whether to use buffer for smoothing readings
    pub use_smoothing: bool,
    /// Low battery threshold in percentage
    pub low_battery_threshold: u8,
    /// Whether to notify on low battery
    pub notify_low_battery: bool,
}

impl BatteryMonitorOptions {
    /// The default options.
    pub open spec fn spec_default() -> BatteryMonitorOptions {
        BatteryMonitorOptions {
            polling_interval: DEFAULT_POLLING_INTERVAL,
            adaptive_polling: true,
            change_threshold: DEFAULT_CHANGE_THRESHOLD,
            use_smoothing: true,
            low_battery_threshold: LOW_BATTERY_THRESHOLD,
            notify_low_battery: true,
        }
    }
}

impl BatteryMonitorOptions {
    /// Create options from app config
    pub fn from_config(config: &AppConfig) -> (o: Self)
        ensures
            o.polling_interval == duration_nanos(config.bluetooth.battery_refresh_interval)
                / nanos_per_sec(),
            o.adaptive_polling == config.bluetooth.adaptive_polling,
            o.change_threshold == config.battery.change_threshold,
            o.use_smoothing == config.battery.smoothing_enabled,
            o.low_battery_threshold == config.battery.low_threshold,
            o.notify_low_battery == config.battery.notify_low,
    {
        BatteryMonitorOptions {
            polling_interval: duration_as_secs(&config.bluetooth.battery_refresh_interval),
            adaptive_polling: config.bluetooth.adaptive_polling,
            change_threshold: config.battery.change_threshold,
            use_smoothing: config.battery.smoothing_enabled,
            low_battery_threshold: config.battery.low_threshold,
            notify_low_battery: config.battery.notify_low,
        }
    }
}

impl Default for BatteryMonitorOptions {
    fn default() -> (o: Self)
        ensures
            o == BatteryMonitorOptions::spec_default(),
    {
        BatteryMonitorOptions {
            polling_interval: DEFAULT_POLLING_INTERVAL,
            adaptive_polling: true,
            change_threshold: DEFAULT_CHANGE_THRESHOLD,
            use_smoothing: true,
            low_battery_threshold: LOW_BATTERY_THRESHOLD,
            notify_low_battery: true,
        }
    }
}

/// Battery alert types
#[derive(Debug, Clone)]
pub enum BatteryAlert {
    /// Low battery alert with component name and level
    LowBattery(String, u8),
    /// Charging complete alert with component name
    ChargingComplete(String),
    /// Battery level increased significantly
    BatteryIncreased(String, u8),
}

/// A component of an AirPods set.
#[derive(Debug, Clone, Copy, PartialEq, Eq, Structural)]
pub enum BatteryComponent {
    /// The left bud
    Left,
    /// The right bud
    Right,
    /// The case
    Case,
}

impl BatteryComponent {
    /// The name used in alerts for the component.
    pub open spec fn spec_alert_name(self) -> Seq<char> {
        match self {
            BatteryComponent::Left => "Left AirPod"@,
            BatteryComponent::Right => "Right AirPod"@,
            BatteryComponent::Case => "AirPods Case"@,
        }
    }

    /// The name used in alerts for the component.
    pub fn alert_name(&self) -> (s: &'static str)
        ensures
            s@ == self.spec_alert_name(),
    {
        match self {
            BatteryComponent::Left => "Left AirPod",
            BatteryComponent::Right => "Right AirPod",
            BatteryComponent::Case => "AirPods Case",
        }
    }
}

/// Which components had a low-battery alert within the cooldown period.
#[derive(Debug, Clone, Copy, PartialEq, Eq, Structural)]
pub struct ThrottleState {
    pub left: bool,
    pub right: bool,
    pub case: bool,
}

/// When each component last had a low-battery alert.
#[derive(Debug, Clone)]
pub struct NotificationTimes {
    pub left: Option<Instant>,
    pub right: Option<Instant>,
    pub case: Option<Instant>,
}

/// The low-battery alert for a reading: the first of left, right and case
/// whose level is known, at or below the threshold, not charging and not
/// throttled.
pub open spec fn spec_low_battery_alert(threshold: u8, b: AirPodsBattery, t: ThrottleState) -> Option<
    (BatteryComponent, u8),
> {
    let left_charging = b.charging matches Some(s) && s.spec_left();
    let right_charging = b.charging matches Some(s) && s.spec_right();
    let case_charging = b.charging == Some(AirPodsChargingState::CaseCharging);
    if b.left is Some && b.left->0 <= threshold && !left_charging && !t.left {
        Some((BatteryComponent::Left, b.left->0))
    } else if b.right is Some && b.right->0 <= threshold && !right_charging && !t.right {
        Some((BatteryComponent::Right, b.right->0))
    } else if b.case is Some && b.case->0 <= threshold && !case_charging && !t.case {
        Some((BatteryComponent::Case, b.case->0))
    } else {
        None
    }
}

/// The low-battery alert decided for a reading:
/// - no alert names a bud that charges (the left one under `LeftCharging` or
///   `BothBudsCharging`, the right one under `RightCharging` or
///   `BothBudsCharging`) or the case while `CaseCharging`, nor a component
///   that is throttled, unknown or above the threshold; the level reported is
///   the component's own;
/// - the left bud is alerted when it is known, at or below the threshold, not
///   charging and not throttled;
/// - otherwise, when the left bud is unknown, above the threshold or
///   throttled, the right bud is alerted under the same conditions, whatever
///   the left bud's charging;
/// - when neither bud is eligible that way, the case is alerted under the
///   same conditions, and with no component eligible there is no alert.
pub proof fn lemma_low_battery_alert_rules(threshold: u8, b: AirPodsBattery, t: ThrottleState)
    ensures
        ({
            let r = spec_low_battery_alert(threshold, b, t);
            let left_charges = b.charging == Some(AirPodsChargingState::LeftCharging) || b.charging
                == Some(AirPodsChargingState::BothBudsCharging);
            let right_charges = b.charging == Some(AirPodsChargingState::RightCharging)
                || b.charging == Some(AirPodsChargingState::BothBudsCharging);
            let case_charges = b.charging == Some(AirPodsChargingState::CaseCharging);
            let left_out = b.left is None || b.left->0 > threshold || t.left;
            let right_out = b.right is None || b.right->0 > threshold || t.right;
            &&& left_charges ==> !(r matches Some((BatteryComponent::Left, _)))
            &&& right_charges ==> !(r matches Some((BatteryComponent::Right, _)))
            &&& case_charges ==> !(r matches Some((BatteryComponent::Case, _)))
            &&& r matches Some((BatteryComponent::Left, l)) ==> b.left == Some(l) && l <= threshold
                && !t.left
            &&& r matches Some((BatteryComponent::Right, l)) ==> b.right == Some(l) && l
                <= threshold && !t.right
            &&& r matches Some((BatteryComponent::Case, l)) ==> b.case == Some(l) && l <= threshold
                && !t.case
            &&& (b.left is Some && b.left->0 <= threshold && !t.left && !left_charges) ==> r
                == Some((BatteryComponent::Left, b.left->0))
            &&& (left_out && b.right is Some && b.right->0 <= threshold && !t.right
                && !right_charges) ==> r == Some((BatteryComponent::Right, b.right->0))
            &&& (left_out && right_out && b.case is Some && b.case->0 <= threshold && !t.case
                && !case_charges) ==> r == Some((BatteryComponent::Case, b.case->0))
            &&& (left_out && right_out && (b.case is None || b.case->0 > threshold || t.case))
                ==> r is None
        }),
{
}

/// Which readings are valid: a reading with no known level, with a level
/// above 100, or with no charging state is invalid; one with some known
/// level, every known level at most 100 and a charging state is valid.
pub proof fn lemma_valid_battery_rules(b: AirPodsBattery)
    ensures
        (b.left is None && b.right is None && b.case is None) ==> !spec_is_valid_battery(b),
        (b.left is Some && b.left->0 > 100) ==> !spec_is_valid_battery(b),
        (b.right is Some && b.right->0 > 100) ==> !spec_is_valid_battery(b),
        (b.case is Some && b.case->0 > 100) ==> !spec_is_valid_battery(b),
        b.charging is None ==> !spec_is_valid_battery(b),
        ((b.left is Some || b.right is Some || b.case is Some) && (b.left is None || b.left->0
            <= 100) && (b.right is None || b.right->0 <= 100) && (b.case is None || b.case->0
            <= 100) && b.charging is Some) ==> spec_is_valid_battery(b),
{
}

/// A change is significant when some level known in both readings moved by
/// more than the threshold, up or down, or when the charging state changed;
/// with every level within the threshold (or unknown in either) and the same
/// charging state it is not.
pub proof fn lemma_significant_change_rules(last: AirPodsBattery, cur: AirPodsBattery, threshold: u8)
    ensures
        (last.left is Some && cur.left is Some && (cur.left->0 > last.left->0 + threshold
            || last.left->0 > cur.left->0 + threshold)) ==> spec_significant_change(
            last,
            cur,
            threshold,
        ),
        (last.right is Some && cur.right is Some && (cur.right->0 > last.right->0 + threshold
            || last.right->0 > cur.right->0 + threshold)) ==> spec_significant_change(
            last,
            cur,
            threshold,
        ),
        (last.case is Some && cur.case is Some && (cur.case->0 > last.case->0 + threshold
            || last.case->0 > cur.case->0 + threshold)) ==> spec_significant_change(
            last,
            cur,
            threshold,
        ),
        last.charging != cur.charging ==> spec_significant_change(last, cur, threshold),
        (last.charging == cur.charging && (last.left is None || cur.left is None || (cur.left->0
            <= last.left->0 + threshold && last.left->0 <= cur.left->0 + threshold)) && (
        last.right is None || cur.right is None || (cur.right->0 <= last.right->0 + threshold
            && last.right->0 <= cur.right->0 + threshold)) && (last.case is None || cur.case is None
            || (cur.case->0 <= last.case->0 + threshold && last.case->0 <= cur.case->0
            + threshold))) ==> !spec_significant_change(last, cur, threshold),
{
}

/// The polling interval chosen after a valid reading: none before there is
/// an earlier reading; the shortest interval while something charges or the
/// reading changed significantly; otherwise by the lowest known level: the
/// shortest at or below the low-battery threshold, the configured one below
/// 50%, the longest from 50% on.
pub proof fn lemma_adaptive_interval_rules(
    o: BatteryMonitorOptions,
    last: Option<AirPodsBattery>,
    b: AirPodsBattery,
)
    ensures
        last is None ==> spec_adaptive_secs(o, last, b) is None,
        (last is Some && b.charging is Some && b.charging->0 != AirPodsChargingState::NotCharging)
            ==> spec_adaptive_secs(o, last, b) == Some(MIN_POLLING_INTERVAL),
        (last is Some && spec_significant_change(last->0, b, o.change_threshold))
            ==> spec_adaptive_secs(o, last, b) == Some(MIN_POLLING_INTERVAL),
        (last is Some && !spec_significant_change(last->0, b, o.change_threshold) && (b.charging
            is None || b.charging->0 == AirPodsChargingState::NotCharging) && b.left is Some
            && b.right is None && b.case is None) ==> spec_adaptive_secs(o, last, b) == Some(
            if b.left->0 <= o.low_battery_threshold {
                MIN_POLLING_INTERVAL
            } else if b.left->0 < 50 {
                o.polling_interval
            } else {
                MAX_POLLING_INTERVAL
            },
        ),
{
}

/// A buffer takes a known reading at its end; the oldest reading goes only
/// when the buffer would hold more than its capacity; an unknown reading
/// leaves it as it was.
pub proof fn lemma_push_reading_rules(s: Seq<u8>, v: u8, max: nat)
    requires
        s.len() <= max,
    ensures
        s.len() < max ==> spec_push_reading(s, Some(v), max) == s.push(v),
        (s.len() == max && max > 0) ==> spec_push_reading(s, Some(v), max) == s.subrange(
            1,
            s.len() as int,
        ).push(v),
        spec_push_reading(s, None, max) == s,
{
    if s.len() == max && max > 0 {
        assert(s.push(v).drop_first() =~= s.subrange(1, s.len() as int).push(v));
    }
}

/// The smoothed level of one component: unknown when the current level is
/// unknown; the current level when nothing is buffered; otherwise the
/// buffer's mean, which for a buffer of one repeated level is that level.
pub proof fn lemma_smoothed_rules(buffer: Seq<u8>, current: Option<u8>, v: u8)
    ensures
        current is None ==> spec_smoothed(buffer, current) is None,
        (current is Some && buffer.len() == 0) ==> spec_smoothed(buffer, current) == current,
        (current is Some && buffer.len() > 0 && forall|i: int|
            0 <= i < buffer.len() ==> #[trigger] buffer[i] == v) ==> spec_smoothed(buffer, current)
            == Some(v),
{
    if current is Some && buffer.len() > 0 && forall|i: int|
        0 <= i < buffer.len() ==> #[trigger] buffer[i] == v {
        lemma_average_within_bounds(buffer, v, v);
    }
}

/// The throttle flags a monitor can hold back alerts with: a component is
/// only held back when it has had an alert before (whether that alert is
/// still within the cooldown period is read from the clock).
pub open spec fn spec_throttle_allowed(n: NotificationTimes, t: ThrottleState) -> bool {
    &&& (t.left ==> n.left is Some)
    &&& (t.right ==> n.right is Some)
    &&& (t.case ==> n.case is Some)
}

/// The notification times after a decided alert: the alerted component's
/// time is set (to the clock's reading), the others are kept; with no alert
/// all are kept.
pub open spec fn spec_notified(
    before: NotificationTimes,
    after: NotificationTimes,
    decided: Option<(BatteryComponent, u8)>,
) -> bool {
    match decided {
        None => after == before,
        Some((BatteryComponent::Left, _)) => after.left is Some && after.right == before.right
            && after.case == before.case,
        Some((BatteryComponent::Right, _)) => after.right is Some && after.left == before.left
            && after.case == before.case,
        Some((BatteryComponent::Case, _)) => after.case is Some && after.left == before.left
            && after.right == before.right,
    }
}

/// A reading is valid when some level is known, every known level is at most
/// 100 and the charging state is known.
pub open spec fn spec_is_valid_battery(b: AirPodsBattery) -> bool {
    &&& (b.left is Some || b.right is Some || b.case is Some)
    &&& (b.left matches Some(l) ==> l <= 100)
    &&& (b.right matches Some(r) ==> r <= 100)
    &&& (b.case matches Some(c) ==> c <= 100)
    &&& b.charging is Some
}

/// One level moved by more than the threshold (both readings known).
pub open spec fn spec_level_changed(last: Option<u8>, current: Option<u8>, threshold: u8) -> bool {
    match (last, current) {
        (Some(a), Some(b)) => (b as int - a as int > threshold as int) || (a as int - b as int
            > threshold as int),
        _ => false,
    }
}

/// A reading differs significantly from the last one: some level moved by
/// more than the threshold, or the charging state changed.
pub open spec fn spec_significant_change(
    last: AirPodsBattery,
    current: AirPodsBattery,
    threshold: u8,
) -> bool {
    ||| spec_level_changed(last.left, current.left, threshold)
    ||| spec_level_changed(last.right, current.right, threshold)
    ||| spec_level_changed(last.case, current.case, threshold)
    ||| last.charging != current.charging
}

/// The lowest known level of a reading.
pub open spec fn spec_minimum_level(b: AirPodsBattery) -> Option<u8> {
    let m1 = b.left;
    let m2 = match (m1, b.right) {
        (Some(a), Some(r)) => Some(if r < a { r } else { a }),
        (None, Some(r)) => Some(r),
        (x, None) => x,
    };
    match (m2, b.case) {
        (Some(a), Some(c)) => Some(if c < a { c } else { a }),
        (None, Some(c)) => Some(c),
        (x, None) => x,
    }
}

/// Whether the charging state says something charges.
pub open spec fn spec_charging_now(b: AirPodsBattery) -> bool {
    b.charging matches Some(s) && s.spec_any()
}

/// The polling interval, in seconds, chosen for a reading; `None` keeps the
/// current interval (there is no earlier valid reading).
pub open spec fn spec_adaptive_secs(
    options: BatteryMonitorOptions,
    last: Option<AirPodsBattery>,
    b: AirPodsBattery,
) -> Option<u64> {
    match last {
        None => None,
        Some(l) => if spec_significant_change(l, b, options.change_threshold) || spec_charging_now(
            b,
        ) {
            Some(MIN_POLLING_INTERVAL)
        } else {
            match spec_minimum_level(b) {
                Some(level) => if level <= options.low_battery_threshold {
                    Some(MIN_POLLING_INTERVAL)
                } else if level < 50 {
                    Some(options.polling_interval)
                } else {
                    Some(MAX_POLLING_INTERVAL)
                },
                None => Some(options.polling_interval),
            }
        },
    }
}

/// Enhanced battery monitor for AirPods devices: the state that the
/// monitoring loop keeps between readings.
#[derive(Debug)]
pub struct BatteryMonitor {
    /// Options for the battery monitor
    pub options: BatteryMonitorOptions,
    /// Buffer for smoothing readings
    pub buffer: BatteryBuffer,
    /// Last valid battery reading
    pub last_valid_reading: Option<AirPodsBattery>,
    /// Current polling interval
    pub current_interval: Duration,
    /// Whether any low battery notifications have been sent
    pub low_battery_notified: bool,
    /// Last notification time for each component
    pub last_notification: NotificationTimes,
}

/// What the monitor reports for one reading: the reading to pass on and the
/// alert that goes with it.
#[derive(Debug)]
pub struct MonitorReport {
    /// The (smoothed) reading to report
    pub battery: AirPodsBattery,
    /// A low-battery alert, if one is due
    pub alert: Option<BatteryAlert>,
}

/// The alert value of a decided low-battery alert.
pub open spec fn alert_matches(alert: Option<BatteryAlert>, decided: Option<(BatteryComponent, u8)>) -> bool {
    match decided {
        None => alert is None,
        Some((c, level)) => alert matches Some(BatteryAlert::LowBattery(name, l)) && name@
            == c.spec_alert_name() && l == level,
    }
}

impl BatteryMonitor {
    /// The buffer is well formed.
    pub open spec fn wf(self) -> bool {
        self.buffer.wf()
    }

    /// Create a new battery monitor with default options
    pub fn new() -> (m: Self)
        ensures
            m.wf(),
            m.options == BatteryMonitorOptions::spec_default(),
            m.last_valid_reading is None,
            duration_nanos(m.current_interval) == DEFAULT_POLLING_INTERVAL * nanos_per_sec(),
    {
        Self::with_options(BatteryMonitorOptions::default())
    }

    /// Create a new battery monitor with the specified options
    pub fn with_options(options: BatteryMonitorOptions) -> (m: Self)
        ensures
            m.wf(),
            m.options == options,
            m.buffer.max_size == BATTERY_BUFFER_SIZE,
            m.buffer.left_buffer@.len() == 0,
            m.buffer.right_buffer@.len() == 0,
            m.buffer.case_buffer@.len() == 0,
            m.last_valid_reading is None,
            !m.low_battery_notified,
            duration_nanos(m.current_interval) == options.polling_interval * nanos_per_sec(),
    {
        BatteryMonitor {
            current_interval: duration_from_secs(options.polling_interval),
            buffer: BatteryBuffer::new(BATTERY_BUFFER_SIZE),
            last_valid_reading: None,
            low_battery_notified: false,
            last_notification: NotificationTimes { left: None, right: None, case: None },
            options,
        }
    }

    /// Check if a battery reading is valid
    pub fn is_valid_battery(&self, battery: &AirPodsBattery) -> (r: bool)
        ensures
            r == spec_is_valid_battery(*battery),
    {
        let has_any_reading = battery.left.is_some() || battery.right.is_some()
            || battery.case.is_some();
        let valid_left = match battery.left {
            Some(level) => level <= 100,
            None => true,
        };
        let valid_right = match battery.right {
            Some(level) => level <= 100,
            None => true,
        };
        let valid_case = match battery.case {
            Some(level) => level <= 100,
            None => true,
        };
        let valid_charging = battery.charging.is_some();
        has_any_reading && valid_left && valid_right && valid_case && valid_charging
    }

    fn level_changed(last: Option<u8>, current: Option<u8>, threshold: u8) -> (r: bool)
        ensures
            r == spec_level_changed(last, current, threshold),
    {
        match (last, current) {
            (Some(a), Some(b)) => {
                let diff: i16 = b as i16 - a as i16;
                let abs: i16 = if diff < 0 { -diff } else { diff };
                abs > threshold as i16
            },
            _ => false,
        }
    }

    /// Check if there has been a significant change in battery levels
    pub fn has_significant_change(&self, last: &AirPodsBattery, current: &AirPodsBattery) -> (r: bool)
        ensures
            r == spec_significant_change(*last, *current, self.options.change_threshold),
    {
        let threshold = self.options.change_threshold;
        let level_change = Self::level_changed(last.left, current.left, threshold);
        let right_change = Self::level_changed(last.right, current.right, threshold);
        let case_change = Self::level_changed(last.case, current.case, threshold);
        let charging_change = match (last.charging, current.charging) {
            (Some(a), Some(b)) => a != b,
            (None, Some(_)) | (Some(_), None) => true,
            (None, None) => false,
        };
        level_change || right_change || case_change || charging_change
    }

    /// Get the minimum battery level across all components
    pub fn get_minimum_battery_level(&self, battery: &AirPodsBattery) -> (r: Option<u8>)
        ensures
            r == spec_minimum_level(*battery),
    {
        let m1 = battery.left;
        let m2 = match (m1, battery.right) {
            (Some(a), Some(r)) => Some(if r < a { r } else { a }),
            (None, Some(r)) => Some(r),
            (x, None) => x,
        };
        match (m2, battery.case) {
            (Some(a), Some(c)) => Some(if c < a { c } else { a }),
            (None, Some(c)) => Some(c),
            (x, None) => x,
        }
    }

    /// Calculate adaptive polling interval based on battery status
    pub fn calculate_adaptive_interval(&self, battery: &AirPodsBattery) -> (d: Duration)
        ensures
            match spec_adaptive_secs(self.options, self.last_valid_reading, *battery) {
                None => d == self.current_interval,
                Some(secs) => duration_nanos(d) == secs * nanos_per_sec(),
            },
    {
        match &self.last_valid_reading {
            None => self.current_interval,
            Some(last) => {
                let charging = match battery.charging {
                    Some(c) => c.is_any_charging(),
                    None => false,
                };
                if self.has_significant_change(last, battery) || charging {
                    duration_from_secs(MIN_POLLING_INTERVAL)
                } else {
                    match self.get_minimum_battery_level(battery) {
                        Some(level) => if level <= self.options.low_battery_threshold {
                            duration_from_secs(MIN_POLLING_INTERVAL)
                        } else if level < 50 {
                            duration_from_secs(self.options.polling_interval)
                        } else {
                            duration_from_secs(MAX_POLLING_INTERVAL)
                        },
                        None => duration_from_secs(self.options.polling_interval),
                    }
                }
            },
        }
    }

    /// The low-battery alert for a reading given which components are throttled.
    pub fn low_battery_alert(&self, battery: &AirPodsBattery, throttled: ThrottleState) -> (r: Option<
        (BatteryComponent, u8),
    >)
        ensures
            r == spec_low_battery_alert(self.options.low_battery_threshold, *battery, throttled),
    {
        let threshold = self.options.low_battery_threshold;
        let left_charging = match battery.charging {
            Some(s) => s.is_left_charging(),
            None => false,
        };
        let right_charging = match battery.charging {
            Some(s) => s.is_right_charging(),
            None => false,
        };
        let case_charging = match battery.charging {
            Some(s) => s.is_case_charging(),
            None => false,
        };
        if let Some(left) = battery.left {
            if left <= threshold && !left_charging && !throttled.left {
                return Some((BatteryComponent::Left, left));
            }
        }
        if let Some(right) = battery.right {
            if right <= threshold && !right_charging && !throttled.right {
                return Some((BatteryComponent::Right, right));
            }
        }
        if let Some(case) = battery.case {
            if case <= threshold && !case_charging && !throttled.case {
                return Some((BatteryComponent::Case, case));
            }
        }
        None
    }

    /// Whether an alert at the given time is held back: it is within the
    /// cooldown period after the last one. The time is read from the clock.
    fn throttled_since(last: &Option<Instant>) -> (r: bool)
        ensures
            r ==> last is Some,
    {
        match last {
            Some(t) => {
                let elapsed = instant_elapsed(t);
                duration_as_secs(&elapsed) < NOTIFICATION_COOLDOWN_SECS
            },
            None => false,
        }
    }

    /// Check for low battery and generate alerts if needed. Whether a
    /// component is still in its cooldown period is read from the clock.
    pub fn check_low_battery(&mut self, battery: &AirPodsBattery) -> (r: Option<BatteryAlert>)
        requires
            old(self).wf(),
        ensures
            final(self).wf(),
            final(self).options == old(self).options,
            final(self).buffer == old(self).buffer,
            final(self).last_valid_reading == old(self).last_valid_reading,
            final(self).current_interval == old(self).current_interval,
            final(self).low_battery_notified == old(self).low_battery_notified,
            !old(self).options.notify_low_battery ==> r is None && final(self).last_notification
                == old(self).last_notification,
            old(self).options.notify_low_battery ==> exists|t: ThrottleState|
                spec_throttle_allowed(old(self).last_notification, t) && alert_matches(
                    r,
                    #[trigger] spec_low_battery_alert(
                        old(self).options.low_battery_threshold,
                        *battery,
                        t,
                    ),
                ) && spec_notified(
                    old(self).last_notification,
                    final(self).last_notification,
                    spec_low_battery_alert(old(self).options.low_battery_threshold, *battery, t),
                ),
    {
        if !self.options.notify_low_battery {
            return None;
        }
        let throttled = ThrottleState {
            left: Self::throttled_since(&self.last_notification.left),
            right: Self::throttled_since(&self.last_notification.right),
            case: Self::throttled_since(&self.last_notification.case),
        };
        let decided = self.low_battery_alert(battery, throttled);
        match decided {
            Some((component, level)) => {
                let now = instant_now();
                match component {
                    BatteryComponent::Left => self.last_notification.left = Some(now),
                    BatteryComponent::Right => self.last_notification.right = Some(now),
                    BatteryComponent::Case => self.last_notification.case = Some(now),
                }
                let alert = BatteryAlert::LowBattery(
                    String::from_str(component.alert_name()),
                    level,
                );
                assert(alert_matches(Some(alert), decided));
                Some(alert)
            },
            None => None,
        }
    }

    /// The reading that the monitor judges: smoothed through the buffer (after
    /// adding the new reading) when smoothing is on, else the raw reading.
    pub open spec fn spec_judged_reading(self, battery: AirPodsBattery) -> AirPodsBattery {
        if self.options.use_smoothing {
            AirPodsBattery {
                left: spec_smoothed(
                    spec_push_reading(self.buffer.left_buffer@, battery.left, self.buffer.max_size as nat),
                    battery.left,
                ),
                right: spec_smoothed(
                    spec_push_reading(self.buffer.right_buffer@, battery.right, self.buffer.max_size as nat),
                    battery.right,
                ),
                case: spec_smoothed(
                    spec_push_reading(self.buffer.case_buffer@, battery.case, self.buffer.max_size as nat),
                    battery.case,
                ),
                charging: battery.charging,
            }
        } else {
            battery
        }
    }

    /// Handle one reading of the monitored device (one step of the monitoring
    /// loop): smooth it if configured, drop it if invalid, adapt the polling
    /// interval, and report it when it is the first valid reading or differs
    /// significantly from the last one, with a low-battery alert if one is due.
    pub fn process_reading(&mut self, battery: &AirPodsBattery) -> (r: Option<MonitorReport>)
        requires
            old(self).wf(),
        ensures
            final(self).wf(),
            final(self).options == old(self).options,
            ({
                let judged = old(self).spec_judged_reading(*battery);
                if !spec_is_valid_battery(judged) {
                    &&& r is None
                    &&& final(self).last_valid_reading == old(self).last_valid_reading
                    &&& final(self).current_interval == old(self).current_interval
                    &&& final(self).last_notification == old(self).last_notification
                } else {
                    &&& final(self).last_valid_reading == Some(judged)
                    &&& (old(self).options.adaptive_polling ==> match spec_adaptive_secs(
                        old(self).options,
                        old(self).last_valid_reading,
                        judged,
                    ) {
                        None => final(self).current_interval == old(self).current_interval,
                        Some(secs) => duration_nanos(final(self).current_interval) == secs
                            * nanos_per_sec(),
                    })
                    &&& (!old(self).options.adaptive_polling ==> final(self).current_interval
                        == old(self).current_interval)
                    &&& (r is Some <==> (old(self).last_valid_reading matches Some(last)
                        ==> spec_significant_change(
                        last,
                        judged,
                        old(self).options.change_threshold,
                    )))
                    &&& (r is None ==> final(self).last_notification == old(
                        self,
                    ).last_notification)
                    &&& (r matches Some(rep) ==> rep.battery == judged && (
                    !old(self).options.notify_low_battery ==> rep.alert is None
                        && final(self).last_notification == old(self).last_notification) && (
                    old(self).options.notify_low_battery ==> exists|t: ThrottleState|
                        spec_throttle_allowed(old(self).last_notification, t) && alert_matches(
                            rep.alert,
                            #[trigger] spec_low_battery_alert(
                                old(self).options.low_battery_threshold,
                                judged,
                                t,
                            ),
                        ) && spec_notified(
                            old(self).last_notification,
                            final(self).last_notification,
                            spec_low_battery_alert(
                                old(self).options.low_battery_threshold,
                                judged,
                                t,
                            ),
                        )))
                }
            }),
    {
        let reading = if self.options.use_smoothing {
            self.buffer.add_reading(battery);
            self.buffer.get_smoothed_reading(battery)
        } else {
            *battery
        };
        if !self.is_valid_battery(&reading) {
            return None;
        }
        if self.options.adaptive_polling {
            let new_interval = self.calculate_adaptive_interval(&reading);
            self.current_interval = new_interval;
        }
        let report = match &self.last_valid_reading {
            Some(last) => self.has_significant_change(last, &reading),
            None => true,
        };
        let result = if report {
            let alert = self.check_low_battery(&reading);
            Some(MonitorReport { battery: reading, alert })
        } else {
            None
        };
        self.last_valid_reading = Some(reading);
        result
    }
}

/// Whether a reading differs significantly from another does not depend on
/// their order, and no reading differs significantly from itself.
pub proof fn lemma_significant_change_symmetric(a: AirPodsBattery, b: AirPodsBattery, threshold: u8)
    ensures
        spec_significant_change(a, b, threshold) == spec_significant_change(b, a, threshold),
        !spec_significant_change(a, a, threshold),
{
}

} // verus!
