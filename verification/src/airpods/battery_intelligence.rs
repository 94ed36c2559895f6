//! Which battery updates of a device are worth recording, and what kind of
//! event each one is.

use std::time::{Duration, SystemTime};
use vstd::prelude::*;

use crate::time::{
    duration_as_nanos, duration_from_secs, duration_nanos, nanos_per_sec, system_duration_since,
    system_now,
};
use vstd::string::StringExecFns;
use crate::text::{lemma_split_nonempty, split_by, concat3, first_chars, seq_contains, str_contains, str_ends_with, str_eq, str_starts_with};

verus! {

/// Maximum number of significant events to store
pub const MAX_EVENTS: usize = 200;

/// Battery level drop that is always significant (percentage points)
pub const SIGNIFICANT_BATTERY_DROP: u8 = 10;

/// Minimum battery change to be considered somewhat significant (percentage points)
pub const MIN_SIGNIFICANT_BATTERY_CHANGE: u8 = 5;

/// Minimum time gap to be considered significant (minutes)
pub const MIN_SIGNIFICANT_TIME_GAP: u64 = 5;

/// Time threshold for high confidence estimates (minutes)
pub const HIGH_CONFIDENCE_THRESHOLD: u64 = 5;

/// Time threshold for medium confidence estimates (minutes)
pub const MEDIUM_CONFIDENCE_THRESHOLD: u64 = 30;

/// Time threshold for low confidence estimates (minutes)
pub const LOW_CONFIDENCE_THRESHOLD: u64 = 60;

/// Level at or below which a bud's battery is critical (percent)
pub const CRITICAL_BATTERY_LEVEL: u8 = 10;

/// Gap after which an update counts as a reconnection (seconds)
pub const RECONNECT_GAP_SECS: u64 = 300;

/// Which AirPods component the depletion rate applies to
#[derive(Debug, Clone, Copy, PartialEq, Eq, Hash, Structural)]
pub enum DepletionTarget {
    LeftEarbud,
    RightEarbud,
    Case,
}

/// Types of significant battery events
#[derive(Debug, Clone, Copy, PartialEq, Eq, Structural)]
pub enum BatteryEventType {
    /// Battery level decreased significantly
    Discharge,
    /// Charging started
    ChargingStarted,
    /// Charging stopped
    ChargingStopped,
    /// AirPods put in ears (usage started)
    UsageStarted,
    /// AirPods removed from ears (usage stopped)
    UsageStopped,
    /// Device reconnected after significant gap
    ReconnectedAfterGap,
    /// Critical battery level reached
    CriticalBattery,
    /// Battery health degradation detected
    HealthDegradation,
}

/// Usage pattern classification
#[derive(Debug, Clone, Copy, PartialEq, Eq, Hash, Structural)]
pub enum UsagePattern {
    /// Light usage (music, calls)
    Light,
    /// Moderate usage (mixed content)
    Moderate,
    /// Heavy usage (gaming, video)
    Heavy,
    /// Extreme usage (intensive apps)
    Extreme,
    /// Idle (connected but not in use)
    Idle,
    /// Charging session
    Charging,
}

/// Session type classification
#[derive(Debug, Clone, Copy, PartialEq, Eq, Structural)]
pub enum SessionType {
    Music,
    Calls,
    Mixed,
    Gaming,
    Workout,
    Unknown,
}

/// A significant battery event worth logging
#[derive(Debug, Clone)]
pub struct BatteryEvent {
    /// When this event occurred
    pub timestamp: SystemTime,
    /// Type of significant event
    pub event_type: BatteryEventType,
    /// Battery levels at time of event
    pub left_battery: Option<u8>,
    pub right_battery: Option<u8>,
    pub case_battery: Option<u8>,
    /// Charging states
    pub left_charging: bool,
    pub right_charging: bool,
    pub case_charging: bool,
    /// In-ear states
    pub left_in_ear: bool,
    pub right_in_ear: bool,
    /// Additional context
    pub rssi: Option<i16>,
    pub session_duration: Option<Duration>,
}

/// Active usage session tracking
#[derive(Debug, Clone)]
pub struct UsageSession {
    /// When session started
    pub start_time: SystemTime,
    /// Starting battery levels
    pub start_left: Option<u8>,
    pub start_right: Option<u8>,
    pub start_case: Option<u8>,
    /// Session type classification
    pub session_type: SessionType,
    /// Usage intensity
    pub usage_pattern: UsagePattern,
}

/// Global intelligence settings
#[derive(Debug, Clone, Copy, PartialEq, Eq, Structural)]
pub struct IntelligenceSettings {
    /// Enable/disable learning
    pub learning_enabled: bool,
    /// Confidence thresholds
    pub high_confidence_minutes: u64,
    pub medium_confidence_minutes: u64,
    pub low_confidence_minutes: u64,
    /// Significance thresholds
    pub min_battery_change: u8,
    pub min_time_gap_minutes: u64,
    /// Storage limits
    pub max_events: usize,
}

impl IntelligenceSettings {
    /// The default settings.
    pub open spec fn spec_default() -> IntelligenceSettings {
        IntelligenceSettings {
            learning_enabled: true,
            high_confidence_minutes: HIGH_CONFIDENCE_THRESHOLD,
            medium_confidence_minutes: MEDIUM_CONFIDENCE_THRESHOLD,
            low_confidence_minutes: LOW_CONFIDENCE_THRESHOLD,
            min_battery_change: MIN_SIGNIFICANT_BATTERY_CHANGE,
            min_time_gap_minutes: MIN_SIGNIFICANT_TIME_GAP,
            max_events: MAX_EVENTS,
        }
    }
}

impl Default for IntelligenceSettings {
    fn default() -> (s: Self)
        ensures
            s == IntelligenceSettings::spec_default(),
    {
        IntelligenceSettings {
            learning_enabled: true,
            high_confidence_minutes: HIGH_CONFIDENCE_THRESHOLD,
            medium_confidence_minutes: MEDIUM_CONFIDENCE_THRESHOLD,
            low_confidence_minutes: LOW_CONFIDENCE_THRESHOLD,
            min_battery_change: MIN_SIGNIFICANT_BATTERY_CHANGE,
            min_time_gap_minutes: MIN_SIGNIFICANT_TIME_GAP,
            max_events: MAX_EVENTS,
        }
    }
}

/// The state of a device profile that the significance rules read: the last
/// recorded levels and states, and how long ago the last update was (none
/// before the first update; the clock reading is taken by the caller).
#[derive(Debug, Clone, Copy, PartialEq, Eq)]
pub struct ProfileState {
    pub current_left: Option<u8>,
    pub current_right: Option<u8>,
    pub current_case: Option<u8>,
    pub left_charging: bool,
    pub right_charging: bool,
    pub case_charging: bool,
    pub left_in_ear: bool,
    pub right_in_ear: bool,
    pub since_last_update: Option<Duration>,
}

/// A new battery update of the device.
#[derive(Debug, Clone, Copy, PartialEq, Eq, Structural)]
pub struct BatteryUpdate {
    pub left: Option<u8>,
    pub right: Option<u8>,
    pub case: Option<u8>,
    pub left_charging: bool,
    pub right_charging: bool,
    pub case_charging: bool,
    pub left_in_ear: bool,
    pub right_in_ear: bool,
}

/// The level fell from `current` to `new` by `amount` points or more.
pub open spec fn dropped_by(new: Option<u8>, current: Option<u8>, amount: int) -> bool {
    new matches Some(n) && current matches Some(c) && c > n && c - n >= amount
}

/// The level moved between `current` and `new` by `amount` points or more.
pub open spec fn moved_by(new: Option<u8>, current: Option<u8>, amount: int) -> bool {
    new matches Some(n) && current matches Some(c) && (n - c >= amount || c - n >= amount)
}

/// Some charging state differs.
pub open spec fn charging_differs(p: ProfileState, u: BatteryUpdate) -> bool {
    u.left_charging != p.left_charging || u.right_charging != p.right_charging || u.case_charging
        != p.case_charging
}

/// Some in-ear state differs.
pub open spec fn in_ear_differs(p: ProfileState, u: BatteryUpdate) -> bool {
    u.left_in_ear != p.left_in_ear || u.right_in_ear != p.right_in_ear
}

/// Whether an update is worth recording: the first update; one after the
/// configured time gap; a drop of ten points or more of any component; a
/// change of the configured size after the time gap; or a change of charging
/// or in-ear state.
pub open spec fn spec_is_significant(s: IntelligenceSettings, p: ProfileState, u: BatteryUpdate) -> bool {
    match p.since_last_update {
        None => true,
        Some(gap) => {
            let long_gap = duration_nanos(gap) >= s.min_time_gap_minutes * 60 * nanos_per_sec();
            ||| long_gap
            ||| dropped_by(u.left, p.current_left, SIGNIFICANT_BATTERY_DROP as int)
            ||| dropped_by(u.right, p.current_right, SIGNIFICANT_BATTERY_DROP as int)
            ||| dropped_by(u.case, p.current_case, SIGNIFICANT_BATTERY_DROP as int)
            ||| (long_gap && (moved_by(u.left, p.current_left, s.min_battery_change as int)
                || moved_by(u.right, p.current_right, s.min_battery_change as int) || moved_by(
                u.case,
                p.current_case,
                s.min_battery_change as int,
            )))
            ||| charging_differs(p, u)
            ||| in_ear_differs(p, u)
        },
    }
}

/// The kind of a recorded event: charging started, charging stopped, usage
/// started, usage stopped, a critical bud level, a reconnection after five
/// minutes or more, or else a discharge, in that order of precedence.
pub open spec fn spec_event_type(p: ProfileState, u: BatteryUpdate) -> BatteryEventType {
    if (u.left_charging && !p.left_charging) || (u.right_charging && !p.right_charging) || (
    u.case_charging && !p.case_charging) {
        BatteryEventType::ChargingStarted
    } else if (!u.left_charging && p.left_charging) || (!u.right_charging && p.right_charging) || (
    !u.case_charging && p.case_charging) {
        BatteryEventType::ChargingStopped
    } else if (u.left_in_ear && !p.left_in_ear) || (u.right_in_ear && !p.right_in_ear) {
        BatteryEventType::UsageStarted
    } else if (!u.left_in_ear && p.left_in_ear) || (!u.right_in_ear && p.right_in_ear) {
        BatteryEventType::UsageStopped
    } else if (u.left matches Some(l) && l <= CRITICAL_BATTERY_LEVEL) || (u.right matches Some(r)
        && r <= CRITICAL_BATTERY_LEVEL) {
        BatteryEventType::CriticalBattery
    } else if p.since_last_update matches Some(gap) && duration_nanos(gap) >= RECONNECT_GAP_SECS
        * nanos_per_sec() {
        BatteryEventType::ReconnectedAfterGap
    } else {
        BatteryEventType::Discharge
    }
}

/// How a recorded event is classified, in order of precedence: a component
/// that starts charging gives `ChargingStarted`; else a component that stops
/// charging gives `ChargingStopped`; else (charging unchanged) a bud put in
/// gives `UsageStarted`; else a bud taken out gives `UsageStopped`; else a bud
/// at or below 10% gives `CriticalBattery`; else a gap of five minutes or
/// more gives `ReconnectedAfterGap`; else it is a `Discharge`.
pub proof fn lemma_event_type_rules(p: ProfileState, u: BatteryUpdate)
    ensures
        ({
            let t = spec_event_type(p, u);
            let starts = (u.left_charging && !p.left_charging) || (u.right_charging
                && !p.right_charging) || (u.case_charging && !p.case_charging);
            let stops = (p.left_charging && !u.left_charging) || (p.right_charging
                && !u.right_charging) || (p.case_charging && !u.case_charging);
            let put_in = (u.left_in_ear && !p.left_in_ear) || (u.right_in_ear && !p.right_in_ear);
            let taken_out = (p.left_in_ear && !u.left_in_ear) || (p.right_in_ear
                && !u.right_in_ear);
            let critical = (u.left is Some && u.left->0 <= 10) || (u.right is Some && u.right->0
                <= 10);
            let long_gap = p.since_last_update is Some && duration_nanos(p.since_last_update->0)
                >= 300 * nanos_per_sec();
            &&& starts ==> t == BatteryEventType::ChargingStarted
            &&& !starts && stops ==> t == BatteryEventType::ChargingStopped
            &&& !starts && !stops && put_in ==> t == BatteryEventType::UsageStarted
            &&& !starts && !stops && !put_in && taken_out ==> t == BatteryEventType::UsageStopped
            &&& !starts && !stops && !put_in && !taken_out && critical ==> t
                == BatteryEventType::CriticalBattery
            &&& !starts && !stops && !put_in && !taken_out && !critical && long_gap ==> t
                == BatteryEventType::ReconnectedAfterGap
            &&& !starts && !stops && !put_in && !taken_out && !critical && !long_gap ==> t
                == BatteryEventType::Discharge
        }),
{
}

/// Which updates are significant: the first one always; a later one when the
/// configured time gap has passed, when a known level fell by ten points or
/// more, or when a charging or in-ear state changed; an update within the
/// gap with no such fall and no state change is not significant, however
/// much a level rose.
pub proof fn lemma_significance_rules(s: IntelligenceSettings, p: ProfileState, u: BatteryUpdate)
    ensures
        ({
            let sig = spec_is_significant(s, p, u);
            let fell = (u.left is Some && p.current_left is Some && p.current_left->0 >= u.left->0
                + 10) || (u.right is Some && p.current_right is Some && p.current_right->0
                >= u.right->0 + 10) || (u.case is Some && p.current_case is Some
                && p.current_case->0 >= u.case->0 + 10);
            let changed = u.left_charging != p.left_charging || u.right_charging != p.right_charging
                || u.case_charging != p.case_charging || u.left_in_ear != p.left_in_ear
                || u.right_in_ear != p.right_in_ear;
            &&& p.since_last_update is None ==> sig
            &&& (p.since_last_update is Some && duration_nanos(p.since_last_update->0)
                >= s.min_time_gap_minutes * 60 * nanos_per_sec()) ==> sig
            &&& fell ==> sig
            &&& changed ==> sig
            &&& (p.since_last_update is Some && duration_nanos(p.since_last_update->0)
                < s.min_time_gap_minutes * 60 * nanos_per_sec() && !fell && !changed) ==> !sig
        }),
{
}

fn dropped(new: Option<u8>, current: Option<u8>) -> (r: bool)
    ensures
        r == dropped_by(new, current, SIGNIFICANT_BATTERY_DROP as int),
{
    match (new, current) {
        (Some(n), Some(c)) => c > n && c - n >= SIGNIFICANT_BATTERY_DROP,
        _ => false,
    }
}

fn moved(new: Option<u8>, current: Option<u8>, amount: u8) -> (r: bool)
    ensures
        r == moved_by(new, current, amount as int),
{
    match (new, current) {
        (Some(n), Some(c)) => {
            let diff: i16 = n as i16 - c as i16;
            let magnitude: i16 = if diff < 0 {
                -diff
            } else {
                diff
            };
            magnitude >= amount as i16
        },
        _ => false,
    }
}

impl IntelligenceSettings {
    /// Check if an update contains significant changes worth logging
    pub fn is_significant_update(&self, profile: &ProfileState, update: &BatteryUpdate) -> (r: bool)
        requires
            self.min_time_gap_minutes * 60 <= u64::MAX,
        ensures
            r == spec_is_significant(*self, *profile, *update),
    {
        let gap = match profile.since_last_update {
            None => {
                return true;
            },
            Some(gap) => gap,
        };
        let threshold = duration_from_secs(self.min_time_gap_minutes * 60);
        let long_gap = duration_as_nanos(&gap) >= duration_as_nanos(&threshold);
        if long_gap {
            return true;
        }
        if dropped(update.left, profile.current_left) || dropped(update.right, profile.current_right)
            || dropped(update.case, profile.current_case) {
            return true;
        }
        if long_gap {
            if moved(update.left, profile.current_left, self.min_battery_change) || moved(
                update.right,
                profile.current_right,
                self.min_battery_change,
            ) || moved(update.case, profile.current_case, self.min_battery_change) {
                return true;
            }
        }
        if update.left_charging != profile.left_charging || update.right_charging
            != profile.right_charging || update.case_charging != profile.case_charging {
            return true;
        }
        if update.left_in_ear != profile.left_in_ear || update.right_in_ear != profile.right_in_ear {
            return true;
        }
        false
    }
}

/// Classify the type of battery event from data
pub fn classify_event_type_from_data(profile: &ProfileState, update: &BatteryUpdate) -> (t:
    BatteryEventType)
    ensures
        t == spec_event_type(*profile, *update),
{
    if (update.left_charging && !profile.left_charging) || (update.right_charging
        && !profile.right_charging) || (update.case_charging && !profile.case_charging) {
        return BatteryEventType::ChargingStarted;
    }
    if (!update.left_charging && profile.left_charging) || (!update.right_charging
        && profile.right_charging) || (!update.case_charging && profile.case_charging) {
        return BatteryEventType::ChargingStopped;
    }
    if (update.left_in_ear && !profile.left_in_ear) || (update.right_in_ear
        && !profile.right_in_ear) {
        return BatteryEventType::UsageStarted;
    }
    if (!update.left_in_ear && profile.left_in_ear) || (!update.right_in_ear
        && profile.right_in_ear) {
        return BatteryEventType::UsageStopped;
    }
    let left_critical = match update.left {
        Some(l) => l <= CRITICAL_BATTERY_LEVEL,
        None => false,
    };
    let right_critical = match update.right {
        Some(r) => r <= CRITICAL_BATTERY_LEVEL,
        None => false,
    };
    if left_critical || right_critical {
        return BatteryEventType::CriticalBattery;
    }
    if let Some(gap) = profile.since_last_update {
        let limit = duration_from_secs(RECONNECT_GAP_SECS);
        if duration_as_nanos(&gap) >= duration_as_nanos(&limit) {
            return BatteryEventType::ReconnectedAfterGap;
        }
    }
    BatteryEventType::Discharge
}

/// What tracking one component's level for depletion did.
#[derive(Debug, Clone, Copy, PartialEq, Eq)]
pub enum DepletionStep {
    /// No level was reported, or it did not fall far enough: nothing changed.
    Unchanged,
    /// The component charges: tracking starts over.
    Reset,
    /// The first level since tracking started was recorded.
    Started,
    /// The level fell by the significant drop or more, from `start` to `end`;
    /// `elapsed` is the time since `start` was recorded, when the clock gives
    /// it. A depletion sample is due.
    Dropped { start: u8, end: u8, elapsed: Option<Duration> },
}

/// The level last recorded for a component, when tracking depletion.
pub open spec fn mark_level(m: Option<(u8, SystemTime)>) -> Option<u8> {
    match m {
        Some((l, _)) => Some(l),
        None => None,
    }
}

/// Track a component's level for depletion: a charging component starts
/// over; the first level is recorded; a fall by the significant drop or more
/// is recorded and reported with the levels it fell between.
pub fn track_depletion(
    last: &mut Option<(u8, SystemTime)>,
    level: Option<u8>,
    charging: bool,
    now: SystemTime,
) -> (step: DepletionStep)
    ensures
        match level {
            None => step == DepletionStep::Unchanged && *final(last) == *old(last),
            Some(l) => if charging {
                step == DepletionStep::Reset && *final(last) == None::<(u8, SystemTime)>
            } else {
                match *old(last) {
                    None => step == DepletionStep::Started && *final(last) == Some((l, now)),
                    Some((p, _)) => if l < p && p - l >= SIGNIFICANT_BATTERY_DROP {
                        (step matches DepletionStep::Dropped { start, end, elapsed } && start == p
                            && end == l) && *final(last) == Some((l, now))
                    } else {
                        step == DepletionStep::Unchanged && *final(last) == *old(last)
                    },
                }
            },
        },
{
    match level {
        None => DepletionStep::Unchanged,
        Some(l) => {
            if charging {
                *last = None;
                DepletionStep::Reset
            } else {
                match *last {
                    None => {
                        *last = Some((l, now));
                        DepletionStep::Started
                    },
                    Some((p, t)) => {
                        if l < p && p - l >= SIGNIFICANT_BATTERY_DROP {
                            let elapsed = system_duration_since(&now, &t);
                            *last = Some((l, now));
                            DepletionStep::Dropped { start: p, end: l, elapsed }
                        } else {
                            DepletionStep::Unchanged
                        }
                    },
                }
            }
        },
    }
}

/// The highest level seen while not charging, after a reading.
pub open spec fn spec_max_observed(max: u8, level: Option<u8>, charging: bool) -> u8 {
    match level {
        Some(l) => if !charging && l > max {
            l
        } else {
            max
        },
        None => max,
    }
}

/// The session after an update: one starts (with the update's levels) when a
/// bud goes in an ear and none is running; it ends when no bud is in an ear.
pub open spec fn spec_session_after(
    session: Option<UsageSession>,
    u: BatteryUpdate,
    now: SystemTime,
) -> Option<UsageSession> {
    if u.left_in_ear || u.right_in_ear {
        match session {
            Some(s) => Some(s),
            None => Some(
                UsageSession {
                    start_time: now,
                    start_left: u.left,
                    start_right: u.right,
                    start_case: u.case,
                    session_type: SessionType::Unknown,
                    usage_pattern: UsagePattern::Moderate,
                },
            ),
        }
    } else {
        None
    }
}

/// The integer part of a device's battery profile: the last update, the
/// depletion tracking of each component, the usage session and the highest
/// levels seen.
#[derive(Debug, Clone)]
pub struct TrackedProfile {
    pub current_left: Option<u8>,
    pub current_right: Option<u8>,
    pub current_case: Option<u8>,
    pub last_update: Option<SystemTime>,
    pub left_charging: bool,
    pub right_charging: bool,
    pub case_charging: bool,
    pub left_in_ear: bool,
    pub right_in_ear: bool,
    pub current_session: Option<UsageSession>,
    pub last_left_level: Option<(u8, SystemTime)>,
    pub last_right_level: Option<(u8, SystemTime)>,
    pub last_case_level: Option<(u8, SystemTime)>,
    pub max_observed_left: u8,
    pub max_observed_right: u8,
    pub max_observed_case: u8,
}

/// What depletion tracking did for each component in one update.
#[derive(Debug, Clone, Copy, PartialEq, Eq)]
pub struct DepletionSteps {
    pub left: DepletionStep,
    pub right: DepletionStep,
    pub case: DepletionStep,
}

impl TrackedProfile {
    /// The profile with nothing recorded; the highest levels start at 100.
    pub open spec fn spec_new() -> TrackedProfile {
        TrackedProfile {
            current_left: None,
            current_right: None,
            current_case: None,
            last_update: None,
            left_charging: false,
            right_charging: false,
            case_charging: false,
            left_in_ear: false,
            right_in_ear: false,
            current_session: None,
            last_left_level: None,
            last_right_level: None,
            last_case_level: None,
            max_observed_left: 100,
            max_observed_right: 100,
            max_observed_case: 100,
        }
    }

    /// The state that the significance rules read, with the time since the
    /// last update as given.
    pub open spec fn spec_state(&self, since_last_update: Option<Duration>) -> ProfileState {
        ProfileState {
            current_left: self.current_left,
            current_right: self.current_right,
            current_case: self.current_case,
            left_charging: self.left_charging,
            right_charging: self.right_charging,
            case_charging: self.case_charging,
            left_in_ear: self.left_in_ear,
            right_in_ear: self.right_in_ear,
            since_last_update,
        }
    }

    /// This profile is `before` after taking `update` at `now`, with depletion
    /// tracking having done `steps`: the levels and states are the update's,
    /// the session starts or ends, the highest levels rise, and each
    /// component's depletion mark moves as tracking says.
    pub open spec fn spec_updated(
        &self,
        before: TrackedProfile,
        update: BatteryUpdate,
        now: SystemTime,
        steps: DepletionSteps,
    ) -> bool {
        &&& self.current_left == update.left
        &&& self.current_right == update.right
        &&& self.current_case == update.case
        &&& self.left_charging == update.left_charging
        &&& self.right_charging == update.right_charging
        &&& self.case_charging == update.case_charging
        &&& self.left_in_ear == update.left_in_ear
        &&& self.right_in_ear == update.right_in_ear
        &&& self.last_update == Some(now)
        &&& self.current_session == spec_session_after(before.current_session, update, now)
        &&& self.max_observed_left == spec_max_observed(
            before.max_observed_left,
            update.left,
            update.left_charging,
        )
        &&& self.max_observed_right == spec_max_observed(
            before.max_observed_right,
            update.right,
            update.right_charging,
        )
        &&& self.max_observed_case == spec_max_observed(
            before.max_observed_case,
            update.case,
            update.case_charging,
        )
        &&& mark_level(self.last_left_level) == spec_tracked_mark(
            mark_level(before.last_left_level),
            update.left,
            update.left_charging,
        )
        &&& mark_level(self.last_right_level) == spec_tracked_mark(
            mark_level(before.last_right_level),
            update.right,
            update.right_charging,
        )
        &&& mark_level(self.last_case_level) == spec_tracked_mark(
            mark_level(before.last_case_level),
            update.case,
            update.case_charging,
        )
        &&& spec_step_kind(steps.left, mark_level(before.last_left_level), update.left, update.left_charging)
        &&& spec_step_kind(steps.right, mark_level(before.last_right_level), update.right, update.right_charging)
        &&& spec_step_kind(steps.case, mark_level(before.last_case_level), update.case, update.case_charging)
    }

    /// A profile with nothing recorded; the highest levels start at 100.
    pub fn new() -> (p: Self)
        ensures
            p == TrackedProfile::spec_new(),
    {
        TrackedProfile {
            current_left: None,
            current_right: None,
            current_case: None,
            last_update: None,
            left_charging: false,
            right_charging: false,
            case_charging: false,
            left_in_ear: false,
            right_in_ear: false,
            current_session: None,
            last_left_level: None,
            last_right_level: None,
            last_case_level: None,
            max_observed_left: 100,
            max_observed_right: 100,
            max_observed_case: 100,
        }
    }

    /// The state that the significance rules read, with the time since the
    /// last update as given.
    pub fn state(&self, since_last_update: Option<Duration>) -> (s: ProfileState)
        ensures
            s == self.spec_state(since_last_update),
    {
        ProfileState {
            current_left: self.current_left,
            current_right: self.current_right,
            current_case: self.current_case,
            left_charging: self.left_charging,
            right_charging: self.right_charging,
            case_charging: self.case_charging,
            left_in_ear: self.left_in_ear,
            right_in_ear: self.right_in_ear,
            since_last_update,
        }
    }

    /// Record an update made at `now`: track each component's depletion, take
    /// the new levels and states, start or end the usage session, and raise
    /// the highest levels seen while not charging. Returns what depletion
    /// tracking did, so that due samples can be recorded.
    pub fn update_current_state(&mut self, update: &BatteryUpdate, now: SystemTime) -> (steps:
        DepletionSteps)
        ensures
            final(self).spec_updated(*old(self), *update, now, steps),
    {
        let left = track_depletion(&mut self.last_left_level, update.left, update.left_charging, now);
        let right = track_depletion(&mut self.last_right_level, update.right, update.right_charging, now);
        let case = track_depletion(&mut self.last_case_level, update.case, update.case_charging, now);
        self.current_left = update.left;
        self.current_right = update.right;
        self.current_case = update.case;
        self.left_charging = update.left_charging;
        self.right_charging = update.right_charging;
        self.case_charging = update.case_charging;
        self.left_in_ear = update.left_in_ear;
        self.right_in_ear = update.right_in_ear;
        self.last_update = Some(now);
        if update.left_in_ear || update.right_in_ear {
            if self.current_session.is_none() {
                self.current_session = Some(
                    UsageSession {
                        start_time: now,
                        start_left: update.left,
                        start_right: update.right,
                        start_case: update.case,
                        session_type: SessionType::Unknown,
                        usage_pattern: UsagePattern::Moderate,
                    },
                );
            }
        } else {
            self.current_session = None;
        }
        if let Some(l) = update.left {
            if !update.left_charging && l > self.max_observed_left {
                self.max_observed_left = l;
            }
        }
        if let Some(l) = update.right {
            if !update.right_charging && l > self.max_observed_right {
                self.max_observed_right = l;
            }
        }
        if let Some(l) = update.case {
            if !update.case_charging && l > self.max_observed_case {
                self.max_observed_case = l;
            }
        }
        DepletionSteps { left, right, case }
    }
}

/// The event history after an event is added: the event goes last, and only
/// the newest `MAX_EVENTS` events are kept.
pub open spec fn spec_events_after(events: Seq<BatteryEvent>, event: BatteryEvent) -> Seq<BatteryEvent> {
    let pushed = events.push(event);
    if pushed.len() > MAX_EVENTS {
        pushed.subrange(pushed.len() - MAX_EVENTS, pushed.len() as int)
    } else {
        pushed
    }
}

/// The event recorded for an update: its time, kind, levels and states, the
/// signal strength and how long the usage session had run.
pub open spec fn spec_event_for(
    state: ProfileState,
    update: BatteryUpdate,
    rssi: Option<i16>,
    now: SystemTime,
    session_duration: Option<Duration>,
) -> BatteryEvent {
    BatteryEvent {
        timestamp: now,
        event_type: spec_event_type(state, update),
        left_battery: update.left,
        right_battery: update.right,
        case_battery: update.case,
        left_charging: update.left_charging,
        right_charging: update.right_charging,
        case_charging: update.case_charging,
        left_in_ear: update.left_in_ear,
        right_in_ear: update.right_in_ear,
        rssi,
        session_duration,
    }
}

/// A device's battery profile: its name and address, the tracked state and
/// the significant events, oldest first.
#[derive(Debug, Clone)]
pub struct DeviceBatteryProfile {
    pub device_name: String,
    pub device_address: String,
    pub state: TrackedProfile,
    pub events: Vec<BatteryEvent>,
}

impl DeviceBatteryProfile {
    /// Create new device profile, with nothing recorded
    pub fn new(device_name: &str, device_address: &str) -> (p: Self)
        ensures
            p.device_name@ == device_name@,
            p.device_address@ == device_address@,
            p.state == TrackedProfile::spec_new(),
            p.events@.len() == 0,
    {
        DeviceBatteryProfile {
            device_name: String::from_str(device_name),
            device_address: String::from_str(device_address),
            state: TrackedProfile::new(),
            events: Vec::new(),
        }
    }

    /// Add a significant event to history, keeping the newest `MAX_EVENTS`
    pub fn add_event(&mut self, event: BatteryEvent)
        ensures
            final(self).events@ == spec_events_after(old(self).events@, event),
            final(self).state == old(self).state,
            final(self).device_name == old(self).device_name,
            final(self).device_address == old(self).device_address,
    {
        let ghost pushed = self.events@.push(event);
        self.events.push(event);
        while self.events.len() > MAX_EVENTS
            invariant
                self.events@.len() <= pushed.len(),
                self.events@.len() >= MAX_EVENTS || self.events@.len() == pushed.len(),
                self.events@ == pushed.subrange(pushed.len() - self.events@.len(), pushed.len() as int),
                self.state == old(self).state,
                self.device_name == old(self).device_name,
                self.device_address == old(self).device_address,
                pushed == old(self).events@.push(event),
            decreases self.events@.len(),
        {
            self.events.remove(0);
            assert(self.events@ =~= pushed.subrange(pushed.len() - self.events@.len(), pushed.len() as int));
        }
        assert(pushed.subrange(0, pushed.len() as int) =~= pushed);
    }

    /// Record an update made at `now`, with the time since the last update
    /// (none before the first) and the running session's length as the clock
    /// gave them: a significant update is added to the history as an event of
    /// its kind, then the tracked state takes the update. Returns whether the
    /// update was significant, and what depletion tracking did.
    pub fn record_update(
        &mut self,
        settings: &IntelligenceSettings,
        update: &BatteryUpdate,
        rssi: Option<i16>,
        now: SystemTime,
        since_last_update: Option<Duration>,
        session_duration: Option<Duration>,
    ) -> (r: (bool, DepletionSteps))
        requires
            settings.min_time_gap_minutes * 60 <= u64::MAX,
        ensures
            r.0 == spec_is_significant(*settings, old(self).state.spec_state(since_last_update), *update),
            final(self).events@ == if r.0 {
                spec_events_after(
                    old(self).events@,
                    spec_event_for(
                        old(self).state.spec_state(since_last_update),
                        *update,
                        rssi,
                        now,
                        session_duration,
                    ),
                )
            } else {
                old(self).events@
            },
            final(self).state.spec_updated(old(self).state, *update, now, r.1),
            final(self).device_name == old(self).device_name,
            final(self).device_address == old(self).device_address,
    {
        let state = self.state.state(since_last_update);
        let significant = settings.is_significant_update(&state, update);
        if significant {
            let event_type = classify_event_type_from_data(&state, update);
            let event = BatteryEvent {
                timestamp: now,
                event_type,
                left_battery: update.left,
                right_battery: update.right,
                case_battery: update.case,
                left_charging: update.left_charging,
                right_charging: update.right_charging,
                case_charging: update.case_charging,
                left_in_ear: update.left_in_ear,
                right_in_ear: update.right_in_ear,
                rssi,
                session_duration,
            };
            self.add_event(event);
        }
        let steps = self.state.update_current_state(update, now);
        (significant, steps)
    }
}

/// The name of the file the profile of an address was kept in: `device_`,
/// the address's first eight characters and `_profile.json`.
pub open spec fn spec_device_file_name(address: Seq<char>) -> Seq<char> {
    "device_"@ + address.take(if 8 < address.len() { 8 } else { address.len() as int }) + "_profile.json"@
}

/// The name of the file the profile of an address was kept in
pub fn device_file_name(address: &str) -> (f: String)
    ensures
        f@ == spec_device_file_name(address@),
{
    let head = first_chars(address, 8);
    proof {
        reveal_strlit("device_");
        reveal_strlit("_profile.json");
    }
    concat3("device_", head.as_str(), "_profile.json")
}

/// Whether a file name is that of a per-device profile: it starts with
/// `device_` and ends with `_profile.json`.
pub fn is_device_profile_file(name: &str) -> (r: bool)
    ensures
        r == ({
            let p = "device_"@;
            let q = "_profile.json"@;
            p.len() <= name@.len() && name@.take(p.len() as int) == p && q.len() <= name@.len()
                && name@.skip(name@.len() - q.len()) == q
        }),
{
    str_starts_with(name, "device_") && str_ends_with(name, "_profile.json")
}

/// The device id in a per-device profile file name: what lies between
/// `device_` and `_profile.json`, or nothing when the two overlap.
pub open spec fn spec_profile_file_id(name: Seq<char>) -> Seq<char> {
    if name.len() >= 20 {
        name.subrange(7, name.len() - 13)
    } else {
        Seq::empty()
    }
}

/// An id left by old versions or tests: ten or more decimal digits, one of
/// the known test ids, or at most seven hexadecimal digits.
pub open spec fn spec_stale_id(id: Seq<char>) -> bool {
    ||| (id.len() >= 10 && forall|i: int| 0 <= i < id.len() ==> '0' <= #[trigger] id[i] <= '9')
    ||| id == "75bcd15"@
    ||| id == "3ade68b1"@
    ||| id == "6a0363d"@
    ||| id == "1a83f92a"@
    ||| id == "69f6bcf"@
    ||| (id.len() <= 7 && forall|i: int| 0 <= i < id.len() ==> is_hex_char(#[trigger] id[i]))
}

/// A hexadecimal digit, in either case.
pub open spec fn is_hex_char(c: char) -> bool {
    ('0' <= c <= '9') || ('a' <= c <= 'f') || ('A' <= c <= 'F')
}

fn all_digits(v: &Vec<char>, from: usize, to: usize, hex: bool) -> (r: bool)
    requires
        from <= to <= v@.len(),
    ensures
        r == forall|i: int| from <= i < to ==> (if hex {
            is_hex_char(#[trigger] v@[i])
        } else {
            '0' <= v@[i] <= '9'
        }),
{
    let mut i = from;
    while i < to
        invariant
            from <= i <= to <= v@.len(),
            forall|k: int| from <= k < i ==> (if hex {
                is_hex_char(#[trigger] v@[k])
            } else {
                '0' <= v@[k] <= '9'
            }),
        decreases to - i,
    {
        let c = v[i];
        let ok = if hex {
            ('0' <= c && c <= '9') || ('a' <= c && c <= 'f') || ('A' <= c && c <= 'F')
        } else {
            '0' <= c && c <= '9'
        };
        if !ok {
            return false;
        }
        i = i + 1;
    }
    true
}

/// Whether a per-device profile file was left by old versions or tests and
/// is to be removed: its name has the per-device form and its id is stale.
pub fn is_stale_profile_file(name: &str) -> (r: bool)
    ensures
        r == ({
            let p = "device_"@;
            let q = "_profile.json"@;
            p.len() <= name@.len() && name@.take(p.len() as int) == p && q.len() <= name@.len()
                && name@.skip(name@.len() - q.len()) == q
        } && spec_stale_id(spec_profile_file_id(name@))),
{
    if !is_device_profile_file(name) {
        return false;
    }
    let c = crate::text::chars_of(name);
    let (from, to) = if c.len() >= 20 {
        (7, c.len() - 13)
    } else {
        (0, 0)
    };
    let ghost id = spec_profile_file_id(name@);
    assert(id =~= c@.subrange(from as int, to as int));
    let len = to - from;
    if len >= 10 && all_digits(&c, from, to, false) {
        assert forall|i: int| 0 <= i < id.len() implies '0' <= #[trigger] id[i] <= '9' by {
            assert(id[i] == c@[from + i]);
        }
        return true;
    }
    let id_text = crate::text::string_from_range(&c, from, to);
    proof {
        reveal_strlit("75bcd15");
        reveal_strlit("3ade68b1");
        reveal_strlit("6a0363d");
        reveal_strlit("1a83f92a");
        reveal_strlit("69f6bcf");
    }
    if str_eq(id_text.as_str(), "75bcd15") || str_eq(id_text.as_str(), "3ade68b1") || str_eq(
        id_text.as_str(),
        "6a0363d",
    ) || str_eq(id_text.as_str(), "1a83f92a") || str_eq(id_text.as_str(), "69f6bcf") {
        return true;
    }
    if len <= 7 && all_digits(&c, from, to, true) {
        assert forall|i: int| 0 <= i < id.len() implies is_hex_char(#[trigger] id[i]) by {
            assert(id[i] == c@[from + i]);
        }
        return true;
    }
    proof {
        if id.len() >= 10 && forall|i: int| 0 <= i < id.len() ==> '0' <= #[trigger] id[i] <= '9' {
            assert forall|k: int| from <= k < to implies '0' <= #[trigger] c@[k] <= '9' by {
                assert(c@[k] == id[k - from]);
            }
        }
        if id.len() <= 7 && forall|i: int| 0 <= i < id.len() ==> is_hex_char(#[trigger] id[i]) {
            assert forall|k: int| from <= k < to implies is_hex_char(#[trigger] c@[k]) by {
                assert(c@[k] == id[k - from]);
            }
        }
    }
    false
}

/// Whether a file name is that of a profile file that a purge removes: a
/// `.json` file whose name contains `profile`.
pub fn is_profile_json(name: &str) -> (r: bool)
    ensures
        r == (".json"@.len() <= name@.len() && name@.skip(name@.len() - ".json"@.len()) == ".json"@
            && seq_contains(name@, "profile"@)),
{
    str_ends_with(name, ".json") && str_contains(name, "profile")
}

/// The device id in the name of an old battery log (without its
/// extension): the third of its `_`-separated pieces, if it has one.
pub fn legacy_device_id(stem: &str) -> (r: Option<String>)
    ensures
        match r {
            Some(id) => split_by(stem@, '_').len() > 2 && id@ == split_by(stem@, '_')[2],
            None => split_by(stem@, '_').len() <= 2,
        },
{
    let chars = crate::text::chars_of(stem);
    let mut pieces: Vec<String> = Vec::new();
    let mut cur = String::new();
    for i in 0..chars.len()
        invariant
            chars@ == stem@,
            pieces@.map_values(|x: String| x@).push(cur@) == split_by(stem@.take(i as int), '_'),
    {
        proof {
            lemma_split_nonempty(stem@.take(i as int), '_');
        }
        assert(stem@.take(i + 1).drop_last() =~= stem@.take(i as int));
        if chars[i] == '_' {
            let done = cur;
            pieces.push(done);
            cur = String::new();
            assert(pieces@.map_values(|x: String| x@).push(cur@) =~= split_by(
                stem@.take(i + 1),
                '_',
            ));
        } else {
            cur.push(chars[i]);
            assert(pieces@.map_values(|x: String| x@).push(cur@) =~= split_by(
                stem@.take(i + 1),
                '_',
            ));
        }
    }
    pieces.push(cur);
    assert(stem@.take(chars.len() as int) =~= stem@);
    assert(pieces@.map_values(|x: String| x@) =~= split_by(stem@, '_'));
    if pieces.len() > 2 {
        let id = pieces[2].clone();
        assert(pieces@.map_values(|x: String| x@)[2] == pieces@[2]@);
        Some(id)
    } else {
        None
    }
}

/// A level of an old battery log: a negative level is unknown.
pub open spec fn spec_legacy_level(v: i64) -> Option<u8> {
    if v >= 0 {
        Some(v as u8)
    } else {
        None
    }
}

fn legacy_level(v: i64) -> (r: Option<u8>)
    ensures
        r == spec_legacy_level(v),
{
    if v >= 0 {
        Some(v as u8)
    } else {
        None
    }
}

/// The update an entry of an old battery log stands for: its levels (a
/// negative one unknown, others cut to a byte) and its states.
pub fn legacy_update(
    left: i64,
    right: i64,
    case: i64,
    left_charging: bool,
    right_charging: bool,
    case_charging: bool,
    left_in_ear: bool,
    right_in_ear: bool,
) -> (u: BatteryUpdate)
    ensures
        u == (BatteryUpdate {
            left: spec_legacy_level(left),
            right: spec_legacy_level(right),
            case: spec_legacy_level(case),
            left_charging,
            right_charging,
            case_charging,
            left_in_ear,
            right_in_ear,
        }),
{
    BatteryUpdate {
        left: legacy_level(left),
        right: legacy_level(right),
        case: legacy_level(case),
        left_charging,
        right_charging,
        case_charging,
        left_in_ear,
        right_in_ear,
    }
}

/// Which profile files go after a cleanup.
#[derive(Debug, PartialEq, Eq)]
pub enum ProfileCleanup {
    /// None.
    Keep,
    /// The file of the dropped profile.
    RemoveFile(String),
    /// Every per-device profile file.
    RemoveAllFiles,
}

/// The battery intelligence of the one device tracked: the settings and the
/// device's profile, once there is one.
#[derive(Debug, Clone)]
pub struct BatteryIntelligence {
    pub device_profile: Option<DeviceBatteryProfile>,
    pub settings: IntelligenceSettings,
}

/// The history of a profile, empty when there is none.
pub open spec fn spec_profile_events(o: Option<DeviceBatteryProfile>) -> Seq<BatteryEvent> {
    match o {
        Some(q) => q.events@,
        None => Seq::<BatteryEvent>::empty(),
    }
}

/// The tracked state of a profile, that of a new profile when there is none.
pub open spec fn spec_profile_state(o: Option<DeviceBatteryProfile>) -> TrackedProfile {
    match o {
        Some(q) => q.state,
        None => TrackedProfile::spec_new(),
    }
}

/// What one update does to a profile whose state was `old_state` and whose
/// history was `before`, given the time since the last update (none before
/// the first), the time of the update and the running session's length: the
/// significance rules decide on the update, a significant one is added to the
/// history as an event of its kind, and the state takes the update.
pub open spec fn spec_update_outcome(
    settings: IntelligenceSettings,
    old_state: TrackedProfile,
    before: Seq<BatteryEvent>,
    update: BatteryUpdate,
    rssi: Option<i16>,
    r: (bool, DepletionSteps),
    p: DeviceBatteryProfile,
    gap: Option<Duration>,
    now: SystemTime,
    session: Option<Duration>,
) -> bool {
    &&& (gap is None <==> old_state.last_update is None)
    &&& r.0 == spec_is_significant(settings, old_state.spec_state(gap), update)
    &&& p.events@ == if r.0 {
        spec_events_after(before, spec_event_for(old_state.spec_state(gap), update, rssi, now, session))
    } else {
        before
    }
    &&& p.state.spec_updated(old_state, update, now, r.1)
}

impl BatteryIntelligence {
    /// No profile yet, default settings.
    pub fn new() -> (b: Self)
        ensures
            b.device_profile is None,
            b.settings == IntelligenceSettings::spec_default(),
    {
        BatteryIntelligence { device_profile: None, settings: IntelligenceSettings::default() }
    }

    /// Make sure there is a profile for the device: the one profile takes the
    /// device's name and address and keeps its history, or a new profile is
    /// made. Returns true when a new profile was made.
    pub fn ensure_device_profile(&mut self, device_address: &str, device_name: &str) -> (created: bool)
        ensures
            created == old(self).device_profile is None,
            final(self).device_profile matches Some(p) && p.device_name@ == device_name@
                && p.device_address@ == device_address@ && (match old(self).device_profile {
                Some(q) => p.state == q.state && p.events@ == q.events@,
                None => p.state == TrackedProfile::spec_new() && p.events@.len() == 0,
            }),
            final(self).settings == old(self).settings,
    {
        match &mut self.device_profile {
            Some(profile) => {
                profile.device_name = String::from_str(device_name);
                profile.device_address = String::from_str(device_address);
                false
            },
            None => {
                self.device_profile = Some(DeviceBatteryProfile::new(device_name, device_address));
                true
            },
        }
    }

    /// Forget the profile of a device that is no longer the active one:
    /// with an active device, a profile of another address is dropped and its
    /// file is to be removed; with none, any profile is dropped and all
    /// device profile files are to be removed. Returns which files go.
    pub fn cleanup_inactive_device_profiles(&mut self, active_device_address: Option<&str>) -> (c:
        ProfileCleanup)
        ensures
            final(self).settings == old(self).settings,
            match (active_device_address, old(self).device_profile) {
                (Some(a), Some(p)) => if p.device_address@ != a@ {
                    final(self).device_profile is None && (c matches ProfileCleanup::RemoveFile(f)
                        && f@ == spec_device_file_name(p.device_address@))
                } else {
                    final(self).device_profile == old(self).device_profile && c is Keep
                },
                (None, Some(_)) => final(self).device_profile is None && c is RemoveAllFiles,
                (_, None) => final(self).device_profile is None && c is Keep,
            },
    {
        match active_device_address {
            Some(active) => {
                let stale = match &self.device_profile {
                    Some(profile) => !str_eq(profile.device_address.as_str(), active),
                    None => false,
                };
                if stale {
                    let profile = self.device_profile.take().unwrap();
                    let name = device_file_name(profile.device_address.as_str());
                    ProfileCleanup::RemoveFile(name)
                } else {
                    ProfileCleanup::Keep
                }
            },
            None => {
                if self.device_profile.is_some() {
                    self.device_profile = None;
                    ProfileCleanup::RemoveAllFiles
                } else {
                    ProfileCleanup::Keep
                }
            },
        }
    }

    /// Update battery data for a device, at the time of the call: a profile
    /// is made when there is none; a significant update is added to the
    /// history; the tracked state always takes the update. Returns whether
    /// the update was significant, and what depletion tracking did.
    pub fn update_device_battery(
        &mut self,
        device_address: &str,
        device_name: &str,
        update: &BatteryUpdate,
        rssi: Option<i16>,
    ) -> (r: (bool, DepletionSteps))
        requires
            old(self).settings.min_time_gap_minutes * 60 <= u64::MAX,
        ensures
            final(self).settings == old(self).settings,
            final(self).device_profile matches Some(p) && {
                let before = spec_profile_events(old(self).device_profile);
                let old_state = spec_profile_state(old(self).device_profile);
                &&& p.state.current_left == update.left
                &&& p.state.current_right == update.right
                &&& p.state.current_case == update.case
                &&& p.state.left_charging == update.left_charging
                &&& p.state.right_charging == update.right_charging
                &&& p.state.case_charging == update.case_charging
                &&& p.state.left_in_ear == update.left_in_ear
                &&& p.state.right_in_ear == update.right_in_ear
                &&& p.state.last_update is Some
                &&& old_state.last_update is None ==> r.0
                &&& r.0 ==> p.events@.last().left_battery == update.left
                    && p.events@.last().right_battery == update.right
                    && p.events@.last().case_battery == update.case
                    && p.events@.last().rssi == rssi
                // The time since the last update, the time of the call and the
                // session's length come from the clock; whatever they are,
                // the significance rules decide on them, and the history and
                // the state follow.
                &&& exists|gap: Option<Duration>, now: SystemTime, session: Option<Duration>|
                    #[trigger] spec_update_outcome(
                        old(self).settings,
                        old_state,
                        before,
                        *update,
                        rssi,
                        r,
                        p,
                        gap,
                        now,
                        session,
                    )
            },
    {
        if self.device_profile.is_none() {
            self.device_profile = Some(DeviceBatteryProfile::new(device_name, device_address));
        }
        let settings = self.settings;
        let now = system_now();
        let mut profile = self.device_profile.take().unwrap();
        let since_last_update = match profile.state.last_update {
            None => None,
            Some(t) => match system_duration_since(&now, &t) {
                Some(d) => Some(d),
                None => Some(duration_from_secs(0)),
            },
        };
        let session_duration = match &profile.state.current_session {
            None => None,
            Some(s) => match system_duration_since(&now, &s.start_time) {
                Some(d) => Some(d),
                None => Some(duration_from_secs(0)),
            },
        };
        let ghost old_state = profile.state;
        let ghost before = profile.events@;
        let r = profile.record_update(&settings, update, rssi, now, since_last_update, session_duration);
        assert(spec_update_outcome(
            settings,
            old_state,
            before,
            *update,
            rssi,
            r,
            profile,
            since_last_update,
            now,
            session_duration,
        ));
        proof {
            match old(self).device_profile {
                Some(q) => {
                    assert(old_state == q.state && before == q.events@);
                },
                None => {
                    assert(old_state == TrackedProfile::spec_new());
                    assert(before =~= Seq::<BatteryEvent>::empty());
                },
            }
        }
        self.device_profile = Some(profile);
        assert(old_state == spec_profile_state(old(self).device_profile));
        assert(before == spec_profile_events(old(self).device_profile));
        r
    }
}

/// The level recorded for depletion tracking after a reading.
pub open spec fn spec_tracked_mark(last: Option<u8>, level: Option<u8>, charging: bool) -> Option<u8> {
    match level {
        None => last,
        Some(l) => if charging {
            None
        } else {
            match last {
                None => Some(l),
                Some(p) => if l < p && p - l >= SIGNIFICANT_BATTERY_DROP {
                    Some(l)
                } else {
                    last
                },
            }
        },
    }
}

/// The kind of depletion step a reading gives.
pub open spec fn spec_step_kind(step: DepletionStep, last: Option<u8>, level: Option<u8>, charging: bool) -> bool {
    match level {
        None => step == DepletionStep::Unchanged,
        Some(l) => if charging {
            step == DepletionStep::Reset
        } else {
            match last {
                None => step == DepletionStep::Started,
                Some(p) => if l < p && p - l >= SIGNIFICANT_BATTERY_DROP {
                    step matches DepletionStep::Dropped { start, end, elapsed } && start == p && end == l
                } else {
                    step == DepletionStep::Unchanged
                },
            }
        },
    }
}

/// The first update of a device, and a drop of any component by the
/// significant drop or more, are always recorded.
pub proof fn lemma_significant_drops_recorded(s: IntelligenceSettings, p: ProfileState, u: BatteryUpdate)
    ensures
        p.since_last_update is None ==> spec_is_significant(s, p, u),
        (dropped_by(u.left, p.current_left, SIGNIFICANT_BATTERY_DROP as int) || dropped_by(
            u.right,
            p.current_right,
            SIGNIFICANT_BATTERY_DROP as int,
        ) || dropped_by(u.case, p.current_case, SIGNIFICANT_BATTERY_DROP as int))
            ==> spec_is_significant(s, p, u),
{
}

/// The event history never holds more than `MAX_EVENTS` events, and the
/// event just added is always the newest one kept.
pub proof fn lemma_event_history_bounded(events: Seq<BatteryEvent>, event: BatteryEvent)
    ensures
        spec_events_after(events, event).len() <= MAX_EVENTS,
        spec_events_after(events, event).len() > 0,
        spec_events_after(events, event).last() == event,
{
}

/// The highest level seen never goes down.
pub proof fn lemma_max_observed_never_falls(max: u8, level: Option<u8>, charging: bool)
    ensures
        spec_max_observed(max, level, charging) >= max,
{
}

} // verus!
