//! Durations and instants, as far as the library reads them.

use std::time::{Duration, Instant, SystemTime};
use vstd::prelude::*;

verus! {

/// The opaque monotonic clock reading of std.
#[verifier::external_type_specification]
#[verifier::external_body]
pub struct ExInstant(Instant);

/// `Duration` is `Copy`; its `clone` returns the same duration.
pub assume_specification[ <Duration as Clone>::clone ](d: &Duration) -> (r: Duration)
    ensures
        r == *d,
;

/// What `Duration::as_nanos` returns: the whole length of a duration in nanoseconds.
pub uninterp spec fn duration_nanos(d: Duration) -> nat;

/// What `format!("{:?}", d)` writes for a duration of the given length in nanoseconds.
pub uninterp spec fn duration_debug_text(nanos: nat) -> Seq<char>;

/// Nanoseconds in one second.
pub open spec fn nanos_per_sec() -> nat {
    1_000_000_000
}

/// Calls `Duration::from_secs`, which builds a duration of `secs` whole seconds:
/// its length in nanoseconds is `secs` times 10^9.
#[verifier::external_body]
pub fn duration_from_secs(secs: u64) -> (d: Duration)
    ensures
        duration_nanos(d) == secs * nanos_per_sec(),
{
    Duration::from_secs(secs)
}

/// Calls `Duration::from_millis`, which builds a duration of `millis` milliseconds.
#[verifier::external_body]
pub fn duration_from_millis(millis: u64) -> (d: Duration)
    ensures
        duration_nanos(d) == millis * 1_000_000,
{
    Duration::from_millis(millis)
}

/// Calls `Duration::as_secs`, the number of whole seconds in the duration.
#[verifier::external_body]
pub fn duration_as_secs(d: &Duration) -> (secs: u64)
    ensures
        secs == duration_nanos(*d) / nanos_per_sec(),
{
    d.as_secs()
}

/// Calls `Duration::as_nanos`, the whole length of the duration in nanoseconds.
#[verifier::external_body]
pub fn duration_as_nanos(d: &Duration) -> (nanos: u128)
    ensures
        nanos == duration_nanos(*d),
{
    d.as_nanos()
}

/// Formats a duration with `{:?}`; the text is named by its length in nanoseconds.
#[verifier::external_body]
pub fn duration_debug(d: &Duration) -> (s: String)
    ensures
        s@ == duration_debug_text(duration_nanos(*d)),
{
    format!("{:?}", d)
}

/// Calls `Instant::now`. The clock reading depends on the time of the call,
/// so nothing is stated of it.
#[verifier::external_body]
pub fn instant_now() -> Instant {
    Instant::now()
}

/// Calls `Instant::elapsed`, the time since `i` on the monotonic clock.
/// It depends on the time of the call, so nothing is stated of it.
#[verifier::external_body]
pub fn instant_elapsed(i: &Instant) -> Duration {
    i.elapsed()
}

/// Calls `Instant::duration_since`: the time from `earlier` to `now` (zero when
/// `earlier` is later). Instants are machine clock readings without a model here,
/// so nothing is stated of the result.
#[verifier::external_body]
pub fn instant_duration_since(now: &Instant, earlier: &Instant) -> Duration {
    now.duration_since(*earlier)
}

/// A point in wall-clock time.
#[verifier::external_type_specification]
#[verifier::external_body]
pub struct ExSystemTime(SystemTime);

/// `SystemTime` is `Copy`; its `clone` returns the same time.
pub assume_specification[ <SystemTime as Clone>::clone ](t: &SystemTime) -> (r: SystemTime)
    ensures
        r == *t,
;

/// Calls `SystemTime::duration_since`: the time from `earlier` to `now`, or
/// none when `earlier` is later. Wall-clock times have no model here, so
/// nothing is stated of the result.
#[verifier::external_body]
pub fn system_duration_since(now: &SystemTime, earlier: &SystemTime) -> Option<Duration> {
    now.duration_since(*earlier).ok()
}

/// Calls `SystemTime::now`. The reading depends on the time of the call, so
/// nothing is stated of it.
#[verifier::external_body]
pub fn system_now() -> SystemTime {
    SystemTime::now()
}

} // verus!
