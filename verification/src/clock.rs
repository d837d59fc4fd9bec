//! Monotonic time source for host loops and time-sensitive input gestures.

use vstd::prelude::*;

use std::time::{Duration, Instant};

verus! {

/// The monotonic instant type of the standard library, carried through
/// unchanged.
#[verifier::external_type_specification]
#[verifier::external_body]
pub struct ExInstant(Instant);

/// A monotonic clock that can be replaced in deterministic hosts and tests.
///
/// Returned instants must share one monotonic epoch and must not move
/// backward. Components use elapsed durations only; wall-clock dates and time
/// zones are outside this boundary.
pub trait Clock {
    /// Read the current monotonic instant.
    fn now(&self) -> Instant;
}

/// The process monotonic clock backed by [`Instant::now`].
#[derive(Clone, Copy, Debug, Default)]
pub struct SystemClock;

/// Reads the process monotonic clock through `Instant::now`. Nothing is
/// promised of the instant it returns: it depends on when it is called.
#[verifier::external_body]
fn read_monotonic_clock() -> Instant {
    Instant::now()
}

impl Clock for SystemClock {
    fn now(&self) -> Instant {
        read_monotonic_clock()
    }
}

/// The whole number of nanoseconds in `d`, as `Duration::as_nanos` reports it.
pub uninterp spec fn duration_nanos(d: Duration) -> u128;

/// The duration `Duration::from_millis` builds from `ms` milliseconds.
pub uninterp spec fn duration_from_millis(ms: u64) -> Duration;

/// `t + d`, or `None` where `Instant::checked_add` reports that the sum is not
/// representable.
pub uninterp spec fn instant_after(t: Instant, d: Duration) -> Option<Instant>;

/// The later of two instants, as `Ord::max` picks it.
pub uninterp spec fn later_instant(a: Instant, b: Instant) -> Instant;

/// The earlier of two instants, as `Ord::min` picks it.
pub uninterp spec fn earlier_instant(a: Instant, b: Instant) -> Instant;

/// Calls `Duration::as_nanos`: the total number of whole nanoseconds in `d`.
#[verifier::external_body]
pub(crate) fn nanos_of(d: &Duration) -> (n: u128)
    ensures
        n == duration_nanos(*d),
{
    d.as_nanos()
}

/// Calls `Duration::from_millis`: a duration of `ms` milliseconds, which is
/// `ms * 1_000_000` nanoseconds.
#[verifier::external_body]
pub(crate) fn millis(ms: u64) -> (d: Duration)
    ensures
        d == duration_from_millis(ms),
        duration_nanos(d) == ms * 1_000_000,
{
    Duration::from_millis(ms)
}

/// Calls `Instant::checked_add`: `t + d` when it can be represented.
#[verifier::external_body]
pub(crate) fn checked_later(t: Instant, d: Duration) -> (r: Option<Instant>)
    ensures
        r == instant_after(t, d),
{
    t.checked_add(d)
}

/// Calls `Ord::max` on instants: the later of the two, which is one of them.
#[verifier::external_body]
pub(crate) fn later_of(a: Instant, b: Instant) -> (r: Instant)
    ensures
        r == later_instant(a, b),
        r == a || r == b,
{
    a.max(b)
}

/// Calls `Ord::min` on instants: the earlier of the two, which is one of them.
#[verifier::external_body]
pub(crate) fn earlier_of(a: Instant, b: Instant) -> (r: Instant)
    ensures
        r == earlier_instant(a, b),
        r == a || r == b,
{
    a.min(b)
}

/// The time from `earlier` to `later`, zero when `earlier` is the later of
/// the two, as `Instant::saturating_duration_since` reports it.
pub uninterp spec fn instant_span(later: Instant, earlier: Instant) -> Duration;

/// Whether `a` comes no later than `b`, as `<=` on instants answers.
pub uninterp spec fn instant_not_after(a: Instant, b: Instant) -> bool;

/// Calls `Instant::saturating_duration_since`: the time elapsed from
/// `earlier` to `later`, or a zero duration when `earlier` is later.
#[verifier::external_body]
pub(crate) fn span_since(later: Instant, earlier: Instant) -> (d: Duration)
    ensures
        d == instant_span(later, earlier),
{
    later.saturating_duration_since(earlier)
}

/// Compares two instants with `<=`.
#[verifier::external_body]
pub(crate) fn not_after(a: Instant, b: Instant) -> (r: bool)
    ensures
        r == instant_not_after(a, b),
{
    a <= b
}

/// Calls `Duration::saturating_sub`: `a - b`, or a zero duration when `b`
/// is the longer.
#[verifier::external_body]
pub(crate) fn less_by(a: Duration, b: Duration) -> (d: Duration)
    ensures
        duration_nanos(d) == (if duration_nanos(a) >= duration_nanos(b) {
            duration_nanos(a) - duration_nanos(b)
        } else {
            0
        }),
{
    a.saturating_sub(b)
}

} // verus!
