//! Points in time and lengths of time, as the animation clock sees them.
//!
//! `Instant` values come from the machine's monotonic clock and are opaque
//! here. A `Duration` is modelled by its length in nanoseconds.

use std::time::{Duration, Instant};
use vstd::prelude::*;

verus! {

/// Declares `std::time::Instant` to Verus, as an opaque value.
#[verifier::external_type_specification]
#[verifier::external_body]
pub struct ExInstant(Instant);

/// Names the length of a `Duration` in nanoseconds, which
/// `Duration::as_nanos` reports.
pub uninterp spec fn nanos(d: Duration) -> nat;

/// `Duration::clone` (the type is `Copy`) gives back the same duration.
pub assume_specification[ <Duration as Clone>::clone ](d: &Duration) -> (r: Duration)
    ensures
        r == *d,
;

/// `Instant::clone` (the type is `Copy`) gives back the same instant.
pub assume_specification[ <Instant as Clone>::clone ](i: &Instant) -> (r: Instant)
    ensures
        r == *i,
;

/// Calls `Instant::now`. The result is read from the clock: nothing is
/// claimed of it.
#[verifier::external_body]
pub(crate) fn instant_now() -> Instant {
    Instant::now()
}

/// Names the time, in nanoseconds, from the instant `earlier` to the
/// instant `later` (zero when `earlier` is the later one), which
/// `Instant::duration_since` reports.
pub uninterp spec fn since_nanos(later: Instant, earlier: Instant) -> nat;

/// Calls `Instant::duration_since`; the result lasts the time from `earlier`
/// to `later`, a function of the two instants alone (named by
/// `since_nanos`).
#[verifier::external_body]
pub(crate) fn duration_since(later: Instant, earlier: Instant) -> (d: Duration)
    ensures
        nanos(d) == since_nanos(later, earlier),
{
    later.duration_since(earlier)
}

/// Whether more than `max_age` has passed from `then` to `now`.
pub fn older_than(now: Instant, then: Instant, max_age: Duration) -> (b: bool)
    ensures
        b == (since_nanos(now, then) > nanos(max_age)),
{
    let age = duration_since(now, then);
    duration_as_nanos(age) > duration_as_nanos(max_age)
}

/// Calls `Duration::from_millis`; the result lasts `ms` milliseconds.
#[verifier::external_body]
pub(crate) fn duration_from_millis(ms: u64) -> (d: Duration)
    ensures
        nanos(d) == ms * 1_000_000,
{
    Duration::from_millis(ms)
}

/// Calls `Duration::as_nanos`.
#[verifier::external_body]
pub(crate) fn duration_as_nanos(d: Duration) -> (n: u128)
    ensures
        n == nanos(d),
{
    d.as_nanos()
}

/// Calls `Duration - Duration`, which panics when the right side is the
/// longer one; the result lasts the difference.
#[verifier::external_body]
pub(crate) fn duration_sub(a: Duration, b: Duration) -> (d: Duration)
    requires
        nanos(b) <= nanos(a),
    ensures
        nanos(d) == nanos(a) - nanos(b),
{
    a - b
}

} // verus!
