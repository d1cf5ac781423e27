//! Time as the rest of the crate sees it: `Duration` values read as a count of
//! nanoseconds, and readings of the monotonic clock.

use std::time::{Duration, Instant};
use vstd::prelude::*;

verus! {

/// The length of a duration in nanoseconds.
pub uninterp spec fn duration_nanos(d: Duration) -> nat;

/// The nanoseconds in a second.
pub const NANOS_PER_SEC: u128 = 1_000_000_000;

/// The largest count of nanoseconds that [`span`] turns into a `Duration`
/// without clamping: `u64::MAX` whole seconds and 999 999 999 nanoseconds.
pub const MAX_NANOS: u128 = 18_446_744_073_709_551_615_999_999_999;

/// `Duration::as_nanos` gives the total number of nanoseconds in the duration;
/// that number is what [`duration_nanos`] names.
pub assume_specification[ Duration::as_nanos ](d: &Duration) -> (n: u128)
    ensures
        n == duration_nanos(*d),
;

/// `Duration::new` builds the duration of `secs` whole seconds and `nanos`
/// further nanoseconds. With `nanos` below one second nothing carries into the
/// seconds, so the call cannot overflow.
pub assume_specification[ Duration::new ](secs: u64, nanos: u32) -> (d: Duration)
    requires
        nanos < 1_000_000_000,
    ensures
        duration_nanos(d) == secs * 1_000_000_000 + nanos,
;

/// A count of nanoseconds, clamped to [`MAX_NANOS`].
pub open spec fn clamp_nanos(n: nat) -> nat {
    if n <= MAX_NANOS {
        n
    } else {
        MAX_NANOS as nat
    }
}

/// The duration of `n` nanoseconds, or the longest representable one when `n`
/// exceeds it.
pub fn span(n: u128) -> (d: Duration)
    ensures
        duration_nanos(d) == clamp_nanos(n as nat),
{
    if n <= MAX_NANOS {
        let secs: u128 = n / NANOS_PER_SEC;
        let rest: u128 = n % NANOS_PER_SEC;
        Duration::new(secs as u64, rest as u32)
    } else {
        Duration::new(u64::MAX, 999_999_999)
    }
}

/// `std::time::Instant`, a reading of the monotonic clock. It is kept and
/// handed back to the clock, and never looked into.
#[verifier::external_type_specification]
#[verifier::external_body]
pub struct ExInstant(Instant);

/// `Instant::now` reads the monotonic clock. Nothing is promised of the
/// reading.
pub assume_specification[ Instant::now ]() -> (now: Instant)
;

/// The time from the reading `earlier` to the reading `later` in nanoseconds,
/// and none where `earlier` is the later of the two.
pub uninterp spec fn instant_gap(later: Instant, earlier: Instant) -> nat;

/// The time from one reading of the clock to another: none from a reading to
/// itself, and [`instant_gap`] otherwise.
pub open spec fn time_between(later: Instant, earlier: Instant) -> nat {
    if later == earlier {
        0
    } else {
        instant_gap(later, earlier)
    }
}

/// `Instant::saturating_duration_since` gives the time from `earlier` to
/// `later`, and no time at all where `earlier` is the later of the two. It
/// depends on the two readings alone; [`instant_gap`] names it. From a
/// reading to itself no time has passed.
pub assume_specification[ Instant::saturating_duration_since ](
    later: &Instant,
    earlier: Instant,
) -> (d: Duration)
    ensures
        duration_nanos(d) == instant_gap(*later, earlier),
        *later == earlier ==> duration_nanos(d) == 0,
;

/// How long ago `since` was read from the clock: the time from `since` to a
/// reading made now.
pub fn time_since(since: Instant) -> (d: Duration)
    ensures
        exists|now: Instant| duration_nanos(d) == #[trigger] time_between(now, since),
{
    let now = Instant::now();
    let d = now.saturating_duration_since(since);
    assert(duration_nanos(d) == time_between(now, since));
    d
}

} // verus!
