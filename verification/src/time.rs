//! Durations: their length in nanoseconds, and the few std operations on
//! them that the library uses.

use std::time::Duration;
use vstd::prelude::*;

verus! {

/// The length of a duration in nanoseconds, as `Duration::as_nanos` gives it.
pub uninterp spec fn duration_nanos(d: Duration) -> u128;

/// The length of the longest duration, `Duration::MAX`: `u64::MAX` seconds
/// and 999 999 999 nanoseconds.
pub open spec fn max_duration_nanos() -> int {
    u64::MAX as int * 1_000_000_000 + 999_999_999
}

/// Calls `std::time::Duration::from_millis`, which gives a duration of
/// `ms` milliseconds, that is `ms * 1 000 000` nanoseconds.
#[verifier::external_body]
pub(crate) fn duration_from_millis(ms: u64) -> (d: Duration)
    ensures
        duration_nanos(d) == ms as int * 1_000_000,
{
    Duration::from_millis(ms)
}

/// Calls `std::time::Duration::as_nanos`, the total number of nanoseconds
/// in the duration.
#[verifier::external_body]
pub(crate) fn duration_as_nanos(d: Duration) -> (r: u128)
    ensures
        r == duration_nanos(d),
{
    d.as_nanos()
}

/// Calls `std::time::Duration::checked_mul`, which computes `d * n` and
/// returns `None` when the product overflows, that is when it would be
/// longer than `Duration::MAX`.
#[verifier::external_body]
pub(crate) fn duration_checked_mul(d: Duration, n: u32) -> (r: Option<Duration>)
    ensures
        r is None <==> duration_nanos(d) as int * n as int > max_duration_nanos(),
        r matches Some(p) ==> duration_nanos(p) == duration_nanos(d) as int * n as int,
{
    d.checked_mul(n)
}

} // verus!
