//! The stepper motor: how long the PWM signal stays on to make a number
//! of steps.

use std::time::Duration;
use crate::time::{duration_checked_mul, duration_nanos, max_duration_nanos};
use vstd::prelude::*;

verus! {

/// How long to keep the signal on for `steps` steps of `period` each, or
/// `None` when that time does not fit in a `Duration`.
pub fn run_time(period: Duration, steps: u32) -> (r: Option<Duration>)
    ensures
        r is None <==> duration_nanos(period) as int * steps as int > max_duration_nanos(),
        r matches Some(t) ==> duration_nanos(t) == duration_nanos(period) as int * steps as int,
{
    duration_checked_mul(period, steps)
}

} // verus!
