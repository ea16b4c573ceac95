//! LED brightness: the fade sweep of the first LED and the pulse width the
//! second LED takes from an accelerometer reading.

use vstd::prelude::*;

verus! {

/// Number of pulse widths in one fade sweep (up, then down).
pub const FADE_STEPS: usize = 2000;

/// The `k`-th pulse width of a fade sweep, in microseconds: the first
/// thousand widths count up from 0 to 999, the next thousand count down
/// from 1500 to 501.
pub open spec fn fade_width(k: int) -> int {
    if k < 1000 {
        k
    } else {
        1500 - (k - 1000)
    }
}

/// The pulse widths of one fade sweep, in microseconds, in order.
pub fn fade_schedule() -> (r: Vec<u64>)
    ensures
        r.len() == FADE_STEPS,
        forall|k: int| 0 <= k < FADE_STEPS ==> r[k] == fade_width(k),
        forall|k: int| 0 <= k < 1000 ==> r[k] == k,
        forall|k: int| 1000 <= k < FADE_STEPS ==> r[k] == 2500 - k,
{
    let mut r: Vec<u64> = Vec::new();
    for i in 0..1000u64
        invariant
            r.len() == i,
            forall|k: int| 0 <= k < i ==> r[k] == fade_width(k),
    {
        r.push(i);
    }
    for i in 0..1000u64
        invariant
            r.len() == 1000 + i,
            forall|k: int| 0 <= k < 1000 + i ==> r[k] == fade_width(k),
    {
        r.push(1500 - i);
    }
    assert forall|k: int| 0 <= k < FADE_STEPS implies r[k] == (if k < 1000 {
        k
    } else {
        2500 - k
    }) by {
        assert(r[k] == fade_width(k));
    }
    r
}

/// The LED grows brighter through the first half of the sweep and dimmer
/// through the second half, never passing 1500 microseconds.
pub proof fn lemma_fade_up_then_down(j: int, k: int)
    requires
        0 <= j < k < FADE_STEPS,
    ensures
        k < 1000 ==> fade_width(j) < fade_width(k),
        j >= 1000 ==> fade_width(j) > fade_width(k),
        0 <= fade_width(k) <= 1500,
{
}

/// The pulse width of the second LED for an accelerometer reading, in
/// milliseconds: five per unit.
pub fn reading_pulse_width_ms(reading: u64) -> (r: u64)
    requires
        reading * 5 <= u64::MAX,
    ensures
        r == reading * 5,
{
    reading * 5
}

} // verus!
