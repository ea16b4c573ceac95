//! Servo following: turning accelerometer angles into pulse-width offsets
//! and step sizes, and the follower that walks the servo pulse width
//! towards the latest reading one step at a time.

use vstd::prelude::*;

verus! {

/// PWM period of the servo signal, in milliseconds.
pub const PERIOD_MS: u64 = 20;
/// Shortest servo pulse, in microseconds.
pub const PULSE_MIN_US: u64 = 500;
/// Pulse of the servo's middle position, in microseconds.
pub const PULSE_NEUTRAL_US: u64 = 1500;
/// Longest servo pulse, in microseconds.
pub const PULSE_MAX_US: u64 = 2500;
/// Step size the main loop starts with.
pub const INITIAL_STEP: i32 = 10;

/// Integer division rounding toward zero, as Rust's `/` does on signed values.
pub open spec fn div_toward_zero(a: int, d: int) -> int
    recommends
        d > 0,
{
    if a >= 0 {
        a / d
    } else {
        -((-a) / d)
    }
}

/// Offset of the servo pulse from neutral for a roll angle in degrees:
/// half the pulse range per 180 degrees, rounded toward zero.
pub fn roll_to_pulse_offset(roll: i64) -> (r: i64)
    requires
        i64::MIN <= roll * 1000 <= i64::MAX,
    ensures
        r == div_toward_zero(roll * ((PULSE_MAX_US - PULSE_MIN_US) / 2), 180),
{
    let half_range: i64 = ((PULSE_MAX_US - PULSE_MIN_US) / 2) as i64;
    let scaled: i64 = roll * half_range;
    scaled / 180
}

/// Signal for changing the step size from a pitch angle in degrees:
/// ten units per 180 degrees, rounded toward zero.
pub fn pitch_to_step_signal(pitch: i64) -> (r: i64)
    requires
        i64::MIN <= pitch * 10 <= i64::MAX,
    ensures
        r == div_toward_zero(pitch * 10, 180),
{
    pitch * 10 / 180
}

/// The step size after a signal: one larger when the signal is above 3 and
/// the step is below 20, one smaller when the signal is below -3 and the
/// step is above 1, otherwise the same.
pub open spec fn next_step(step: int, signal: int) -> int {
    if signal > 3 && step < 20 {
        step + 1
    } else if signal < -3 && step > 1 {
        step - 1
    } else {
        step
    }
}

/// The step size after one reading, as `next_step` says.
pub fn adjust_step(step: i32, signal: i64) -> (r: i32)
    ensures
        r == next_step(step as int, signal as int),
        -3 <= signal <= 3 ==> r == step,
        signal > 3 && step < 20 ==> r == step + 1,
        signal < -3 && step > 1 ==> r == step - 1,
        signal > 3 && step >= 20 ==> r == step,
        signal < -3 && step <= 1 ==> r == step,
{
    let mut s = step;
    if signal > 3 && s < 20 {
        s = s + 1;
    }
    if signal < -3 && s > 1 {
        s = s - 1;
    }
    s
}

/// A step size in the range 1 to 20 stays in that range, and changes by at
/// most one per reading.
pub proof fn lemma_step_stays_in_range(step: int, signal: int)
    requires
        1 <= step <= 20,
    ensures
        1 <= next_step(step, signal) <= 20,
        step - 1 <= next_step(step, signal) <= step + 1,
{
}

/// The step size changes only on a signal beyond the dead band -3 to 3,
/// by one, upwards for a positive signal below the cap 20 and downwards for
/// a negative one above the floor 1; and the rule is symmetric: strictly
/// between the bounds, a signal and its negation move the step by opposite
/// amounts.
pub proof fn lemma_step_dead_band(step: int, signal: int)
    ensures
        -3 <= signal <= 3 ==> next_step(step, signal) == step,
        signal > 3 && step < 20 ==> next_step(step, signal) == step + 1,
        signal < -3 && step > 1 ==> next_step(step, signal) == step - 1,
        signal > 3 && step >= 20 ==> next_step(step, signal) == step,
        signal < -3 && step <= 1 ==> next_step(step, signal) == step,
        1 < step < 20 ==> next_step(step, signal) - step == -(next_step(step, -signal) - step),
{
}

/// Division rounding toward zero: the quotient times the divisor never goes
/// past the dividend and falls short of it by less than the divisor, and it
/// has the dividend's sign.
pub proof fn lemma_div_toward_zero(a: int, d: int)
    requires
        d > 0,
    ensures
        a >= 0 ==> 0 <= div_toward_zero(a, d) * d <= a < div_toward_zero(a, d) * d + d,
        a < 0 ==> div_toward_zero(a, d) * d - d < a <= div_toward_zero(a, d) * d <= 0,
        div_toward_zero(-a, d) == -div_toward_zero(a, d),
{
    if a >= 0 {
        vstd::arithmetic::div_mod::lemma_fundamental_div_mod(a, d);
        vstd::arithmetic::div_mod::lemma_div_pos_is_pos(a, d);
        assert(0 <= (a / d) * d) by (nonlinear_arith)
            requires
                a / d >= 0,
                d > 0,
        ;
    } else {
        vstd::arithmetic::div_mod::lemma_fundamental_div_mod(-a, d);
        vstd::arithmetic::div_mod::lemma_div_pos_is_pos(-a, d);
        assert(0 <= ((-a) / d) * d) by (nonlinear_arith)
            requires
                (-a) / d >= 0,
                d > 0,
        ;
        let x = (-a) / d;
        assert(x * d == d * x) by (nonlinear_arith);
        assert((-x) * d == -(x * d)) by (nonlinear_arith);
        assert(div_toward_zero(a, d) == -x);
    }
    if a == 0 {
        assert(0int / d == 0);
    }
}

/// What the follower is doing between two readings.
#[derive(Debug, Clone, Copy, PartialEq, Eq, Structural)]
pub enum ServoPhase {
    /// Waiting for a reading that differs from the current pulse.
    Idle,
    /// Walking the pulse up towards `target`.
    Rising { target: u64 },
    /// Walking the pulse down towards `target`.
    Falling { target: u64 },
}

/// The servo follower: the pulse width last reached, in microseconds, and
/// the walk in progress.
#[derive(Debug, Clone, Copy)]
pub struct ServoFollower {
    pub pulse: u64,
    pub phase: ServoPhase,
}

/// The pulse width that a reading asks for: neutral plus the offset,
/// taken as an unsigned number.
pub open spec fn reading_target(acc: i64) -> u64 {
    (PULSE_NEUTRAL_US + acc) as u64
}

impl ServoFollower {
    /// The follower handles this reading without an arithmetic overflow.
    pub open spec fn accepts(self, acc: i64, step: i32) -> bool {
        let t = reading_target(acc);
        let s = step as u64;
        &&& acc <= i64::MAX - PULSE_NEUTRAL_US
        &&& match self.phase {
            ServoPhase::Idle => {
                &&& t > self.pulse ==> self.pulse + s <= u64::MAX
                &&& t < self.pulse ==> self.pulse >= s
            },
            ServoPhase::Rising { target } => (t > self.pulse && self.pulse != target) ==> self.pulse
                + s <= u64::MAX,
            ServoPhase::Falling { target } => (t < self.pulse && self.pulse != target) ==> self.pulse
                >= s,
        }
    }

    /// The follower after one reading `acc` with step size `step`, and the
    /// pulse width to command, if any.
    pub open spec fn after_reading(self, acc: i64, step: i32) -> (ServoFollower, Option<u64>) {
        let t = reading_target(acc);
        let s = step as u64;
        match self.phase {
            ServoPhase::Idle => if t > self.pulse {
                (
                    ServoFollower {
                        pulse: (self.pulse + s) as u64,
                        phase: ServoPhase::Rising { target: t },
                    },
                    None,
                )
            } else if t < self.pulse {
                (
                    ServoFollower {
                        pulse: (self.pulse - s) as u64,
                        phase: ServoPhase::Falling { target: t },
                    },
                    None,
                )
            } else {
                (self, None)
            },
            ServoPhase::Rising { target } => if t <= self.pulse {
                (ServoFollower { phase: ServoPhase::Idle, ..self }, None)
            } else if self.pulse == target {
                (ServoFollower { phase: ServoPhase::Idle, ..self }, Some(self.pulse))
            } else {
                (ServoFollower { pulse: (self.pulse + s) as u64, ..self }, Some(self.pulse))
            },
            ServoPhase::Falling { target } => if t >= self.pulse {
                (ServoFollower { phase: ServoPhase::Idle, ..self }, None)
            } else if self.pulse == target {
                (ServoFollower { phase: ServoPhase::Idle, ..self }, Some(self.pulse))
            } else {
                (ServoFollower { pulse: (self.pulse - s) as u64, ..self }, Some(self.pulse))
            },
        }
    }

    /// A follower at the neutral position, waiting.
    pub fn new() -> (f: Self)
        ensures
            f.pulse == PULSE_NEUTRAL_US,
            f.phase == ServoPhase::Idle,
    {
        ServoFollower { pulse: PULSE_NEUTRAL_US, phase: ServoPhase::Idle }
    }

    /// Whether `on_reading` can take this reading.
    pub fn can_accept(&self, acc: i64, step: i32) -> (r: bool)
        ensures
            r == self.accepts(acc, step),
    {
        if acc > i64::MAX - (PULSE_NEUTRAL_US as i64) {
            return false;
        }
        let t: u64 = ((PULSE_NEUTRAL_US as i64) + acc) as u64;
        let s: u64 = step as u64;
        match self.phase {
            ServoPhase::Idle => {
                if t > self.pulse {
                    self.pulse <= u64::MAX - s
                } else if t < self.pulse {
                    self.pulse >= s
                } else {
                    true
                }
            },
            ServoPhase::Rising { target } => {
                if t > self.pulse && self.pulse != target {
                    self.pulse <= u64::MAX - s
                } else {
                    true
                }
            },
            ServoPhase::Falling { target } => {
                if t < self.pulse && self.pulse != target {
                    self.pulse >= s
                } else {
                    true
                }
            },
        }
    }

    /// Takes one reading (the pulse offset `acc` and the step size `step`)
    /// and returns the pulse width to command, if any.
    ///
    /// While waiting, a reading above the pulse starts a walk up (the pulse
    /// moves one step at once), one below starts a walk down, an equal one
    /// changes nothing. During a walk, a reading that no longer lies ahead of
    /// the pulse ends the walk; otherwise the pulse reached is commanded, and
    /// the walk ends if it reached the target it started for, or else the
    /// pulse moves one more step.
    pub fn on_reading(&mut self, acc: i64, step: i32) -> (cmd: Option<u64>)
        requires
            old(self).accepts(acc, step),
        ensures
            (*final(self), cmd) == old(self).after_reading(acc, step),
            old(self).phase is Idle ==> cmd is None,
            old(self).phase is Rising && reading_target(acc) > old(self).pulse ==> cmd == Some(
                old(self).pulse,
            ),
            old(self).phase is Falling && reading_target(acc) < old(self).pulse ==> cmd == Some(
                old(self).pulse,
            ),
            old(self).phase is Rising && reading_target(acc) <= old(self).pulse ==> cmd is None
                && final(self).phase is Idle && final(self).pulse == old(self).pulse,
            old(self).phase is Falling && reading_target(acc) >= old(self).pulse ==> cmd is None
                && final(self).phase is Idle && final(self).pulse == old(self).pulse,
    {
        let t: u64 = ((PULSE_NEUTRAL_US as i64) + acc) as u64;
        let s: u64 = step as u64;
        match self.phase {
            ServoPhase::Idle => {
                if t > self.pulse {
                    self.pulse = self.pulse + s;
                    self.phase = ServoPhase::Rising { target: t };
                } else if t < self.pulse {
                    self.pulse = self.pulse - s;
                    self.phase = ServoPhase::Falling { target: t };
                }
                None
            },
            ServoPhase::Rising { target } => {
                if t <= self.pulse {
                    self.phase = ServoPhase::Idle;
                    None
                } else {
                    let reached = self.pulse;
                    if reached == target {
                        self.phase = ServoPhase::Idle;
                    } else {
                        self.pulse = reached + s;
                    }
                    Some(reached)
                }
            },
            ServoPhase::Falling { target } => {
                if t >= self.pulse {
                    self.phase = ServoPhase::Idle;
                    None
                } else {
                    let reached = self.pulse;
                    if reached == target {
                        self.phase = ServoPhase::Idle;
                    } else {
                        self.pulse = reached - s;
                    }
                    Some(reached)
                }
            },
        }
    }
}

/// While walking, the follower commands the pulse it has reached exactly
/// when the newest reading still lies beyond it, including when that pulse
/// is the target of the walk, and then it either ends the walk (target
/// reached) or moves one step on; otherwise it stops walking where it is.
/// While waiting, it commands nothing: a reading above the pulse starts a
/// walk up by one step, one below starts a walk down, an equal one changes
/// nothing.
pub proof fn lemma_follow_reading(f: ServoFollower, acc: i64, step: i32)
    requires
        f.accepts(acc, step),
    ensures
        ({
            let (g, cmd) = f.after_reading(acc, step);
            let t = reading_target(acc);
            let s = step as u64;
            &&& f.phase is Idle ==> cmd is None
            &&& f.phase is Idle && t > f.pulse ==> g.pulse == f.pulse + s && g.phase
                == ServoPhase::Rising { target: t }
            &&& f.phase is Idle && t < f.pulse ==> g.pulse == f.pulse - s && g.phase
                == ServoPhase::Falling { target: t }
            &&& f.phase is Idle && t == f.pulse ==> g == f
            &&& f.phase is Rising && t > f.pulse ==> cmd == Some(f.pulse)
            &&& f.phase is Falling && t < f.pulse ==> cmd == Some(f.pulse)
            &&& f.phase is Rising && t <= f.pulse ==> cmd is None && g.phase is Idle && g.pulse
                == f.pulse
            &&& f.phase is Falling && t >= f.pulse ==> cmd is None && g.phase is Idle && g.pulse
                == f.pulse
            &&& f.phase matches ServoPhase::Rising { target } ==> (t > f.pulse ==> if f.pulse
                == target {
                g.phase is Idle && g.pulse == f.pulse
            } else {
                g.phase == f.phase && g.pulse == f.pulse + s
            })
            &&& f.phase matches ServoPhase::Falling { target } ==> (t < f.pulse ==> if f.pulse
                == target {
                g.phase is Idle && g.pulse == f.pulse
            } else {
                g.phase == f.phase && g.pulse == f.pulse - s
            })
        }),
{
}

/// A commanded pulse width never lies at or beyond the newest reading:
/// on a walk up it is below the target the reading asks for, on a walk
/// down above it. A follower that is waiting never commands anything.
pub proof fn lemma_command_short_of_reading(f: ServoFollower, acc: i64, step: i32)
    ensures
        f.after_reading(acc, step).1 matches Some(w) ==> match f.phase {
            ServoPhase::Rising { .. } => w < reading_target(acc),
            ServoPhase::Falling { .. } => w > reading_target(acc),
            ServoPhase::Idle => false,
        },
{
}

} // verus!
