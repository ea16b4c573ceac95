//! The traffic light: a four-phase state machine that decides which lamps
//! are lit and how long each phase is held.

use std::time::Duration;
use crate::time::{duration_as_nanos, duration_from_millis, duration_nanos};
use vstd::prelude::*;

verus! {

/// Where the light stands; the yellow-before-green phase differs by region.
#[derive(Debug, Clone, Copy, PartialEq, Eq, Structural)]
pub enum Location {
    US,
    EU,
    /// Not set yet: the machine refuses to run in this location.
    NA,
}

/// One lamp pattern to show, and how long to hold it at most
/// (a press of the walk button ends the hold early).
#[derive(Debug, Clone, Copy)]
pub struct LampCommand {
    pub red: bool,
    pub yellow: bool,
    pub green: bool,
    pub hold: Duration,
}

/// The logical state of the light: lamp flags, the two hold times, the
/// phase number and the region.
#[derive(Debug)]
pub struct StopLights {
    pub red: bool,
    pub yellow: bool,
    pub green: bool,
    pub wait_timer: Duration,
    pub max_time: Duration,
    pub state: i32,
    pub location: Location,
}

impl LampCommand {
    pub open spec fn shows(self, red: bool, yellow: bool, green: bool, hold: Duration) -> bool {
        self.red == red && self.yellow == yellow && self.green == green && self.hold == hold
    }
}

impl StopLights {
    /// The machine can take a step without hitting a refused input: a
    /// known phase, and a region set before the yellow phase is chosen.
    pub open spec fn can_step(self) -> bool {
        &&& 0 <= self.state <= 4
        &&& (self.state == 0 || self.state == 1) ==> !(self.location is NA)
    }

    /// The lamp flags match the phase the machine is in.
    pub open spec fn well_formed(self) -> bool {
        if self.state == 0 || self.state == 1 {
            self.red && !self.yellow && !self.green
        } else if self.state == 2 {
            self.yellow && !self.green
        } else if self.state == 3 {
            self.green && !self.red && !self.yellow
        } else if self.state == 4 {
            self.yellow && !self.red && !self.green
        } else {
            false
        }
    }

    /// The light after one step, with every field not named kept.
    pub open spec fn after_step(self) -> StopLights {
        if self.state == 0 {
            StopLights { state: 1, ..self }
        } else if self.state == 1 {
            if self.location is US {
                StopLights { red: false, yellow: true, state: 2, ..self }
            } else {
                StopLights { red: true, yellow: true, state: 2, ..self }
            }
        } else if self.state == 2 {
            StopLights { red: false, yellow: false, green: true, state: 3, ..self }
        } else if self.state == 3 {
            StopLights { red: false, green: false, yellow: true, state: 4, ..self }
        } else {
            StopLights { red: true, yellow: false, green: false, state: 1, ..self }
        }
    }

    /// How long the phase entered by one step is held: the short wait for
    /// the yellow phases, the long one for green and red.
    pub open spec fn hold_after_step(self) -> Duration {
        if self.state == 1 || self.state == 3 {
            self.wait_timer
        } else {
            self.max_time
        }
    }

    /// A light in its initial phase: red only, a one second wait, the
    /// given maximum hold, and no region.
    pub fn new(max: Duration) -> (s: Self)
        ensures
            s.red && !s.yellow && !s.green,
            duration_nanos(s.wait_timer) == 1_000_000_000,
            s.max_time == max,
            s.state == 0,
            s.location is NA,
            s.well_formed(),
    {
        StopLights {
            red: true,
            yellow: false,
            green: false,
            wait_timer: duration_from_millis(1000),
            max_time: max,
            state: 0,
            location: Location::NA,
        }
    }

    /// Sets the region; nothing else changes.
    pub fn set_location(&mut self, loc: Location)
        ensures
            *final(self) == (StopLights { location: loc, ..*old(self) }),
    {
        self.location = loc;
    }

    /// One step of the machine. From phase 0 it only moves to phase 1 and
    /// shows nothing new; from phases 1 to 4 it changes the lamps, moves on
    /// (4 wraps to 1) and returns the lamps to show with their hold time.
    pub fn state_machine(&mut self) -> (cmd: Option<LampCommand>)
        requires
            old(self).can_step(),
        ensures
            *final(self) == old(self).after_step(),
            old(self).state == 0 ==> cmd is None,
            old(self).state != 0 ==> (cmd matches Some(c) && c.shows(
                final(self).red,
                final(self).yellow,
                final(self).green,
                old(self).hold_after_step(),
            )),
            old(self).well_formed() ==> final(self).well_formed(),
            final(self).state == (if old(self).state == 4 { 1 } else { old(self).state + 1 }),
            final(self).location == old(self).location,
            final(self).wait_timer == old(self).wait_timer,
            final(self).max_time == old(self).max_time,
            (old(self).state == 2 || old(self).state == 4) ==> (cmd matches Some(c) && c.hold
                == old(self).max_time),
            (old(self).state == 1 || old(self).state == 3) ==> (cmd matches Some(c) && c.hold
                == old(self).wait_timer),
            old(self).state == 1 && old(self).location is US ==> (cmd matches Some(c) && !c.red
                && c.yellow && c.green == old(self).green),
            old(self).state == 1 && old(self).location is EU ==> (cmd matches Some(c) && c.red
                && c.yellow && c.green == old(self).green),
            old(self).state == 2 ==> (cmd matches Some(c) && !c.red && !c.yellow && c.green),
            old(self).state == 3 ==> (cmd matches Some(c) && !c.red && c.yellow && !c.green),
            old(self).state == 4 ==> (cmd matches Some(c) && c.red && !c.yellow && !c.green),
            old(self).state == 0 ==> final(self).red == old(self).red && final(self).yellow == old(
                self,
            ).yellow && final(self).green == old(self).green,
    {
        if self.state == 0 {
            self.state = 1;
            return None;
        }
        let hold;
        if self.state == 1 {
            match self.location {
                Location::US => {
                    self.red = false;
                    self.yellow = true;
                },
                _ => {
                    self.red = true;
                    self.yellow = true;
                },
            }
            hold = self.wait_timer;
            self.state = 2;
        } else if self.state == 2 {
            self.red = false;
            self.yellow = false;
            self.green = true;
            hold = self.max_time;
            self.state = 3;
        } else if self.state == 3 {
            self.red = false;
            self.green = false;
            self.yellow = true;
            hold = self.wait_timer;
            self.state = 4;
        } else {
            self.red = true;
            self.yellow = false;
            self.green = false;
            hold = self.max_time;
            self.state = 1;
        }
        Some(LampCommand { red: self.red, yellow: self.yellow, green: self.green, hold })
    }

    /// Whether `state_machine` can take a step from here.
    pub fn step_allowed(&self) -> (r: bool)
        ensures
            r == self.can_step(),
            r == (0 <= self.state <= 4 && !((self.state == 0 || self.state == 1)
                && self.location is NA)),
    {
        if self.state < 0 || self.state > 4 {
            false
        } else if self.state <= 1 {
            match self.location {
                Location::NA => false,
                _ => true,
            }
        } else {
            true
        }
    }

    /// Whether a phase's hold is over: the time held so far has reached
    /// the limit. (The walk button ends a hold early as well.)
    pub fn hold_expired(elapsed: Duration, limit: Duration) -> (r: bool)
        ensures
            r == (duration_nanos(elapsed) >= duration_nanos(limit)),
    {
        let e = duration_as_nanos(elapsed);
        let l = duration_as_nanos(limit);
        e >= l
    }
}

/// Red and green are never lit together in a well-formed light.
pub proof fn lemma_never_red_and_green(s: StopLights)
    requires
        s.well_formed(),
    ensures
        !(s.red && s.green),
{
}

/// In a well-formed light some lamp is always lit, green is lit alone, and
/// the phase is one of 0 to 4.
pub proof fn lemma_lamp_facts(s: StopLights)
    requires
        s.well_formed(),
    ensures
        s.red || s.yellow || s.green,
        s.green ==> !s.red && !s.yellow,
        0 <= s.state <= 4,
{
}

/// Setting the region keeps the light well formed.
pub proof fn lemma_set_location_keeps_well_formed(s: StopLights, loc: Location)
    requires
        s.well_formed(),
    ensures
        (StopLights { location: loc, ..s }).well_formed(),
{
}

/// A step keeps the light well formed, and once a region is set the
/// machine can go on stepping forever without reaching a refused input.
pub proof fn lemma_step_keeps_running(s: StopLights)
    requires
        s.can_step(),
        s.well_formed(),
    ensures
        s.after_step().well_formed(),
        s.after_step().location == s.location,
        !(s.location is NA) ==> s.after_step().can_step(),
{
}

/// Green is only ever lit right after a yellow phase, and a green phase is
/// always followed by yellow alone.
pub proof fn lemma_green_between_yellows(s: StopLights)
    requires
        s.can_step(),
        s.well_formed(),
    ensures
        s.after_step().green && !s.green ==> s.yellow,
        s.green ==> s.after_step().yellow && !s.after_step().green && !s.after_step().red,
{
}

/// Once a region is set, four steps bring the light back to exactly the
/// same state, from any phase of the cycle (in the red-and-yellow or
/// yellow phase before green, the lamps must be those of the region).
pub proof fn lemma_four_steps_cycle(s: StopLights)
    requires
        1 <= s.state <= 4,
        s.well_formed(),
        !(s.location is NA),
        s.state == 2 ==> (s.red <==> !(s.location is US)),
    ensures
        s.after_step().after_step().after_step().after_step() == s,
{
}

/// A hold with a zero limit is over at once.
pub proof fn lemma_zero_hold_ends_at_once(elapsed: Duration, limit: Duration)
    requires
        duration_nanos(limit) == 0,
    ensures
        duration_nanos(elapsed) >= duration_nanos(limit),
{
}

/// What a step does depends on the phase, and on the region only in phase
/// 1: the phase advances 0, 1, 2, 3, 4 and back to 1; entering green or red
/// holds for the long time, entering a yellow phase for the short wait,
/// whatever the region; the lamps entered are red and yellow (EU) or yellow
/// alone (US) from phase 1, green alone from 2, yellow alone from 3 and red
/// alone from 4; phase 0 changes no lamp; the hold times and the region are
/// kept.
pub proof fn lemma_step_by_phase(s: StopLights, loc: Location)
    requires
        s.can_step(),
    ensures
        s.after_step().state == (if s.state == 4 { 1 } else { s.state + 1 }),
        s.after_step().location == s.location,
        s.after_step().wait_timer == s.wait_timer,
        s.after_step().max_time == s.max_time,
        s.state == 2 || s.state == 4 ==> s.hold_after_step() == s.max_time,
        s.state == 1 || s.state == 3 ==> s.hold_after_step() == s.wait_timer,
        (StopLights { location: loc, ..s }).hold_after_step() == s.hold_after_step(),
        s.state != 1 && (StopLights { location: loc, ..s }).can_step() ==> (StopLights {
            location: loc,
            ..s
        }).after_step() == (StopLights { location: loc, ..s.after_step() }),
        s.state == 0 ==> s.after_step().red == s.red && s.after_step().yellow == s.yellow
            && s.after_step().green == s.green,
        s.state == 1 && s.location is US ==> !s.after_step().red && s.after_step().yellow && (
        s.after_step().green == s.green),
        s.state == 1 && s.location is EU ==> s.after_step().red && s.after_step().yellow && (
        s.after_step().green == s.green),
        s.state == 2 ==> !s.after_step().red && !s.after_step().yellow && s.after_step().green,
        s.state == 3 ==> !s.after_step().red && s.after_step().yellow && !s.after_step().green,
        s.state == 4 ==> s.after_step().red && !s.after_step().yellow && !s.after_step().green,
{
}

/// A light may step exactly when its phase is known and, in phases 0 and 1,
/// its region is set: a light just placed in the US or the EU can step, and
/// phases 2 to 4 can step whatever the region.
pub proof fn lemma_who_can_step(s: StopLights)
    ensures
        s.state == 0 && !(s.location is NA) ==> s.can_step(),
        s.state == 1 && !(s.location is NA) ==> s.can_step(),
        2 <= s.state <= 4 ==> s.can_step(),
        s.can_step() ==> 0 <= s.state <= 4,
        (s.state == 0 || s.state == 1) && s.location is NA ==> !s.can_step(),
{
}

/// A call made on a light: setting its region, or one step of the machine.
pub enum LightCall {
    SetLocation(Location),
    Step,
}

/// Lamps as (red, yellow, green).
pub type Lamps = (bool, bool, bool);

/// Plays a sequence of calls on a light: the light at the end, and the
/// lamp patterns that the steps commanded, in order. A step on an input
/// the machine refuses ends the play there.
pub open spec fn replay(s: StopLights, calls: Seq<LightCall>) -> (StopLights, Seq<Lamps>)
    decreases calls.len(),
{
    if calls.len() == 0 {
        (s, Seq::<Lamps>::empty())
    } else {
        match calls[0] {
            LightCall::SetLocation(loc) => replay(
                StopLights { location: loc, ..s },
                calls.drop_first(),
            ),
            LightCall::Step => if !s.can_step() {
                (s, Seq::<Lamps>::empty())
            } else {
                let t = s.after_step();
                let rest = replay(t, calls.drop_first());
                if s.state == 0 {
                    rest
                } else {
                    (rest.0, seq![(t.red, t.yellow, t.green)] + rest.1)
                }
            },
        }
    }
}

pub open spec fn red_only(c: Lamps) -> bool {
    c.0 && !c.1 && !c.2
}

pub open spec fn yellow_only(c: Lamps) -> bool {
    !c.0 && c.1 && !c.2
}

pub open spec fn green_only(c: Lamps) -> bool {
    !c.0 && !c.1 && c.2
}

/// The lamps a light in a given phase commands at its next step: yellow
/// without green before green (with red in the EU), then green alone,
/// yellow alone, red alone.
pub open spec fn next_command_shape(state: int, c: Lamps) -> bool {
    if state == 2 {
        green_only(c)
    } else if state == 3 {
        yellow_only(c)
    } else if state == 4 {
        red_only(c)
    } else {
        c.1 && !c.2
    }
}

/// Any sequence of calls on a well-formed light (such as one just made by
/// `new`) leaves it well formed: red and green never lit together, some
/// lamp lit, the phase within 0 to 4.
pub proof fn lemma_replay_keeps_well_formed(s: StopLights, calls: Seq<LightCall>)
    requires
        s.well_formed(),
    ensures
        replay(s, calls).0.well_formed(),
        !(replay(s, calls).0.red && replay(s, calls).0.green),
        replay(s, calls).0.red || replay(s, calls).0.yellow || replay(s, calls).0.green,
        0 <= replay(s, calls).0.state <= 4,
    decreases calls.len(),
{
    if calls.len() > 0 {
        match calls[0] {
            LightCall::SetLocation(loc) => {
                lemma_replay_keeps_well_formed(StopLights { location: loc, ..s }, calls.drop_first());
            },
            LightCall::Step => {
                if s.can_step() {
                    lemma_replay_keeps_well_formed(s.after_step(), calls.drop_first());
                }
            },
        }
    }
}

/// The first lamp pattern commanded from a well-formed light is the one its
/// phase calls for, whatever regions are set before it.
pub proof fn lemma_first_command(s: StopLights, calls: Seq<LightCall>)
    requires
        s.well_formed(),
        replay(s, calls).1.len() > 0,
    ensures
        next_command_shape(s.state as int, replay(s, calls).1[0]),
    decreases calls.len(),
{
    match calls[0] {
        LightCall::SetLocation(loc) => {
            lemma_first_command(StopLights { location: loc, ..s }, calls.drop_first());
        },
        LightCall::Step => {
            if s.state == 0 {
                lemma_first_command(s.after_step(), calls.drop_first());
            }
        },
    }
}

/// From a light showing green, the second lamp pattern commanded is red alone.
proof fn lemma_second_command_after_green(s: StopLights, calls: Seq<LightCall>)
    requires
        s.well_formed(),
        s.state == 3,
        replay(s, calls).1.len() > 1,
    ensures
        red_only(replay(s, calls).1[1]),
    decreases calls.len(),
{
    match calls[0] {
        LightCall::SetLocation(loc) => {
            lemma_second_command_after_green(StopLights { location: loc, ..s }, calls.drop_first());
        },
        LightCall::Step => {
            let t = s.after_step();
            let rest = replay(t, calls.drop_first());
            assert(replay(s, calls).1 == seq![(t.red, t.yellow, t.green)] + rest.1);
            lemma_first_command(t, calls.drop_first());
        },
    }
}

/// The lamp patterns commanded over any sequence of calls follow the cycle,
/// whatever regions are set between steps: after red alone comes yellow
/// without green, after red and yellow comes green, after green comes
/// yellow alone and then red alone (green never goes straight to red), and
/// after yellow alone comes green or red alone.
pub proof fn lemma_command_cycle(s: StopLights, calls: Seq<LightCall>, i: int)
    requires
        s.well_formed(),
        0 <= i,
        i + 1 < replay(s, calls).1.len(),
    ensures
        ({
            let c = replay(s, calls).1;
            &&& red_only(c[i]) ==> c[i + 1].1 && !c[i + 1].2
            &&& (c[i].0 && c[i].1 && !c[i].2) ==> green_only(c[i + 1])
            &&& green_only(c[i]) ==> yellow_only(c[i + 1])
            &&& green_only(c[i]) && i + 2 < c.len() ==> red_only(c[i + 2])
            &&& yellow_only(c[i]) ==> green_only(c[i + 1]) || red_only(c[i + 1])
        }),
    decreases calls.len(),
{
    match calls[0] {
        LightCall::SetLocation(loc) => {
            lemma_command_cycle(StopLights { location: loc, ..s }, calls.drop_first(), i);
        },
        LightCall::Step => {
            let t = s.after_step();
            let rest = replay(t, calls.drop_first());
            if s.state == 0 {
                lemma_command_cycle(t, calls.drop_first(), i);
            } else {
                assert(replay(s, calls).1 == seq![(t.red, t.yellow, t.green)] + rest.1);
                if i == 0 {
                    lemma_first_command(t, calls.drop_first());
                    if s.state == 2 && rest.1.len() > 1 {
                        lemma_second_command_after_green(t, calls.drop_first());
                    }
                } else {
                    lemma_command_cycle(t, calls.drop_first(), i - 1);
                }
            }
        },
    }
}

} // verus!
