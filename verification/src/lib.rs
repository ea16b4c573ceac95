//! Control logic for a set of Raspberry Pi exercises: a dice-like outcome
//! draw, a traffic-light state machine, LED fading, a stepper run time,
//! NMEA sentence splitting and an accelerometer-driven servo follower.
//! Everything that touches pins, buses or the clock lives in the
//! application crate; this crate holds the decisions.

pub mod time;
pub mod traffic;
pub mod servo;
pub mod nmea;
pub mod dice;
pub mod led;
pub mod stepper;
