//! Control core of an automated food/liquid-processing appliance.
//!
//! The appliance runs a fixed fill / lock / separate / soak / rinse /
//! blend / drain cycle, driven by two input signals (start, stop) and a
//! free-running millisecond clock.  This crate holds the verified core:
//! the wrapping timestamp arithmetic ([`millis`]), the dwell-time
//! configuration ([`duration`]), the pure guarded-transition function of
//! the cycle state machine ([`state`]), and the stateful controller that
//! latches the stop request and drives the actuator outputs ([`sketch`]).
//!
//! Hardware access (the timer interrupt that feeds the clock, the pin
//! registers behind the inputs and actuators) stays outside: callers hand
//! the controller plain timestamps and signal levels and apply the
//! actuator levels it computes.

pub mod duration;
pub mod millis;
pub mod sketch;
pub mod state;
