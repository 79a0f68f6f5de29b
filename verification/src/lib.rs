//! Ranging and threshold control for an HC-SR04-style ultrasonic sensor.
//!
//! The sensor is driven through two digital lines: a trigger output that
//! fires one ultrasonic burst, and an echo input whose high-pulse duration
//! encodes the round-trip time of flight. This crate holds the decision
//! logic of that protocol — trigger timing, bounded edge waits, failure
//! classification, and the conversion from pulse width to distance — and
//! the memoryless control loop that maps each fresh distance onto an
//! indicator light, an alarm tone and a pair of positional actuators.
//!
//! The hardware itself (GPIO access, timers, the display bus) lives
//! outside this crate; every function here is a pure step from plain
//! values to plain values, so the whole protocol is verified.

pub mod control;
pub mod display;
pub mod distance;
pub mod ranging;
