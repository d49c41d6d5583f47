//! Core logic of a small two-wheeled robot that follows light while avoiding
//! obstacles: a scaled distance unit, the two-stage pulse-timing state machine
//! behind an ultrasonic range measurement, the dead-zone-aware speed mapper,
//! the per-tick control computation, and the wheel duty-cycle math.
//!
//! Everything that touches hardware (pins, timers, the analog-to-digital
//! converter, pulse-width modulation peripherals) stays outside this crate;
//! the functions here take plain sensor values and events and return plain
//! commands, each with a contract.

pub mod control;
pub mod light_sensors;
pub mod ultrasonic;
pub mod wheels;
