//! The value pair delivered by the two ambient-light sensors.
//!
//! Sampling the analog channels is hardware work and stays outside this
//! crate; the control logic only ever sees this plain pair.

use vstd::prelude::*;

verus! {

/// Raw intensity codes read from the right and left light sensors.
///
/// The codes are not normalized; only their difference is used downstream,
/// to steer away from the brighter side.
#[derive(Copy, Clone, PartialEq, Eq, Structural, Debug)]
pub struct LightValues {
    /// The sample from the right-hand sensor.
    pub right: i16,
    /// The sample from the left-hand sensor.
    pub left: i16,
}

} // verus!
