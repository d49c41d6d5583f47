//! The per-tick control computation: distance banding, light steering, and
//! the dead-zone-aware speed mapper that turns an ideal speed into an
//! actuator-safe one.

use vstd::math::abs;
use vstd::math::min;
use vstd::prelude::*;

use crate::light_sensors::LightValues;
use crate::ultrasonic::Micrometers;

verus! {

/// The cadence of the control loop, in milliseconds per tick.
pub const TICK_MILLIS: u64 = 100;

/// Ideal speeds whose magnitude is at most this map to zero drive.
pub const DEAD_ZONE: i8 = 2;

/// The smallest nonzero drive the motors respond to reliably, in percent.
pub const MIN_DRIVE: i16 = 20;

/// The largest drive magnitude, in percent.
pub const MAX_DRIVE: i16 = 100;

/// Distances at or under this many centimeters force a stop.
pub const STOP_DISTANCE_CM: u32 = 25;

/// Between the stop distance and this many centimeters the base speed ramps
/// up linearly.
pub const RAMP_END_CM: u32 = 50;

/// The base speed at the near end of the ramp, in percent.
pub const RAMP_BASE_SPEED: i16 = 50;

/// The base speed past the far end of the ramp, in percent.
pub const CRUISE_SPEED: i16 = 75;

/// The base speed when no echo came back at all, in percent.
///
/// No echo is read as a clear path, so this is the fastest setting. A dead
/// or disconnected sensor produces the same reading, so this policy drives
/// at full speed precisely when the sensor says nothing; it is kept for
/// behavioral parity and is a candidate for revision.
pub const CLEAR_PATH_SPEED: i16 = 100;

/// The divisor that scales the raw light differential down to a steering
/// correction.
pub const LIGHT_DIVISOR: i16 = 30;

/// The largest steering correction, in percent.
pub const MAX_STEERING: i16 = 25;

/// Truncating integer division, as the target's signed division behaves:
/// the quotient is rounded toward zero.
pub open spec fn spec_div_trunc(a: int, b: int) -> int {
    if a >= 0 {
        a / b
    } else {
        -((-a) / b)
    }
}

/// The actuator-safe speed for an ideal speed `x`: zero inside the dead
/// zone, otherwise the magnitude is clamped to 100 and remapped linearly
/// onto 20 through 100, keeping the sign.
///
/// The function always expects an ideal speed, not one of its own results:
/// feeding a result back in remaps it again and in general changes it.
pub open spec fn spec_map_speed(x: int) -> int {
    let m = min(abs(x) as int, MAX_DRIVE as int);
    if m <= DEAD_ZONE as int {
        0
    } else {
        let s = MIN_DRIVE + ((MAX_DRIVE - MIN_DRIVE) * m) / (MAX_DRIVE as int);
        if x < 0 {
            -s
        } else {
            s
        }
    }
}

/// Maps an ideal speed onto the range the motors actually respond to.
///
/// Inputs within the dead zone give exactly zero; any other input gives a
/// speed of the same sign whose magnitude lies between the minimum
/// effective drive and full drive. The function is total: every `i8` input,
/// including the most negative one, has a defined result.
pub fn map_speed(ideal: i8) -> (r: i8)
    ensures
        r as int == spec_map_speed(ideal as int),
        abs(ideal as int) <= DEAD_ZONE as int ==> r == 0,
        abs(ideal as int) > DEAD_ZONE as int ==> MIN_DRIVE as int <= abs(r as int) <= MAX_DRIVE
            as int,
        abs(ideal as int) > DEAD_ZONE as int ==> ((ideal < 0) <==> (r < 0)),
{
    if -DEAD_ZONE <= ideal && ideal <= DEAD_ZONE {
        return 0;
    }
    let wide: i16 = ideal as i16;
    let magnitude: i16 = if wide < 0 {
        -wide
    } else {
        wide
    };
    let magnitude: i16 = if magnitude > MAX_DRIVE {
        MAX_DRIVE
    } else {
        magnitude
    };
    let mag: u16 = magnitude as u16;
    proof {
        vstd::arithmetic::div_mod::lemma_div_is_ordered(
            (MAX_DRIVE - MIN_DRIVE) * (mag as int),
            (MAX_DRIVE - MIN_DRIVE) * (MAX_DRIVE as int),
            MAX_DRIVE as int,
        );
        vstd::arithmetic::div_mod::lemma_div_pos_is_pos(
            (MAX_DRIVE - MIN_DRIVE) * (mag as int),
            MAX_DRIVE as int,
        );
    }
    let scaled: u16 = (MIN_DRIVE as u16) + (((MAX_DRIVE - MIN_DRIVE) as u16) * mag) / (
    MAX_DRIVE as u16);
    let speed: i8 = scaled as i8;
    if wide < 0 {
        -speed
    } else {
        speed
    }
}

/// The steering correction for a pair of light readings: the raw
/// differential (right minus left), scaled down and clamped from above.
pub open spec fn spec_steering(light: LightValues) -> int {
    min(spec_div_trunc(light.right - light.left, LIGHT_DIVISOR as int), MAX_STEERING as int)
}

/// Computes the steering correction from the light readings.
///
/// A positive correction steers toward the side with less light. Only the
/// positive side is clamped; a strongly negative differential passes
/// through scaled but uncapped.
pub fn steering(light: LightValues) -> (r: i16)
    ensures
        r as int == spec_steering(light),
        r <= MAX_STEERING,
{
    let right: i32 = light.right as i32;
    let left: i32 = light.left as i32;
    let diff: i32 = right - left;
    let scaled: i32 = if diff < 0 {
        let mag: u32 = (-diff) as u32;
        -((mag / (LIGHT_DIVISOR as u32)) as i32)
    } else {
        ((diff as u32) / (LIGHT_DIVISOR as u32)) as i32
    };
    if scaled > MAX_STEERING as i32 {
        MAX_STEERING
    } else {
        scaled as i16
    }
}

/// The base forward speed for one range measurement: stop at or under the
/// stop distance, ramp linearly up to the cruise speed across the ramp
/// band, cruise beyond it, full speed when nothing echoed, stop on a sensor
/// fault.
pub open spec fn spec_base_speed(measurement: Result<Option<Micrometers>, ()>) -> int {
    match measurement {
        Ok(Some(d)) => {
            let cm = (d.0 as int) / 10_000;
            if cm <= STOP_DISTANCE_CM as int {
                0
            } else if cm <= RAMP_END_CM as int {
                min(RAMP_BASE_SPEED + (cm - STOP_DISTANCE_CM as int), CRUISE_SPEED as int)
            } else {
                CRUISE_SPEED as int
            }
        },
        Ok(None) => CLEAR_PATH_SPEED as int,
        Err(()) => 0,
    }
}

/// Maps the outcome of a range measurement to a base forward speed.
///
/// A measured distance is banded: too close stops, the middle band ramps
/// from the ramp base up to the cruise speed, farther out cruises. No echo
/// is treated as a clear path and drives at full speed; a sensor fault
/// stops, failing safe.
pub fn base_speed(measurement: Result<Option<Micrometers>, ()>) -> (r: i16)
    ensures
        r as int == spec_base_speed(measurement),
        0 <= r <= CLEAR_PATH_SPEED,
{
    match measurement {
        Ok(Some(d)) => {
            let cm: u32 = d.as_centimeters();
            if cm <= STOP_DISTANCE_CM {
                0
            } else if cm <= RAMP_END_CM {
                let delta: u32 = cm - STOP_DISTANCE_CM;
                let s: i16 = RAMP_BASE_SPEED + (delta as i16);
                if s > CRUISE_SPEED {
                    CRUISE_SPEED
                } else {
                    s
                }
            } else {
                CRUISE_SPEED
            }
        },
        Ok(None) => CLEAR_PATH_SPEED,
        Err(()) => 0,
    }
}

/// The signed percentage speeds commanded to the two wheels, each in the
/// closed range -100 to 100.
#[derive(Copy, Clone, PartialEq, Eq, Structural, Debug)]
pub struct WheelCommand {
    /// The speed for the left wheel.
    pub left: i8,
    /// The speed for the right wheel.
    pub right: i8,
}

/// Computes one tick's wheel command from the light pair and the range
/// measurement.
///
/// The base speed from the distance banding is corrected by the steering
/// differential, added on the left and subtracted on the right, and each
/// side then goes through the speed mapper on its own. The preconditions
/// exclude only light pairs so lopsided that a per-side target would leave
/// the signed 8-bit range the mapper accepts; within them the function is
/// exact.
pub fn control_step(light: LightValues, measurement: Result<Option<Micrometers>, ()>) -> (r:
    WheelCommand)
    requires
        spec_base_speed(measurement) + spec_steering(light) >= -128,
        spec_base_speed(measurement) - spec_steering(light) <= 127,
    ensures
        r.left as int == spec_map_speed(spec_base_speed(measurement) + spec_steering(light)),
        r.right as int == spec_map_speed(spec_base_speed(measurement) - spec_steering(light)),
        -(MAX_DRIVE as int) <= r.left as int <= MAX_DRIVE as int,
        -(MAX_DRIVE as int) <= r.right as int <= MAX_DRIVE as int,
{
    let speed: i16 = base_speed(measurement);
    let diff: i16 = steering(light);
    let left_target: i16 = speed + diff;
    let right_target: i16 = speed - diff;
    let left: i8 = map_speed(left_target as i8);
    let right: i8 = map_speed(right_target as i8);
    WheelCommand { left, right }
}

/// The magnitude of the mapped speed never decreases when the magnitude of
/// the ideal speed grows.
pub proof fn lemma_map_speed_monotone(a: int, b: int)
    requires
        abs(a) <= abs(b),
    ensures
        abs(spec_map_speed(a)) <= abs(spec_map_speed(b)),
{
    let ma = min(abs(a) as int, MAX_DRIVE as int);
    let mb = min(abs(b) as int, MAX_DRIVE as int);
    if ma > DEAD_ZONE as int {
        vstd::arithmetic::div_mod::lemma_div_is_ordered(
            (MAX_DRIVE - MIN_DRIVE) * ma,
            (MAX_DRIVE - MIN_DRIVE) * mb,
            MAX_DRIVE as int,
        );
        vstd::arithmetic::div_mod::lemma_div_pos_is_pos(
            (MAX_DRIVE - MIN_DRIVE) * ma,
            MAX_DRIVE as int,
        );
    }
}

} // verus!
