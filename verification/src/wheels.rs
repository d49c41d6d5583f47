//! The wheel actuator math: a signed per-side speed becomes a pair of
//! pulse-width-modulation duty values, one channel per direction.

use vstd::math::abs;
use vstd::math::min;
use vstd::prelude::*;

verus! {

/// The largest speed magnitude a wheel accepts, in percent.
pub const MAX_SPEED: i8 = 100;

/// The duty value that corresponds to full drive on one channel.
pub const MAX_DUTY: u16 = 0x7FFF;

/// The duty values for one wheel's two channels.
///
/// At most one channel of the pair is ever driven: the wheel never pulls in
/// both directions at once.
#[derive(Copy, Clone, PartialEq, Eq, Structural, Debug)]
pub struct DutyPair {
    /// The duty on the forward channel.
    pub forward: u16,
    /// The duty on the reverse channel.
    pub reverse: u16,
}

/// The duty magnitude for a signed speed: its magnitude, clamped to the
/// largest speed, scaled linearly onto the full duty span.
pub open spec fn spec_duty(speed: int) -> int {
    (min(abs(speed) as int, MAX_SPEED as int) * (MAX_DUTY as int)) / (MAX_SPEED as int)
}

/// The duty on the forward channel for a signed speed.
pub open spec fn spec_duty_forward(speed: int) -> int {
    if speed >= 0 {
        spec_duty(speed)
    } else {
        0
    }
}

/// The duty on the reverse channel for a signed speed.
pub open spec fn spec_duty_reverse(speed: int) -> int {
    if speed < 0 {
        spec_duty(speed)
    } else {
        0
    }
}

/// Translates one wheel's signed speed into its two channel duties.
///
/// The sign picks the driven channel, the magnitude scales onto the duty
/// span, and the unused channel is always written zero.
pub fn duty_pair(speed: i8) -> (r: DutyPair)
    ensures
        r.forward as int == spec_duty_forward(speed as int),
        r.reverse as int == spec_duty_reverse(speed as int),
        r.forward == 0 || r.reverse == 0,
        r.forward <= MAX_DUTY,
        r.reverse <= MAX_DUTY,
{
    let wide: i16 = speed as i16;
    let magnitude: i16 = if wide < 0 {
        -wide
    } else {
        wide
    };
    let magnitude: i16 = if magnitude > MAX_SPEED as i16 {
        MAX_SPEED as i16
    } else {
        magnitude
    };
    proof {
        vstd::arithmetic::div_mod::lemma_div_is_ordered(
            (magnitude as int) * (MAX_DUTY as int),
            (MAX_SPEED as int) * (MAX_DUTY as int),
            MAX_SPEED as int,
        );
        vstd::arithmetic::div_mod::lemma_div_pos_is_pos(
            (magnitude as int) * (MAX_DUTY as int),
            MAX_SPEED as int,
        );
        vstd::arithmetic::div_mod::lemma_div_multiples_vanish(MAX_DUTY as int, MAX_SPEED as int);
        assert((magnitude as int) * (MAX_DUTY as int) <= (MAX_SPEED as int) * (MAX_DUTY as int))
            by (nonlinear_arith)
            requires
                0 <= magnitude as int <= MAX_SPEED as int,
        ;
        assert((MAX_SPEED as int) * (MAX_DUTY as int) == (MAX_DUTY as int) * (MAX_SPEED as int));
    }
    let duty32: u32 = ((magnitude as u32) * (MAX_DUTY as u32)) / (MAX_SPEED as u32);
    let duty: u16 = duty32 as u16;
    if wide < 0 {
        DutyPair { forward: 0, reverse: duty }
    } else {
        DutyPair { forward: duty, reverse: 0 }
    }
}

/// Translates a left and right wheel speed into the four channel duties,
/// one pair per side.
pub fn wheel_duties(left: i8, right: i8) -> (r: (DutyPair, DutyPair))
    ensures
        r.0.forward as int == spec_duty_forward(left as int),
        r.0.reverse as int == spec_duty_reverse(left as int),
        r.1.forward as int == spec_duty_forward(right as int),
        r.1.reverse as int == spec_duty_reverse(right as int),
        r.0.forward == 0 || r.0.reverse == 0,
        r.1.forward == 0 || r.1.reverse == 0,
{
    (duty_pair(left), duty_pair(right))
}

} // verus!
