use bitbot_bsp::wheels::duty_pair;
use bitbot_bsp::wheels::wheel_duties;
use bitbot_bsp::wheels::DutyPair;
use bitbot_bsp::wheels::MAX_DUTY;

#[test]
fn full_forward_is_full_duty() {
    assert_eq!(duty_pair(100), DutyPair { forward: MAX_DUTY, reverse: 0 });
}

#[test]
fn full_reverse_is_full_duty_on_reverse_channel() {
    assert_eq!(duty_pair(-100), DutyPair { forward: 0, reverse: MAX_DUTY });
}

#[test]
fn zero_speed_drives_neither_channel() {
    assert_eq!(duty_pair(0), DutyPair { forward: 0, reverse: 0 });
}

#[test]
fn duty_scales_linearly() {
    // 50 percent of 0x7FFF, truncating: 16383.
    assert_eq!(duty_pair(50), DutyPair { forward: 16_383, reverse: 0 });
    assert_eq!(duty_pair(-25), DutyPair { forward: 0, reverse: 8_191 });
}

#[test]
fn over_range_speed_clamps() {
    assert_eq!(duty_pair(127), DutyPair { forward: MAX_DUTY, reverse: 0 });
    assert_eq!(duty_pair(-128), DutyPair { forward: 0, reverse: MAX_DUTY });
}

#[test]
fn at_most_one_channel_is_driven() {
    for s in -128..=127i16 {
        let p = duty_pair(s as i8);
        assert!(p.forward == 0 || p.reverse == 0);
        assert!(p.forward <= MAX_DUTY && p.reverse <= MAX_DUTY);
    }
}

#[test]
fn both_sides_translate_independently() {
    let (l, r) = wheel_duties(100, -50);
    assert_eq!(l, DutyPair { forward: MAX_DUTY, reverse: 0 });
    assert_eq!(r, DutyPair { forward: 0, reverse: 16_383 });
}
