use bitbot_bsp::ultrasonic::Duration;
use bitbot_bsp::ultrasonic::Micrometers;
use bitbot_bsp::ultrasonic::SPEED_OF_SOUND_MPS;

#[test]
fn millimeter_round_trip() {
    assert_eq!(Micrometers::from_millimeters(0).as_millimeters(), 0);
    assert_eq!(Micrometers::from_millimeters(1).as_millimeters(), 1);
    assert_eq!(Micrometers::from_millimeters(123_456).as_millimeters(), 123_456);
    assert_eq!(Micrometers::from_millimeters(4_294_967).as_millimeters(), 4_294_967);
}

#[test]
fn centimeter_round_trip() {
    assert_eq!(Micrometers::from_centimeters(25).as_centimeters(), 25);
    assert_eq!(Micrometers::from_centimeters(429_496).as_centimeters(), 429_496);
}

#[test]
fn decimeter_round_trip() {
    assert_eq!(Micrometers::from_decimeters(7).as_decimeters(), 7);
    assert_eq!(Micrometers::from_decimeters(42_949).as_decimeters(), 42_949);
}

#[test]
fn meter_round_trip() {
    assert_eq!(Micrometers::from_meters(4).as_meters(), 4);
    assert_eq!(Micrometers::from_meters(4_294).as_meters(), 4_294);
}

#[test]
fn scale_magnitudes() {
    assert_eq!(Micrometers::from_millimeters(3).0, 3_000);
    assert_eq!(Micrometers::from_centimeters(3).0, 30_000);
    assert_eq!(Micrometers::from_decimeters(3).0, 300_000);
    assert_eq!(Micrometers::from_meters(3).0, 3_000_000);
}

#[test]
fn coarser_view_truncates() {
    let d = Micrometers::from_millimeters(1_234);
    assert_eq!(d.as_centimeters(), 123);
    assert_eq!(d.as_decimeters(), 12);
    assert_eq!(d.as_meters(), 1);
}

#[test]
fn duration_round_trip_exact() {
    let d = Duration::from_micros(1_000);
    let dist = Micrometers::from_duration(d, SPEED_OF_SOUND_MPS);
    assert_eq!(dist.0, 343_000);
    assert_eq!(dist.into_duration(SPEED_OF_SOUND_MPS).as_micros(), 1_000);
}

#[test]
fn duration_round_trip_odd_width() {
    let d = Duration::from_micros(23_323);
    let dist = Micrometers::from_duration(d, SPEED_OF_SOUND_MPS);
    assert_eq!(dist.into_duration(SPEED_OF_SOUND_MPS).as_micros(), 23_323);
}

#[test]
fn scalar_multiply_and_divide() {
    let d = Micrometers::from_centimeters(10);
    assert_eq!(d.mul_scalar(3).0, 300_000);
    assert_eq!(d.div_scalar(2).0, 50_000);
    assert_eq!(Micrometers(7).div_scalar(2).0, 3);
}
