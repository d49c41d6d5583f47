use bitbot_bsp::ultrasonic::echo_timeout;
use bitbot_bsp::ultrasonic::evaluate_echo;
use bitbot_bsp::ultrasonic::pulse_levels;
use bitbot_bsp::ultrasonic::pulse_outcome;
use bitbot_bsp::ultrasonic::pulse_step;
use bitbot_bsp::ultrasonic::Duration;
use bitbot_bsp::ultrasonic::Level;
use bitbot_bsp::ultrasonic::Pulse;
use bitbot_bsp::ultrasonic::PulseEvent;
use bitbot_bsp::ultrasonic::PulseResult;
use bitbot_bsp::ultrasonic::PulseState;

#[test]
fn measured_pulse_width_is_edge_distance() {
    let s = PulseState::WaitingForStart;
    let s = pulse_step(s, PulseEvent::EdgeSeen { at: 4_000 });
    assert_eq!(s, PulseState::TimingPulse { start: 4_000 });
    let s = pulse_step(s, PulseEvent::EdgeSeen { at: 5_250 });
    assert_eq!(s, PulseState::Done { width: 1_250 });
    assert_eq!(
        pulse_outcome(s),
        Some(PulseResult::Pulse(Duration { micros: 1_250 }))
    );
}

#[test]
fn no_starting_edge_times_out_at_start() {
    let s = pulse_step(PulseState::WaitingForStart, PulseEvent::TimerExpired);
    assert_eq!(s, PulseState::TimedOutAtStart);
    assert_eq!(pulse_outcome(s), Some(PulseResult::TimedOutAtStart));
}

#[test]
fn unfinished_pulse_times_out_mid_pulse() {
    let s = pulse_step(PulseState::WaitingForStart, PulseEvent::EdgeSeen { at: 9 });
    let s = pulse_step(s, PulseEvent::TimerExpired);
    assert_eq!(s, PulseState::TimedOutMidPulse);
    assert_eq!(pulse_outcome(s), Some(PulseResult::TimedOutMidPulse));
}

#[test]
fn running_states_report_no_outcome() {
    assert_eq!(pulse_outcome(PulseState::WaitingForStart), None);
    assert_eq!(pulse_outcome(PulseState::TimingPulse { start: 3 }), None);
}

#[test]
fn high_pulse_drives_high_then_low() {
    assert_eq!(pulse_levels(Pulse::High), (Level::High, Level::Low));
    assert_eq!(pulse_levels(Pulse::Low), (Level::Low, Level::High));
}

#[test]
fn echo_width_becomes_one_way_distance() {
    let r = evaluate_echo(PulseResult::Pulse(Duration { micros: 1_000 }));
    // 343 m/s for 1000 us is 343 mm round trip, so 171.5 mm one way.
    assert_eq!(r, Ok(Some(bitbot_bsp::ultrasonic::Micrometers(171_500))));
    assert_eq!(r.unwrap().unwrap().as_millimeters(), 171);
}

#[test]
fn no_echo_is_no_object() {
    assert_eq!(evaluate_echo(PulseResult::TimedOutAtStart), Ok(None));
}

#[test]
fn latched_echo_is_a_fault() {
    assert_eq!(evaluate_echo(PulseResult::TimedOutMidPulse), Err(()));
}

#[test]
fn echo_timeout_is_round_trip_flight_time() {
    // 4 m there and back at 343 m/s: 8_000_000 um / 343 = 23_323 us.
    assert_eq!(echo_timeout().as_micros(), 23_323);
}
