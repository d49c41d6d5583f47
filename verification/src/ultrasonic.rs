//! The ultrasonic range measurement core: a distance quantity stored at
//! micrometer resolution, the two-stage pulse-timing state machine, and the
//! conversion from an echo pulse width to a one-way distance.

use vstd::prelude::*;

verus! {

/// The speed of sound in air, in meters per second.
pub const SPEED_OF_SOUND_MPS: u32 = 343;

/// The farthest range the sensor is trusted to report, in meters.
pub const MAX_RANGE_METERS: u32 = 4;

/// How long the signal line is held low before a trigger, in microseconds.
pub const TRIGGER_SETTLE_MICROS: u64 = 2;

/// The width of the trigger pulse, in microseconds.
pub const TRIGGER_PULSE_MICROS: u64 = 10;

/// A span of time with microsecond resolution.
#[derive(Copy, Clone, PartialEq, Eq, Structural, Debug)]
pub struct Duration {
    /// The length of the span in microseconds.
    pub micros: u64,
}

impl Duration {
    /// Builds a span of the given number of microseconds.
    pub fn from_micros(micros: u64) -> (r: Duration)
        ensures
            r.micros == micros,
    {
        Duration { micros }
    }

    /// The length of the span in whole microseconds.
    pub fn as_micros(self) -> (r: u64)
        ensures
            r == self.micros,
    {
        self.micros
    }
}

/// A non-negative distance with micrometer resolution.
///
/// One unit is one micrometer, so a 32-bit magnitude reaches about 4294
/// meters. Inputs that would overflow that range are rejected at the
/// contract level: every constructor and scaling operation requires its
/// result to be representable, rather than saturating silently.
#[derive(Copy, Clone, PartialEq, Eq, Structural, Debug)]
pub struct Micrometers(pub u32);

/// The micrometer magnitude of `d` units of a scale worth `unit_micros`
/// micrometers each.
pub open spec fn spec_to_micro(d: int, unit_micros: int) -> int {
    d * unit_micros
}

/// The number of whole units of a scale worth `unit_micros` micrometers each
/// in a magnitude of `m` micrometers.
pub open spec fn spec_from_micro(m: int, unit_micros: int) -> int {
    m / unit_micros
}

/// The distance covered in `micros` microseconds at `speed_mps` meters per
/// second, in micrometers.
pub open spec fn spec_distance_of_flight(micros: int, speed_mps: int) -> int {
    speed_mps * micros
}

/// The time needed to cover `micrometers` at `speed_mps` meters per second,
/// in whole microseconds.
pub open spec fn spec_flight_time(micrometers: int, speed_mps: int) -> int {
    micrometers / speed_mps
}

impl Micrometers {
    /// The distance in whole millimeters.
    pub fn as_millimeters(self) -> (r: u32)
        ensures
            r == spec_from_micro(self.0 as int, 1_000),
    {
        self.0 / 1_000
    }

    /// The distance in whole centimeters.
    pub fn as_centimeters(self) -> (r: u32)
        ensures
            r == spec_from_micro(self.0 as int, 10_000),
    {
        self.0 / 10_000
    }

    /// The distance in whole decimeters.
    pub fn as_decimeters(self) -> (r: u32)
        ensures
            r == spec_from_micro(self.0 as int, 100_000),
    {
        self.0 / 100_000
    }

    /// The distance in whole meters.
    pub fn as_meters(self) -> (r: u32)
        ensures
            r == spec_from_micro(self.0 as int, 1_000_000),
    {
        self.0 / 1_000_000
    }

    /// A distance of `d` millimeters.
    pub fn from_millimeters(d: u32) -> (r: Self)
        requires
            d * 1_000 <= u32::MAX,
        ensures
            r.0 == spec_to_micro(d as int, 1_000),
    {
        Micrometers(d * 1_000)
    }

    /// A distance of `d` centimeters.
    pub fn from_centimeters(d: u32) -> (r: Self)
        requires
            d * 10_000 <= u32::MAX,
        ensures
            r.0 == spec_to_micro(d as int, 10_000),
    {
        Micrometers(d * 10_000)
    }

    /// A distance of `d` decimeters.
    pub fn from_decimeters(d: u32) -> (r: Self)
        requires
            d * 100_000 <= u32::MAX,
        ensures
            r.0 == spec_to_micro(d as int, 100_000),
    {
        Micrometers(d * 100_000)
    }

    /// A distance of `d` meters.
    pub fn from_meters(d: u32) -> (r: Self)
        requires
            d * 1_000_000 <= u32::MAX,
        ensures
            r.0 == spec_to_micro(d as int, 1_000_000),
    {
        Micrometers(d * 1_000_000)
    }

    /// The distance covered in `d` at `speed_mps` meters per second.
    ///
    /// A meter per second is a micrometer per microsecond, so the magnitude
    /// is the plain product of speed and elapsed microseconds.
    pub fn from_duration(d: Duration, speed_mps: u32) -> (r: Self)
        requires
            d.micros <= u32::MAX,
            speed_mps * d.micros <= u32::MAX,
        ensures
            r.0 == spec_distance_of_flight(d.micros as int, speed_mps as int),
    {
        Micrometers(speed_mps * (d.micros as u32))
    }

    /// The time needed to cover this distance at `speed_mps` meters per
    /// second.
    pub fn into_duration(self, speed_mps: u32) -> (r: Duration)
        requires
            speed_mps >= 1,
        ensures
            r.micros == spec_flight_time(self.0 as int, speed_mps as int),
    {
        Duration { micros: (self.0 as u64) / (speed_mps as u64) }
    }

    /// This distance scaled up by a dimensionless factor.
    pub fn mul_scalar(self, rhs: u32) -> (r: Self)
        requires
            self.0 * rhs <= u32::MAX,
        ensures
            r.0 == self.0 * rhs,
    {
        Micrometers(self.0 * rhs)
    }

    /// This distance scaled down by a dimensionless divisor, truncating.
    pub fn div_scalar(self, rhs: u32) -> (r: Self)
        requires
            rhs >= 1,
        ensures
            r.0 == self.0 as int / rhs as int,
    {
        Micrometers(self.0 / rhs)
    }
}

/// Polarity of a pulse on the signal line: a `High` pulse starts with a
/// rising edge and ends with a falling edge, a `Low` pulse the other way
/// round.
#[derive(Copy, Clone, PartialEq, Eq, Structural, Debug)]
pub enum Pulse {
    /// The line dips low and returns high.
    Low,
    /// The line rises high and returns low.
    High,
}

/// A digital level on the signal line.
#[derive(Copy, Clone, PartialEq, Eq, Structural, Debug)]
pub enum Level {
    /// The line is driven low.
    Low,
    /// The line is driven high.
    High,
}

/// The levels a pulse of the given polarity drives the line to: first the
/// pulse's own level, held for the pulse width, then the opposite level.
pub fn pulse_levels(pulse: Pulse) -> (r: (Level, Level))
    ensures
        pulse is High ==> r == (Level::High, Level::Low),
        pulse is Low ==> r == (Level::Low, Level::High),
{
    match pulse {
        Pulse::High => (Level::High, Level::Low),
        Pulse::Low => (Level::Low, Level::High),
    }
}

/// The outcome of one attempt to measure a pulse on the signal line.
#[derive(Copy, Clone, PartialEq, Eq, Structural, Debug)]
pub enum PulseResult {
    /// The pulse was seen whole; the payload is its measured width.
    Pulse(Duration),
    /// The starting edge never arrived before the timeout: no pulse at all.
    TimedOutAtStart,
    /// The pulse began but its closing edge never arrived before the second
    /// timeout: the line stayed latched.
    TimedOutMidPulse,
}

/// One state of the two-stage pulse measurement.
///
/// The measurement races "wait for the starting edge" against a timer, and
/// on success races "wait for the closing edge" against a fresh timer of the
/// same length. `Done` and the two timeout states are terminal.
#[derive(Copy, Clone, PartialEq, Eq, Structural, Debug)]
pub enum PulseState {
    /// No edge seen yet; the first timer is running.
    WaitingForStart,
    /// The starting edge arrived at `start` (microseconds on a monotonic
    /// clock); the second timer is running.
    TimingPulse {
        /// When the starting edge was seen.
        start: u64,
    },
    /// Both edges arrived; `width` is the time between them.
    Done {
        /// The measured pulse width in microseconds.
        width: u64,
    },
    /// The first timer won: no starting edge.
    TimedOutAtStart,
    /// The second timer won: no closing edge.
    TimedOutMidPulse,
}

/// What one race between an edge wait and its timer reported.
#[derive(Copy, Clone, PartialEq, Eq, Structural, Debug)]
pub enum PulseEvent {
    /// The awaited edge arrived at `at` microseconds on a monotonic clock.
    EdgeSeen {
        /// When the edge was seen.
        at: u64,
    },
    /// The timer expired first; the losing edge wait is cancelled with no
    /// effect.
    TimerExpired,
}

/// The transition relation of the pulse measurement. Terminal states absorb
/// every further event.
pub open spec fn spec_pulse_step(state: PulseState, event: PulseEvent) -> PulseState {
    match (state, event) {
        (PulseState::WaitingForStart, PulseEvent::EdgeSeen { at }) => PulseState::TimingPulse {
            start: at,
        },
        (PulseState::WaitingForStart, PulseEvent::TimerExpired) => PulseState::TimedOutAtStart,
        (PulseState::TimingPulse { start }, PulseEvent::EdgeSeen { at }) => PulseState::Done {
            width: (at - start) as u64,
        },
        (PulseState::TimingPulse { .. }, PulseEvent::TimerExpired) => PulseState::TimedOutMidPulse,
        (s, _) => s,
    }
}

/// Advances the pulse measurement by one event.
///
/// The caller reports which side of the current race finished first; edges
/// carry timestamps of a monotonic clock, so an edge seen while timing the
/// pulse is never earlier than the edge that started it.
pub fn pulse_step(state: PulseState, event: PulseEvent) -> (r: PulseState)
    requires
        state matches PulseState::TimingPulse { start } ==> (event matches PulseEvent::EdgeSeen {
            at,
        } ==> start <= at),
    ensures
        r == spec_pulse_step(state, event),
{
    match (state, event) {
        (PulseState::WaitingForStart, PulseEvent::EdgeSeen { at }) => PulseState::TimingPulse {
            start: at,
        },
        (PulseState::WaitingForStart, PulseEvent::TimerExpired) => PulseState::TimedOutAtStart,
        (PulseState::TimingPulse { start }, PulseEvent::EdgeSeen { at }) => PulseState::Done {
            width: at - start,
        },
        (PulseState::TimingPulse { .. }, PulseEvent::TimerExpired) => PulseState::TimedOutMidPulse,
        (s, _) => s,
    }
}

/// The outcome a finished measurement reports, or `None` while it is still
/// running.
pub open spec fn spec_pulse_outcome(state: PulseState) -> Option<PulseResult> {
    match state {
        PulseState::Done { width } => Some(PulseResult::Pulse(Duration { micros: width })),
        PulseState::TimedOutAtStart => Some(PulseResult::TimedOutAtStart),
        PulseState::TimedOutMidPulse => Some(PulseResult::TimedOutMidPulse),
        _ => None,
    }
}

/// Reads the outcome off a pulse measurement state.
pub fn pulse_outcome(state: PulseState) -> (r: Option<PulseResult>)
    ensures
        r == spec_pulse_outcome(state),
{
    match state {
        PulseState::Done { width } => Some(PulseResult::Pulse(Duration { micros: width })),
        PulseState::TimedOutAtStart => Some(PulseResult::TimedOutAtStart),
        PulseState::TimedOutMidPulse => Some(PulseResult::TimedOutMidPulse),
        _ => None,
    }
}

/// The one-way distance, in micrometers, that an echo pulse of
/// `echo_micros` microseconds reports: the round trip at the speed of sound,
/// halved.
pub open spec fn spec_one_way_distance(echo_micros: int) -> int {
    spec_distance_of_flight(echo_micros, SPEED_OF_SOUND_MPS as int) / 2
}

/// Turns the outcome of the echo pulse measurement into a range reading.
///
/// A measured width is the sound's round trip to the object and back, so the
/// distance is halved. A measurement that saw no starting edge means no echo
/// arrived: no object in range, reported as `Ok(None)`. A pulse that began
/// but never ended is a signal-integrity fault, reported as `Err`.
pub fn evaluate_echo(pulse: PulseResult) -> (r: Result<Option<Micrometers>, ()>)
    requires
        pulse matches PulseResult::Pulse(d) ==> d.micros <= u32::MAX && SPEED_OF_SOUND_MPS
            * d.micros <= u32::MAX,
    ensures
        pulse matches PulseResult::Pulse(d) ==> (r matches Ok(m) && m matches Some(dist)
            && dist.0 == spec_one_way_distance(d.micros as int)),
        pulse is TimedOutAtStart ==> (r matches Ok(m) && m is None),
        pulse is TimedOutMidPulse ==> r is Err,
{
    match pulse {
        PulseResult::Pulse(d) => {
            let round_trip = Micrometers::from_duration(d, SPEED_OF_SOUND_MPS);
            Ok(Some(round_trip.div_scalar(2)))
        },
        PulseResult::TimedOutAtStart => Ok(None),
        PulseResult::TimedOutMidPulse => Err(()),
    }
}

/// The number of microseconds sound needs for a round trip over the longest
/// trusted range.
pub open spec fn spec_echo_timeout_micros() -> int {
    spec_flight_time(
        spec_to_micro(MAX_RANGE_METERS as int, 1_000_000) * 2,
        SPEED_OF_SOUND_MPS as int,
    )
}

/// How long each stage of the echo measurement waits before giving up: the
/// round-trip flight time of the longest trusted range at the speed of
/// sound.
pub fn echo_timeout() -> (r: Duration)
    ensures
        r.micros == spec_echo_timeout_micros(),
{
    let max_range = Micrometers::from_meters(MAX_RANGE_METERS);
    max_range.mul_scalar(2).into_duration(SPEED_OF_SOUND_MPS)
}

/// The three ways a measurement can run, stated over the transition
/// relation: a starting edge at `t1` followed by a closing edge at `t2`
/// measures a pulse of width `t2 - t1`; a timer win in the first stage is
/// the no-pulse timeout; a timer win in the second stage is the mid-pulse
/// timeout.
pub proof fn lemma_pulse_measurement(t1: u64, t2: u64)
    requires
        t1 <= t2,
    ensures
        spec_pulse_outcome(
            spec_pulse_step(
                spec_pulse_step(PulseState::WaitingForStart, (PulseEvent::EdgeSeen { at: t1 })),
                (PulseEvent::EdgeSeen { at: t2 }),
            ),
        ) == Some(PulseResult::Pulse((Duration { micros: (t2 - t1) as u64 }))),
        spec_pulse_outcome(spec_pulse_step(PulseState::WaitingForStart, PulseEvent::TimerExpired))
            == Some(PulseResult::TimedOutAtStart),
        spec_pulse_outcome(
            spec_pulse_step(
                spec_pulse_step(PulseState::WaitingForStart, (PulseEvent::EdgeSeen { at: t1 })),
                PulseEvent::TimerExpired,
            ),
        ) == Some(PulseResult::TimedOutMidPulse),
{
}

/// Converting a whole number of units to micrometers and back recovers it
/// exactly, at every scale: the constructors multiply before the accessors
/// divide, so no truncation loss is possible.
pub proof fn lemma_scale_round_trip(n: u32, unit_micros: u32)
    requires
        unit_micros >= 1,
    ensures
        spec_from_micro(spec_to_micro(n as int, unit_micros as int), unit_micros as int) == n,
{
    vstd::arithmetic::div_mod::lemma_div_multiples_vanish(n as int, unit_micros as int);
    assert(n * unit_micros == unit_micros * n) by (nonlinear_arith);
}

/// A distance built from an elapsed time at some speed converts back to
/// exactly that elapsed time at the same speed: the truncation loss of the
/// two integer operations cancels out.
pub proof fn lemma_duration_round_trip(micros: u64, speed_mps: u32)
    requires
        speed_mps >= 1,
    ensures
        spec_flight_time(spec_distance_of_flight(micros as int, speed_mps as int), speed_mps as int)
            == micros,
{
    vstd::arithmetic::div_mod::lemma_div_multiples_vanish(micros as int, speed_mps as int);
}

} // verus!
