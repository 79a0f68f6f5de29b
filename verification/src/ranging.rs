//! The trigger/echo protocol of the ranging driver.
//!
//! One measurement runs: drive the trigger high for a fixed pulse, wait —
//! bounded by a startup timeout — for the echo line to rise, wait —
//! bounded by a pulse-width timeout — for it to fall again, and convert
//! the high time to a distance. Every wait is a polling loop whose each
//! step is decided by [`poll_step`] against an explicit deadline, so no
//! wait can outlive its timeout and starve a cooperative scheduler.
//!
//! The hardware layer reports each bounded wait as an [`EdgeWait`]:
//! either the edge, stamped with the monotonic clock's microsecond
//! reading, or the deadline passing first. [`measure_outcome`] turns the
//! two reports into the tagged result of the attempt.

use crate::distance::{plausible_pulse, pulse_distance_um, Distance, Measurement};
use vstd::prelude::*;

verus! {

/// Minimum trigger pulse width, in microseconds, required to reliably
/// fire the sensor's internal burst.
pub const TRIGGER_PULSE_US: u64 = 10;

/// Nominal bound on the wait for echo start, in microseconds. Passing it
/// means "no object in range" or a wiring fault, not a fatal error.
pub const STARTUP_TIMEOUT_US: u64 = 50_000;

/// Nominal bound on the echo pulse width, in microseconds: the round
/// trip at the rated maximum range takes about 23.3 ms, so 30 ms leaves
/// margin. Passing it means the echo line is stuck or disconnected.
pub const PULSE_TIMEOUT_US: u64 = 30_000;

/// How one ranging attempt, or the driver's construction, can fail.
#[derive(Clone, Copy, Debug, PartialEq, Eq, Structural)]
pub enum ErrorKind {
    /// A line could not be configured in its required direction; raised
    /// only at construction, and fatal there.
    InitFailure,
    /// The echo line never rose within the startup timeout.
    NoEcho,
    /// The echo line rose but never fell within the pulse-width timeout.
    EchoTimeout,
    /// The echo pulse encoded a physically implausible distance.
    InvalidReading,
}

/// The tagged result of one `measure` attempt: a fresh measurement, or
/// exactly one failure kind. No partial state, no sentinel distances.
#[derive(Clone, Copy, Debug, PartialEq, Eq, Structural)]
pub enum RangingOutcome {
    Success(Measurement),
    Failure(ErrorKind),
}

impl RangingOutcome {
    /// What `measure` can actually yield: a well-formed measurement, or
    /// one of the per-cycle failure kinds — never `InitFailure`.
    pub open spec fn wf(self) -> bool {
        match self {
            RangingOutcome::Success(m) => m.wf(),
            RangingOutcome::Failure(kind) => kind != ErrorKind::InitFailure,
        }
    }
}

/// The timing discipline of one driver instance, fixed at construction.
#[derive(Clone, Copy, Debug, PartialEq, Eq, Structural)]
pub struct RangingConfig {
    /// Width of the trigger pulse, microseconds.
    pub trigger_pulse_us: u64,
    /// Bound on the wait for echo start, microseconds.
    pub startup_timeout_us: u64,
    /// Bound on the wait for echo end, microseconds.
    pub pulse_timeout_us: u64,
}

/// The nominal timing values.
pub open spec fn nominal_config() -> RangingConfig {
    RangingConfig {
        trigger_pulse_us: TRIGGER_PULSE_US,
        startup_timeout_us: STARTUP_TIMEOUT_US,
        pulse_timeout_us: PULSE_TIMEOUT_US,
    }
}

impl RangingConfig {
    /// A usable timing discipline: the trigger pulse is at least the
    /// required minimum, and both waits carry a positive bound.
    pub open spec fn wf(self) -> bool {
        &&& self.trigger_pulse_us >= TRIGGER_PULSE_US
        &&& self.startup_timeout_us > 0
        &&& self.pulse_timeout_us > 0
    }

    /// The nominal timing discipline.
    pub fn nominal() -> (r: RangingConfig)
        ensures
            r == nominal_config(),
            r.wf(),
    {
        RangingConfig {
            trigger_pulse_us: TRIGGER_PULSE_US,
            startup_timeout_us: STARTUP_TIMEOUT_US,
            pulse_timeout_us: PULSE_TIMEOUT_US,
        }
    }
}

/// Outcome of driver construction, from whether each line accepted its
/// required direction — trigger as output, echo as input. The driver
/// comes into being, with the nominal timing, exactly when both did;
/// `InitFailure` is the only error construction can surface.
pub fn init_outcome(trigger_configured: bool, echo_configured: bool) -> (r: Result<
    RangingConfig,
    ErrorKind,
>)
    ensures
        r is Ok <==> (trigger_configured && echo_configured),
        (r matches Ok(c) ==> c == nominal_config()),
        (r matches Err(e) ==> e == ErrorKind::InitFailure),
{
    if trigger_configured && echo_configured {
        Ok(RangingConfig::nominal())
    } else {
        Err(ErrorKind::InitFailure)
    }
}

/// What a bounded wait for an echo edge observed.
#[derive(Clone, Copy, Debug, PartialEq, Eq, Structural)]
pub enum EdgeWait {
    /// The edge occurred; `at_us` is the monotonic clock's microsecond
    /// reading at which it was seen.
    Edge { at_us: u64 },
    /// The deadline passed before the edge.
    TimedOut,
}

/// The decision taken at one step of a bounded polling wait.
#[derive(Clone, Copy, Debug, PartialEq, Eq, Structural)]
pub enum PollDecision {
    /// The line sits at the awaited level: the edge has occurred.
    Observed,
    /// The deadline has been reached without the edge: stop waiting.
    TimedOut,
    /// Neither yet: poll again.
    KeepWaiting,
}

/// The deadline of a bounded wait starting `now_us`; every subsequent
/// poll is checked against it rather than against an iteration count.
pub fn deadline_after(now_us: u64, timeout_us: u64) -> (r: u64)
    requires
        now_us + timeout_us <= u64::MAX,
    ensures
        r == now_us + timeout_us,
{
    now_us + timeout_us
}

/// One step of a bounded edge wait: observed as soon as the line sits at
/// the awaited level, timed out as soon as the clock reaches the
/// deadline, and only otherwise another poll. A wait built on this
/// decision is therefore never still polling once its deadline is past.
pub fn poll_step(line_high: bool, await_high: bool, now_us: u64, deadline_us: u64) -> (r:
    PollDecision)
    ensures
        line_high == await_high ==> r == PollDecision::Observed,
        (line_high != await_high && now_us >= deadline_us) ==> r == PollDecision::TimedOut,
        (line_high != await_high && now_us < deadline_us) ==> r == PollDecision::KeepWaiting,
{
    if line_high == await_high {
        PollDecision::Observed
    } else if now_us >= deadline_us {
        PollDecision::TimedOut
    } else {
        PollDecision::KeepWaiting
    }
}

/// Classification of a completed echo pulse of `dt_us` microseconds: a
/// fresh measurement when the distance is plausible, `InvalidReading`
/// otherwise.
pub open spec fn spec_outcome_of_pulse(dt_us: int) -> RangingOutcome {
    if plausible_pulse(dt_us) {
        RangingOutcome::Success(
            Measurement { distance: Distance { micrometers: pulse_distance_um(dt_us) as u64 } },
        )
    } else {
        RangingOutcome::Failure(ErrorKind::InvalidReading)
    }
}

/// The result of one measure attempt, from what its two bounded edge
/// waits observed: no echo start is `NoEcho`, a start without an end is
/// `EchoTimeout`, and a complete pulse is classified by its width.
pub open spec fn spec_measure(echo_start: EdgeWait, echo_end: EdgeWait) -> RangingOutcome {
    match (echo_start, echo_end) {
        (EdgeWait::TimedOut, _) => RangingOutcome::Failure(ErrorKind::NoEcho),
        (EdgeWait::Edge { .. }, EdgeWait::TimedOut) => RangingOutcome::Failure(
            ErrorKind::EchoTimeout,
        ),
        (EdgeWait::Edge { at_us: s }, EdgeWait::Edge { at_us: e }) => spec_outcome_of_pulse(
            e - s,
        ),
    }
}

/// Both waits saw their edge only with the clock readings in order; a
/// monotonic clock guarantees it, and the caller checks it.
pub open spec fn edges_ordered(echo_start: EdgeWait, echo_end: EdgeWait) -> bool {
    match (echo_start, echo_end) {
        (EdgeWait::Edge { at_us: s }, EdgeWait::Edge { at_us: e }) => s <= e,
        _ => true,
    }
}

/// Classifies a completed echo pulse of `dt_us` microseconds.
pub fn outcome_of_pulse(dt_us: u64) -> (r: RangingOutcome)
    ensures
        r == spec_outcome_of_pulse(dt_us as int),
        r.wf(),
{
    match Distance::from_pulse(dt_us) {
        Some(d) => RangingOutcome::Success(Measurement { distance: d }),
        None => RangingOutcome::Failure(ErrorKind::InvalidReading),
    }
}

/// Turns the two bounded edge waits of one measure attempt into its
/// outcome. Never yields a measurement when the startup wait timed out —
/// that is `NoEcho` — nor when only the echo start was seen — that is
/// `EchoTimeout`; a complete pulse yields a measurement exactly when its
/// width encodes a plausible distance.
pub fn measure_outcome(echo_start: EdgeWait, echo_end: EdgeWait) -> (r: RangingOutcome)
    requires
        edges_ordered(echo_start, echo_end),
    ensures
        r == spec_measure(echo_start, echo_end),
        r.wf(),
        echo_start is TimedOut ==> r == RangingOutcome::Failure(ErrorKind::NoEcho),
        (echo_start is Edge && echo_end is TimedOut) ==> r == RangingOutcome::Failure(
            ErrorKind::EchoTimeout,
        ),
{
    match (echo_start, echo_end) {
        (EdgeWait::TimedOut, _) => RangingOutcome::Failure(ErrorKind::NoEcho),
        (EdgeWait::Edge { .. }, EdgeWait::TimedOut) => RangingOutcome::Failure(
            ErrorKind::EchoTimeout,
        ),
        (EdgeWait::Edge { at_us: s }, EdgeWait::Edge { at_us: e }) => outcome_of_pulse(e - s),
    }
}

/// When no echo start occurs within the startup timeout, the attempt
/// fails as `NoEcho` — and never yields a measurement — whatever the
/// second wait would have observed.
pub proof fn lemma_no_echo_start(echo_end: EdgeWait)
    ensures
        spec_measure(EdgeWait::TimedOut, echo_end) == RangingOutcome::Failure(ErrorKind::NoEcho),
        !(spec_measure(EdgeWait::TimedOut, echo_end) is Success),
{
}

/// When echo start occurs but echo end does not within the pulse-width
/// timeout, the attempt fails as `EchoTimeout`.
pub proof fn lemma_echo_timeout(start_us: u64)
    ensures
        spec_measure((EdgeWait::Edge { at_us: start_us }), EdgeWait::TimedOut)
            == RangingOutcome::Failure(ErrorKind::EchoTimeout),
{
}

} // verus!
