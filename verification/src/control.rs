//! The memoryless threshold control loop.
//!
//! Each cycle takes one fresh ranging outcome and re-evaluates three
//! independent threshold rows against the measured distance: the
//! indicator light at 50 cm, the alarm tone at 35 cm, and the pair of
//! opposed positional actuators at 20 cm. Comparisons are non-strict, so
//! exactly at a threshold the "near" action applies. A failed outcome
//! drives nothing: every actuator keeps the state the prior cycle gave
//! it. There is no hysteresis and no other cross-cycle state.

use crate::distance::{Distance, Measurement};
use crate::ranging::{ErrorKind, RangingOutcome};
use vstd::prelude::*;

verus! {

/// Distance at or under which the indicator light is asserted: 50.0 cm,
/// in micrometers.
pub const INDICATOR_THRESHOLD_UM: u64 = 500_000;

/// Distance at or under which the alarm tone sounds: 35.0 cm, in
/// micrometers.
pub const ALARM_THRESHOLD_UM: u64 = 350_000;

/// Distance at or under which the positional actuators move to the
/// "near" position: 20.0 cm, in micrometers.
pub const NEAR_THRESHOLD_UM: u64 = 200_000;

/// Top of the alarm signal generator's period.
pub const PWM_TOP: u16 = 0xFFFF;

/// Duty applied while the alarm sounds: half the period, a 50% duty
/// cycle. Zero is silence.
pub const ALARM_DUTY: u16 = PWM_TOP / 2;

/// Delay between consecutive cycles, in milliseconds: respects the
/// sensor's minimum re-trigger interval and keeps consecutive pulses
/// from interfering acoustically.
pub const CYCLE_PERIOD_MS: u64 = 200;

/// Position commanded to the pair of opposed positional actuators.
#[derive(Clone, Copy, Debug, PartialEq, Eq, Structural)]
pub enum ServoPosition {
    Near,
    Far,
}

/// The complete actuator command set of one cycle.
#[derive(Clone, Copy, Debug, PartialEq, Eq, Structural)]
pub struct ActuatorState {
    /// Whether the indicator light is asserted.
    pub indicator_on: bool,
    /// Duty of the alarm signal: 0 silent, `ALARM_DUTY` audible.
    pub alarm_duty: u16,
    /// Commanded position of the actuator pair.
    pub position: ServoPosition,
}

/// The commands the threshold policy prescribes for a fresh distance of
/// `um` micrometers. Each row is independent of the others.
pub open spec fn spec_commands(um: u64) -> ActuatorState {
    ActuatorState {
        indicator_on: um <= INDICATOR_THRESHOLD_UM,
        alarm_duty: if um <= ALARM_THRESHOLD_UM {
            ALARM_DUTY
        } else {
            0
        },
        position: if um <= NEAR_THRESHOLD_UM {
            ServoPosition::Near
        } else {
            ServoPosition::Far
        },
    }
}

/// Evaluates the three threshold rows for one fresh distance. Non-strict
/// comparisons: at exactly 50.0, 35.0 or 20.0 cm the "near" action of
/// that row applies.
pub fn commands_for(d: &Distance) -> (r: ActuatorState)
    ensures
        r == spec_commands(d.micrometers),
        r.indicator_on <==> d.micrometers <= INDICATOR_THRESHOLD_UM,
        r.alarm_duty == if d.micrometers <= ALARM_THRESHOLD_UM {
            ALARM_DUTY
        } else {
            0u16
        },
        (r.position == ServoPosition::Near) <==> d.micrometers <= NEAR_THRESHOLD_UM,
{
    ActuatorState {
        indicator_on: d.micrometers <= INDICATOR_THRESHOLD_UM,
        alarm_duty: if d.micrometers <= ALARM_THRESHOLD_UM {
            ALARM_DUTY
        } else {
            0
        },
        position: if d.micrometers <= NEAR_THRESHOLD_UM {
            ServoPosition::Near
        } else {
            ServoPosition::Far
        },
    }
}

/// The state the actuators hold after one cycle: on success the policy
/// re-evaluates from the fresh distance alone; on failure the prior
/// state is kept untouched.
pub open spec fn spec_cycle(prev: ActuatorState, outcome: RangingOutcome) -> ActuatorState {
    match outcome {
        RangingOutcome::Success(m) => spec_commands(m.distance.micrometers),
        RangingOutcome::Failure(_) => prev,
    }
}

/// Runs the actuation decision of one cycle. A failed ranging outcome
/// skips all actuation — the result is exactly the prior state — and a
/// successful one drives every actuator from the fresh distance,
/// regardless of the prior state.
pub fn cycle_step(prev: &ActuatorState, outcome: &RangingOutcome) -> (r: ActuatorState)
    ensures
        r == spec_cycle(*prev, *outcome),
        (outcome matches RangingOutcome::Failure(_) ==> r == *prev),
        (outcome matches RangingOutcome::Success(m) ==> r == spec_commands(
            m.distance.micrometers,
        )),
{
    match outcome {
        RangingOutcome::Success(m) => commands_for(&m.distance),
        RangingOutcome::Failure(_) => *prev,
    }
}

/// A failed ranging outcome, of any kind, leaves every actuator exactly
/// as the prior cycle left it.
pub proof fn lemma_failure_keeps_state(prev: ActuatorState, kind: ErrorKind)
    ensures
        spec_cycle(prev, RangingOutcome::Failure(kind)) == prev,
{
}

/// Successful cycles are memoryless and deterministic: the same measured
/// distance commands the same actuator state every time, whatever the
/// actuators were doing before.
pub proof fn lemma_cycle_deterministic(prev1: ActuatorState, prev2: ActuatorState, m: Measurement)
    ensures
        spec_cycle(prev1, RangingOutcome::Success(m)) == spec_cycle(
            prev2,
            RangingOutcome::Success(m),
        ),
{
}

/// Assert-pulse width, in milliseconds, that moves an actuator toward
/// its "near" extreme.
pub const NEAR_PULSE_MS: u64 = 2;

/// Assert-pulse width, in milliseconds, that moves an actuator toward
/// its "far" extreme.
pub const FAR_PULSE_MS: u64 = 1;

/// Settle delay, in milliseconds, after each assert pulse.
pub const SETTLE_MS: u64 = 10;

/// The drive sequence realizing one positional command: each actuator
/// receives one assert pulse of the given width, followed by the settle
/// delay.
#[derive(Clone, Copy, Debug, PartialEq, Eq, Structural)]
pub struct DrivePlan {
    /// Assert-pulse width for the first actuator, milliseconds.
    pub first_pulse_ms: u64,
    /// Assert-pulse width for the second, opposed actuator, milliseconds.
    pub second_pulse_ms: u64,
    /// Settle delay after each pulse, milliseconds.
    pub settle_ms: u64,
}

/// The pulse widths that drive the actuator pair to `position`. The two
/// actuators move oppositely, so they always receive complementary
/// widths.
pub fn drive_plan(position: ServoPosition) -> (r: DrivePlan)
    ensures
        position == ServoPosition::Near ==> r == (DrivePlan {
            first_pulse_ms: NEAR_PULSE_MS,
            second_pulse_ms: FAR_PULSE_MS,
            settle_ms: SETTLE_MS,
        }),
        position == ServoPosition::Far ==> r == (DrivePlan {
            first_pulse_ms: FAR_PULSE_MS,
            second_pulse_ms: NEAR_PULSE_MS,
            settle_ms: SETTLE_MS,
        }),
{
    match position {
        ServoPosition::Near => DrivePlan {
            first_pulse_ms: NEAR_PULSE_MS,
            second_pulse_ms: FAR_PULSE_MS,
            settle_ms: SETTLE_MS,
        },
        ServoPosition::Far => DrivePlan {
            first_pulse_ms: FAR_PULSE_MS,
            second_pulse_ms: NEAR_PULSE_MS,
            settle_ms: SETTLE_MS,
        },
    }
}

} // verus!
