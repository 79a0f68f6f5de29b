use hc_sr04::control::{
    commands_for, cycle_step, drive_plan, ActuatorState, DrivePlan, ServoPosition, ALARM_DUTY,
    FAR_PULSE_MS, NEAR_PULSE_MS, SETTLE_MS,
};
use hc_sr04::distance::{Distance, Measurement};
use hc_sr04::ranging::{ErrorKind, RangingOutcome};

fn at_cm_hundredths(h: u64) -> Distance {
    Distance { micrometers: h * 100 }
}

fn success_at(d: Distance) -> RangingOutcome {
    RangingOutcome::Success(Measurement { distance: d })
}

#[test]
fn exactly_at_thresholds_takes_near_action() {
    // Non-strict comparison: at the threshold the "near" action applies.
    let at_50 = commands_for(&at_cm_hundredths(5_000));
    assert!(at_50.indicator_on);
    assert_eq!(at_50.alarm_duty, 0);
    assert_eq!(at_50.position, ServoPosition::Far);

    let at_35 = commands_for(&at_cm_hundredths(3_500));
    assert!(at_35.indicator_on);
    assert_eq!(at_35.alarm_duty, ALARM_DUTY);
    assert_eq!(at_35.position, ServoPosition::Far);

    let at_20 = commands_for(&at_cm_hundredths(2_000));
    assert!(at_20.indicator_on);
    assert_eq!(at_20.alarm_duty, ALARM_DUTY);
    assert_eq!(at_20.position, ServoPosition::Near);
}

#[test]
fn just_past_thresholds_takes_far_action() {
    let past_50 = commands_for(&Distance { micrometers: 500_001 });
    assert!(!past_50.indicator_on);
    let past_35 = commands_for(&Distance { micrometers: 350_001 });
    assert_eq!(past_35.alarm_duty, 0);
    let past_20 = commands_for(&Distance { micrometers: 200_001 });
    assert_eq!(past_20.position, ServoPosition::Far);
}

#[test]
fn sixty_cm_all_far() {
    let c = commands_for(&at_cm_hundredths(6_000));
    assert_eq!(
        c,
        ActuatorState { indicator_on: false, alarm_duty: 0, position: ServoPosition::Far }
    );
}

#[test]
fn forty_cm_indicator_only() {
    let c = commands_for(&at_cm_hundredths(4_000));
    assert_eq!(
        c,
        ActuatorState { indicator_on: true, alarm_duty: 0, position: ServoPosition::Far }
    );
}

#[test]
fn ten_cm_all_near() {
    let c = commands_for(&at_cm_hundredths(1_000));
    assert_eq!(
        c,
        ActuatorState {
            indicator_on: true,
            alarm_duty: ALARM_DUTY,
            position: ServoPosition::Near
        }
    );
}

#[test]
fn alarm_duty_is_half_period() {
    assert_eq!(ALARM_DUTY, 0xFFFF / 2);
}

#[test]
fn failed_cycle_keeps_prior_state() {
    let prev = ActuatorState {
        indicator_on: true,
        alarm_duty: ALARM_DUTY,
        position: ServoPosition::Near,
    };
    for kind in [ErrorKind::NoEcho, ErrorKind::EchoTimeout, ErrorKind::InvalidReading] {
        let next = cycle_step(&prev, &RangingOutcome::Failure(kind));
        assert_eq!(next, prev);
    }
}

#[test]
fn repeated_distance_repeats_state() {
    // The loop is memoryless: the same fresh distance commands the same
    // actuator state whatever the previous cycle did.
    let m = at_cm_hundredths(4_000);
    let prev_a = ActuatorState {
        indicator_on: false,
        alarm_duty: 0,
        position: ServoPosition::Far,
    };
    let prev_b = ActuatorState {
        indicator_on: true,
        alarm_duty: ALARM_DUTY,
        position: ServoPosition::Near,
    };
    let first = cycle_step(&prev_a, &success_at(m));
    let second = cycle_step(&prev_b, &success_at(m));
    let third = cycle_step(&first, &success_at(m));
    assert_eq!(first, second);
    assert_eq!(second, third);
}

#[test]
fn successful_cycle_ignores_prior_state() {
    let prev = ActuatorState {
        indicator_on: true,
        alarm_duty: ALARM_DUTY,
        position: ServoPosition::Near,
    };
    let next = cycle_step(&prev, &success_at(at_cm_hundredths(6_000)));
    assert_eq!(
        next,
        ActuatorState { indicator_on: false, alarm_duty: 0, position: ServoPosition::Far }
    );
}

#[test]
fn drive_plans_are_complementary() {
    assert_eq!(
        drive_plan(ServoPosition::Near),
        DrivePlan {
            first_pulse_ms: NEAR_PULSE_MS,
            second_pulse_ms: FAR_PULSE_MS,
            settle_ms: SETTLE_MS,
        }
    );
    assert_eq!(
        drive_plan(ServoPosition::Far),
        DrivePlan {
            first_pulse_ms: FAR_PULSE_MS,
            second_pulse_ms: NEAR_PULSE_MS,
            settle_ms: SETTLE_MS,
        }
    );
    assert_eq!(NEAR_PULSE_MS, 2);
    assert_eq!(FAR_PULSE_MS, 1);
    assert_eq!(SETTLE_MS, 10);
}
