use ichibu::dispense::{
    dispense_velocity, DispenseAction, DispenseEndCondition, DispenseEvent, DispenseParameters, DispensePhase,
    Dispenser, Setpoint,
};

fn params(motor_speed: u32, min_speed: u32, check_offset: u64) -> DispenseParameters {
    DispenseParameters {
        motor_speed,
        min_speed,
        check_offset,
        sample_interval: 100,
        samples: 5,
        reverse_before: None,
        reverse_after: None,
    }
}

/// Runs a dispense against a simulated hopper that loses `mg_per_unit`
/// milligrams per thousandth of conveyor travel. Returns the outcome and
/// every operation the dispenser asked for.
fn simulate(
    start: i64,
    target_grams: u64,
    timeout: u64,
    p: DispenseParameters,
    mg_per_unit: i64,
) -> (DispenseEndCondition, Vec<DispenseAction>) {
    let mut d = Dispenser::new(Setpoint::Weight { target_grams, timeout }, p);
    let mut weight = start;
    let mut clock: u64 = 0;
    let mut actions = Vec::new();
    let mut a = d.step(DispenseEvent::Begin);
    for _ in 0..100_000 {
        actions.push(a);
        a = match a {
            DispenseAction::Retract(_) | DispenseAction::AbruptStop => d.step(DispenseEvent::MoveDone),
            DispenseAction::ReadMedian { .. } | DispenseAction::StopAndVerify { .. } => {
                d.step(DispenseEvent::Median(weight))
            }
            DispenseAction::AwaitTick => {
                clock += p.sample_interval as u64;
                d.step(DispenseEvent::Tick(clock))
            }
            DispenseAction::ReadWeight => d.step(DispenseEvent::Weight(weight)),
            DispenseAction::Advance { distance, .. } => {
                weight -= distance as i64 * mg_per_unit;
                clock += p.sample_interval as u64;
                d.step(DispenseEvent::Tick(clock))
            }
            DispenseAction::Finish(o) => return (o, actions),
        };
    }
    panic!("the dispense did not end");
}

#[test]
fn velocity_is_proportional_inside_the_envelope() {
    let p = params(500, 50, 1000);
    // 20 g of 50 g left: 0.4 of the top speed.
    assert_eq!(dispense_velocity(&p, 170_000, 200_000, 50), 200);
}

#[test]
fn velocity_saturates_at_top_speed() {
    let p = params(500, 50, 1000);
    assert_eq!(dispense_velocity(&p, 1_000_000, 200_000, 50), 500);
    assert_eq!(dispense_velocity(&p, i64::MAX, i64::MIN, 1), 500);
}

#[test]
fn velocity_never_drops_below_min_speed() {
    let p = params(500, 50, 1000);
    assert_eq!(dispense_velocity(&p, 150_500, 200_000, 50), 50);
    assert_eq!(dispense_velocity(&p, 100_000, 200_000, 50), 50);
    assert_eq!(dispense_velocity(&p, i64::MIN, i64::MAX, 50), 50);
}

#[test]
fn velocity_for_a_zero_target_is_top_speed() {
    let p = params(500, 50, 1000);
    assert_eq!(dispense_velocity(&p, 0, 0, 0), 500);
}

#[test]
fn velocity_with_equal_speeds_is_that_speed() {
    let p = params(300, 300, 0);
    assert_eq!(dispense_velocity(&p, 199_000, 200_000, 50), 300);
    assert_eq!(dispense_velocity(&p, 0, 200_000, 50), 300);
}

#[test]
fn parameters_with_min_above_max_are_invalid() {
    assert!(params(500, 50, 0).is_valid());
    assert!(params(50, 50, 0).is_valid());
    assert!(!params(50, 500, 0).is_valid());
}

#[test]
fn converges_to_target_on_a_falling_weight() {
    let (outcome, actions) = simulate(200_000, 50, 60_000, params(500, 50, 1000), 20);
    match outcome {
        DispenseEndCondition::WeightAchieved(w) => {
            assert!(w >= 149_000 && w <= 151_000, "reported {w}");
        }
        other => panic!("unexpected outcome {other:?}"),
    }
    assert!(!actions.contains(&DispenseAction::AbruptStop));
}

#[test]
fn achieved_weight_is_within_the_check_offset() {
    let p = params(500, 50, 2000);
    let (outcome, _) = simulate(120_000, 30, 60_000, p, 40);
    match outcome {
        DispenseEndCondition::WeightAchieved(w) => assert!(w <= 120_000 - 30_000 + 2000),
        other => panic!("unexpected outcome {other:?}"),
    }
}

#[test]
fn no_progress_times_out_after_an_abrupt_stop() {
    let (outcome, actions) = simulate(200_000, 50, 3000, params(500, 50, 1000), 0);
    assert_eq!(outcome, DispenseEndCondition::Timeout(200_000));
    let stop = actions.iter().position(|a| *a == DispenseAction::AbruptStop);
    assert!(stop.is_some());
    assert_eq!(actions.iter().filter(|a| **a == DispenseAction::AbruptStop).count(), 1);
}

#[test]
fn first_operations_take_the_start_weight() {
    let p = params(500, 50, 1000);
    let mut d = Dispenser::new(Setpoint::Weight { target_grams: 50, timeout: 1000 }, p);
    assert_eq!(d.phase, DispensePhase::Idle);
    assert_eq!(d.step(DispenseEvent::Begin), DispenseAction::ReadMedian { samples: 5, interval: 100 });
    assert_eq!(d.step(DispenseEvent::Median(200_000)), DispenseAction::AwaitTick);
    assert_eq!(d.start_weight, 200_000);
    assert_eq!(d.step(DispenseEvent::Tick(100)), DispenseAction::ReadWeight);
    // 49 g of 50 g to go: 0.98 of the top speed, for 100 ms.
    assert_eq!(
        d.step(DispenseEvent::Weight(199_000)),
        DispenseAction::Advance { velocity: 490, distance: 49 }
    );
}

#[test]
fn noisy_low_reading_is_verified_and_the_loop_resumes() {
    let p = params(500, 50, 1000);
    let mut d = Dispenser::new(Setpoint::Weight { target_grams: 50, timeout: 10_000 }, p);
    d.step(DispenseEvent::Begin);
    d.step(DispenseEvent::Median(200_000));
    d.step(DispenseEvent::Tick(100));
    assert_eq!(
        d.step(DispenseEvent::Weight(140_000)),
        DispenseAction::StopAndVerify { samples: 5, interval: 100 }
    );
    // The median disagrees: a slow nudge and the loop goes on.
    assert_eq!(
        d.step(DispenseEvent::Median(180_000)),
        DispenseAction::Advance { velocity: 50, distance: 5 }
    );
    assert_eq!(d.phase, DispensePhase::Waiting);
    assert_eq!(d.step(DispenseEvent::Tick(200)), DispenseAction::ReadWeight);
}

#[test]
fn retracts_before_and_after() {
    let mut p = params(500, 50, 1000);
    p.reverse_before = Some(1500);
    p.reverse_after = Some(2500);
    let mut d = Dispenser::new(Setpoint::Weight { target_grams: 50, timeout: 10_000 }, p);
    assert_eq!(d.step(DispenseEvent::Begin), DispenseAction::Retract(1500));
    assert_eq!(d.step(DispenseEvent::MoveDone), DispenseAction::ReadMedian { samples: 5, interval: 100 });
    d.step(DispenseEvent::Median(200_000));
    d.step(DispenseEvent::Tick(100));
    d.step(DispenseEvent::Weight(150_200));
    assert_eq!(d.step(DispenseEvent::Median(150_100)), DispenseAction::Retract(2500));
    assert_eq!(
        d.step(DispenseEvent::MoveDone),
        DispenseAction::Finish(DispenseEndCondition::WeightAchieved(150_100))
    );
    // The outcome stands.
    assert_eq!(
        d.step(DispenseEvent::Tick(5000)),
        DispenseAction::Finish(DispenseEndCondition::WeightAchieved(150_100))
    );
}

#[test]
fn timeout_with_retract_after_keeps_the_timeout() {
    let mut p = params(500, 50, 1000);
    p.reverse_after = Some(700);
    let mut d = Dispenser::new(Setpoint::Weight { target_grams: 50, timeout: 100 }, p);
    d.step(DispenseEvent::Begin);
    d.step(DispenseEvent::Median(200_000));
    assert_eq!(d.step(DispenseEvent::Tick(101)), DispenseAction::AbruptStop);
    assert!(d.abrupt_stop_sent);
    assert_eq!(d.step(DispenseEvent::MoveDone), DispenseAction::Retract(700));
    assert_eq!(
        d.step(DispenseEvent::MoveDone),
        DispenseAction::Finish(DispenseEndCondition::Timeout(200_000))
    );
}

#[test]
fn fault_fails_the_dispense() {
    let p = params(500, 50, 1000);
    let mut d = Dispenser::new(Setpoint::Weight { target_grams: 50, timeout: 10_000 }, p);
    d.step(DispenseEvent::Begin);
    assert_eq!(d.step(DispenseEvent::Fault), DispenseAction::Finish(DispenseEndCondition::Failed));
    assert_eq!(d.phase, DispensePhase::Done);
}

#[test]
fn report_out_of_turn_fails_the_dispense() {
    let p = params(500, 50, 1000);
    let mut d = Dispenser::new(Setpoint::Weight { target_grams: 50, timeout: 10_000 }, p);
    d.step(DispenseEvent::Begin);
    assert_eq!(d.step(DispenseEvent::Weight(10)), DispenseAction::Finish(DispenseEndCondition::Failed));
}

#[test]
fn slow_short_period_move_is_never_zero() {
    let mut p = params(500, 50, 1000);
    p.sample_interval = 10;
    let mut d = Dispenser::new(Setpoint::Weight { target_grams: 50, timeout: 10_000 }, p);
    d.step(DispenseEvent::Begin);
    d.step(DispenseEvent::Median(200_000));
    d.step(DispenseEvent::Tick(10));
    // 50 thousandths per second for 10 ms is half a thousandth: rounded up.
    assert_eq!(d.step(DispenseEvent::Weight(151_000)), DispenseAction::Advance { velocity: 50, distance: 1 });
}

#[test]
fn zero_interval_runs_every_millisecond() {
    let mut p = params(500, 50, 1000);
    p.sample_interval = 0;
    let mut d = Dispenser::new(Setpoint::Weight { target_grams: 50, timeout: 10_000 }, p);
    d.step(DispenseEvent::Begin);
    d.step(DispenseEvent::Median(200_000));
    d.step(DispenseEvent::Tick(1));
    assert_eq!(d.step(DispenseEvent::Weight(200_000)), DispenseAction::Advance { velocity: 500, distance: 1 });
}

#[test]
fn default_parameters() {
    let p = DispenseParameters::default();
    assert_eq!(p, params(500, 50, 1000));
}
