//! Weight-feedback dispense control.

use vstd::prelude::*;

verus! {

/// Milligrams in one gram.
pub const MG_PER_GRAM: u64 = 1000;

/// How a dispense drives the conveyor motor.
///
/// Speeds are in thousandths of the motor's velocity unit, distances in
/// thousandths of its position unit, masses in milligrams and the sampling
/// interval in milliseconds.
#[derive(Clone, Copy, Debug, PartialEq, Eq, Structural)]
pub struct DispenseParameters {
    /// Highest velocity the controller commands.
    pub motor_speed: u32,
    /// Lowest velocity the controller commands while moving.
    pub min_speed: u32,
    /// Margin above the target weight at which motion pauses for a median check.
    pub check_offset: u64,
    /// Period of the control loop.
    pub sample_interval: u32,
    /// Number of readings whose median is taken for the start and verification weights.
    pub samples: usize,
    /// Distance retracted before the loop starts, if any.
    pub reverse_before: Option<u32>,
    /// Distance retracted once the loop has ended, if any.
    pub reverse_after: Option<u32>,
}

impl DispenseParameters {
    /// The speed envelope is not empty.
    pub open spec fn wf(&self) -> bool {
        self.min_speed <= self.motor_speed
    }

    /// Whether the parameters satisfy [`DispenseParameters::wf`].
    pub fn is_valid(&self) -> (r: bool)
        ensures
            r == self.wf(),
    {
        self.min_speed <= self.motor_speed
    }
}

/// `x` limited to the range `[lo, hi]`.
pub open spec fn clamp(x: int, lo: int, hi: int) -> int {
    if x < lo {
        lo
    } else if x > hi {
        hi
    } else {
        x
    }
}

/// Milligrams in a target given in grams.
pub open spec fn mass_of(target_grams: u64) -> int {
    target_grams * MG_PER_GRAM
}

/// Scale reading at which `target_grams` have left a hopper that started at `start`.
pub open spec fn target_weight_of(start: int, target_grams: u64) -> int {
    start - mass_of(target_grams)
}

/// Velocity of the proportional controller: the remaining fraction of the
/// target mass times the top speed, saturated to the speed envelope. A zero
/// target saturates at the top speed.
pub open spec fn proportional_velocity(
    p: DispenseParameters,
    current: int,
    start: int,
    target_grams: u64,
) -> int {
    let mass = mass_of(target_grams);
    let raw = if mass > 0 {
        (current - target_weight_of(start, target_grams)) * p.motor_speed / mass
    } else {
        p.motor_speed as int
    };
    clamp(raw, p.min_speed as int, p.motor_speed as int)
}

/// Velocity to command after reading `current` in a dispense of
/// `target_grams` from a hopper that weighed `start`.
pub fn dispense_velocity(p: &DispenseParameters, current: i64, start: i64, target_grams: u64) -> (v: u32)
    requires
        p.wf(),
    ensures
        v == proportional_velocity(*p, current as int, start as int, target_grams),
        p.min_speed <= v <= p.motor_speed,
{
    let mass: i128 = target_grams as i128 * 1000;
    let target: i128 = start as i128 - mass;
    let cur: i128 = current as i128;
    if mass == 0 {
        p.motor_speed
    } else if cur <= target {
        proof {
            let d = cur - target;
            let s = p.motor_speed as int;
            assert(d * s <= 0) by (nonlinear_arith)
                requires d <= 0, s >= 0;
            assert((d * s) / (mass as int) <= 0) by (nonlinear_arith)
                requires d * s <= 0, mass > 0;
        }
        p.min_speed
    } else {
        let diff: u128 = (cur - target) as u128;
        proof {
            assert(diff * (p.motor_speed as int) <= diff * 0x1_0000_0000) by (nonlinear_arith)
                requires p.motor_speed < 0x1_0000_0000, diff >= 0;
        }
        let raw: u128 = diff * (p.motor_speed as u128) / (mass as u128);
        if raw < p.min_speed as u128 {
            p.min_speed
        } else if raw > p.motor_speed as u128 {
            p.motor_speed
        } else {
            raw as u32
        }
    }
}

/// A top speed of 0.5 and a floor of 0.05 motor units per second, a one gram
/// margin, a 100 ms period and a five-reading median; no retracts.
pub open spec fn default_parameters() -> DispenseParameters {
    DispenseParameters {
        motor_speed: 500,
        min_speed: 50,
        check_offset: 1000,
        sample_interval: 100,
        samples: 5,
        reverse_before: None,
        reverse_after: None,
    }
}

impl Default for DispenseParameters {
    fn default() -> (p: Self)
        ensures
            p == default_parameters(),
    {
        DispenseParameters {
            motor_speed: 500,
            min_speed: 50,
            check_offset: 1000,
            sample_interval: 100,
            samples: 5,
            reverse_before: None,
            reverse_after: None,
        }
    }
}

/// What a dispense is to reach.
#[derive(Clone, Copy, Debug, PartialEq, Eq, Structural)]
pub enum Setpoint {
    /// Remove `target_grams` from the hopper within `timeout` milliseconds.
    Weight { target_grams: u64, timeout: u64 },
}

/// How a dispense ended: exactly one per dispense.
#[derive(Clone, Copy, Debug, PartialEq, Eq, Structural)]
pub enum DispenseEndCondition {
    /// The median check confirmed the target; the confirming reading in milligrams.
    WeightAchieved(i64),
    /// The overall timeout passed; the last reading in milligrams.
    Timeout(i64),
    /// The motor or the scale failed, or reported out of turn.
    Failed,
}

/// Where a dispense stands.
#[derive(Clone, Copy, Debug, PartialEq, Eq, Structural)]
pub enum DispensePhase {
    /// Not begun.
    Idle,
    /// Retracting before the start weight is taken.
    Retracting,
    /// Taking the start weight.
    Taring,
    /// Waiting for the next period of the loop.
    Waiting,
    /// Taking a single reading.
    Sampling,
    /// Stopped, taking the median that confirms or refutes the target.
    Verifying,
    /// Stopping abruptly after the timeout.
    Stopping,
    /// Retracting after the loop has ended.
    Returning,
    /// Over; the outcome is final.
    Done,
}

/// What the hardware reports back after a [`DispenseAction`].
#[derive(Clone, Copy, Debug, PartialEq, Eq, Structural)]
pub enum DispenseEvent {
    /// Start the dispense.
    Begin,
    /// A commanded retract or stop has completed.
    MoveDone,
    /// The median of the requested readings, in milligrams.
    Median(i64),
    /// A loop period has passed; milliseconds since the dispense began.
    Tick(u64),
    /// A single reading, in milligrams.
    Weight(i64),
    /// The motor or the scale reported an error.
    Fault,
}

/// The next hardware operation of a dispense.
#[derive(Clone, Copy, Debug, PartialEq, Eq, Structural)]
pub enum DispenseAction {
    /// Move the conveyor back by the distance and wait for the move; report `MoveDone`.
    Retract(u32),
    /// Take a median of `samples` readings spaced by `interval` ms; report `Median`.
    ReadMedian { samples: usize, interval: u32 },
    /// Wait for the next loop period, skipping missed ones; report `Tick`.
    AwaitTick,
    /// Take one reading; report `Weight`.
    ReadWeight,
    /// Set the velocity, move forward by the distance, then wait as for `AwaitTick`.
    Advance { velocity: u32, distance: u64 },
    /// Stop the conveyor, wait for it to settle, then take a median as for `ReadMedian`.
    StopAndVerify { samples: usize, interval: u32 },
    /// Stop the conveyor abruptly; report `MoveDone`.
    AbruptStop,
    /// The dispense is over with this outcome.
    Finish(DispenseEndCondition),
}

/// The loop period for a sampling interval: an interval of zero runs the loop
/// every millisecond.
pub open spec fn loop_period(interval: u32) -> int {
    if interval == 0 {
        1
    } else {
        interval as int
    }
}

/// Distance covered in one loop period at `velocity`, rounded up so that a
/// moving conveyor always advances.
pub open spec fn advance_distance(velocity: u32, interval: u32) -> int {
    (velocity * loop_period(interval) + 999) / 1000
}

/// A forward move at a positive velocity has a positive length.
pub proof fn lemma_advance_distance_positive(velocity: u32, interval: u32)
    requires
        velocity > 0,
    ensures
        1 <= advance_distance(velocity, interval) <= u64::MAX,
{
    let p = loop_period(interval);
    assert(velocity * p >= 1) by (nonlinear_arith)
        requires velocity >= 1, p >= 1;
    assert(velocity * p <= 0xffff_ffff * 0xffff_ffff) by (nonlinear_arith)
        requires velocity <= 0xffff_ffff, 1 <= p <= 0xffff_ffff;
}

/// The weight-feedback dispense loop, one hardware operation at a time.
#[derive(Clone, Copy, Debug, PartialEq, Eq, Structural)]
pub struct Dispenser {
    pub params: DispenseParameters,
    /// Mass to remove, in grams.
    pub target_grams: u64,
    /// Overall time allowed, in milliseconds.
    pub timeout: u64,
    pub phase: DispensePhase,
    /// Median weight when the loop started.
    pub start_weight: i64,
    /// Most recent weight read.
    pub last_weight: i64,
    /// The outcome; final once the phase is `Done`.
    pub outcome: DispenseEndCondition,
    /// An abrupt stop has been commanded.
    pub abrupt_stop_sent: bool,
}

impl Dispenser {
    pub open spec fn wf(self) -> bool {
        self.params.wf()
    }

    /// Scale reading at which the target has been dispensed.
    pub open spec fn target_weight(self) -> int {
        target_weight_of(self.start_weight as int, self.target_grams)
    }

    /// A reading that is close enough to the target to stop and verify.
    pub open spec fn near_target(self, w: int) -> bool {
        w < self.target_weight() + self.params.check_offset
    }

    pub open spec fn advance(self, velocity: u32) -> DispenseAction {
        DispenseAction::Advance {
            velocity,
            distance: advance_distance(velocity, self.params.sample_interval) as u64,
        }
    }

    pub open spec fn median_request(self) -> DispenseAction {
        DispenseAction::ReadMedian { samples: self.params.samples, interval: self.params.sample_interval }
    }

    /// End the dispense as `Failed`.
    pub open spec fn fail(self) -> (Self, DispenseAction) {
        (
            Dispenser { phase: DispensePhase::Done, outcome: DispenseEndCondition::Failed, ..self },
            DispenseAction::Finish(DispenseEndCondition::Failed),
        )
    }

    /// Record `outcome` and retract if the parameters ask for it, else finish.
    pub open spec fn conclude(self, outcome: DispenseEndCondition) -> (Self, DispenseAction) {
        match self.params.reverse_after {
            Some(d) => (Dispenser { phase: DispensePhase::Returning, outcome, ..self }, DispenseAction::Retract(d)),
            None => (Dispenser { phase: DispensePhase::Done, outcome, ..self }, DispenseAction::Finish(outcome)),
        }
    }

    /// The state after `e` and the operation to perform next.
    pub open spec fn next(self, e: DispenseEvent) -> (Self, DispenseAction) {
        match self.phase {
            DispensePhase::Done => (self, DispenseAction::Finish(self.outcome)),
            DispensePhase::Idle => match e {
                DispenseEvent::Begin => match self.params.reverse_before {
                    Some(d) => (Dispenser { phase: DispensePhase::Retracting, ..self }, DispenseAction::Retract(d)),
                    None => (Dispenser { phase: DispensePhase::Taring, ..self }, self.median_request()),
                },
                _ => self.fail(),
            },
            DispensePhase::Retracting => match e {
                DispenseEvent::MoveDone => (Dispenser { phase: DispensePhase::Taring, ..self }, self.median_request()),
                _ => self.fail(),
            },
            DispensePhase::Taring => match e {
                DispenseEvent::Median(w) => (
                    Dispenser { phase: DispensePhase::Waiting, start_weight: w, last_weight: w, ..self },
                    DispenseAction::AwaitTick,
                ),
                _ => self.fail(),
            },
            DispensePhase::Waiting => match e {
                DispenseEvent::Tick(t) => if t > self.timeout {
                    (
                        Dispenser {
                            phase: DispensePhase::Stopping,
                            outcome: DispenseEndCondition::Timeout(self.last_weight),
                            abrupt_stop_sent: true,
                            ..self
                        },
                        DispenseAction::AbruptStop,
                    )
                } else {
                    (Dispenser { phase: DispensePhase::Sampling, ..self }, DispenseAction::ReadWeight)
                },
                _ => self.fail(),
            },
            DispensePhase::Sampling => match e {
                DispenseEvent::Weight(w) => if self.near_target(w as int) {
                    (
                        Dispenser { phase: DispensePhase::Verifying, last_weight: w, ..self },
                        DispenseAction::StopAndVerify {
                            samples: self.params.samples,
                            interval: self.params.sample_interval,
                        },
                    )
                } else {
                    (
                        Dispenser { phase: DispensePhase::Waiting, last_weight: w, ..self },
                        self.advance(
                            proportional_velocity(self.params, w as int, self.start_weight as int, self.target_grams) as u32,
                        ),
                    )
                },
                _ => self.fail(),
            },
            DispensePhase::Verifying => match e {
                DispenseEvent::Median(m) => if self.near_target(m as int) {
                    Dispenser { last_weight: m, ..self }.conclude(DispenseEndCondition::WeightAchieved(m))
                } else {
                    (
                        Dispenser { phase: DispensePhase::Waiting, last_weight: m, ..self },
                        self.advance(self.params.min_speed),
                    )
                },
                _ => self.fail(),
            },
            DispensePhase::Stopping => match e {
                DispenseEvent::MoveDone => self.conclude(self.outcome),
                _ => self.fail(),
            },
            DispensePhase::Returning => match e {
                DispenseEvent::MoveDone => (
                    Dispenser { phase: DispensePhase::Done, ..self },
                    DispenseAction::Finish(self.outcome),
                ),
                _ => self.fail(),
            },
        }
    }

    /// A dispense of `setpoint` with `params`, not yet begun.
    pub fn new(setpoint: Setpoint, params: DispenseParameters) -> (d: Self)
        requires
            params.wf(),
        ensures
            d.wf(),
            d.params == params,
            d.phase == DispensePhase::Idle,
            setpoint matches Setpoint::Weight { target_grams, timeout } && d.target_grams == target_grams
                && d.timeout == timeout,
            d.outcome == DispenseEndCondition::Failed,
            !d.abrupt_stop_sent,
    {
        match setpoint {
            Setpoint::Weight { target_grams, timeout } => Dispenser {
                params,
                target_grams,
                timeout,
                phase: DispensePhase::Idle,
                start_weight: 0,
                last_weight: 0,
                outcome: DispenseEndCondition::Failed,
                abrupt_stop_sent: false,
            },
        }
    }

    fn near_target_exec(&self, w: i64) -> (r: bool)
        ensures
            r == self.near_target(w as int),
    {
        let target: i128 = self.start_weight as i128 - self.target_grams as i128 * 1000;
        (w as i128) < target + self.params.check_offset as i128
    }

    fn advance_exec(&self, velocity: u32) -> (a: DispenseAction)
        ensures
            a == self.advance(velocity),
    {
        let v: u64 = velocity as u64;
        let i: u64 = if self.params.sample_interval == 0 {
            1
        } else {
            self.params.sample_interval as u64
        };
        proof {
            assert(v * i <= 0xffff_ffff * 0xffff_ffff) by (nonlinear_arith)
                requires v <= 0xffff_ffff, i <= 0xffff_ffff;
        }
        DispenseAction::Advance {
            velocity,
            distance: (v * i + 999) / 1000,
        }
    }

    fn fail_exec(&mut self) -> (a: DispenseAction)
        ensures
            (*final(self), a) == old(self).fail(),
    {
        self.phase = DispensePhase::Done;
        self.outcome = DispenseEndCondition::Failed;
        DispenseAction::Finish(DispenseEndCondition::Failed)
    }

    fn conclude_exec(&mut self, outcome: DispenseEndCondition) -> (a: DispenseAction)
        ensures
            (*final(self), a) == old(self).conclude(outcome),
    {
        self.outcome = outcome;
        match self.params.reverse_after {
            Some(d) => {
                self.phase = DispensePhase::Returning;
                DispenseAction::Retract(d)
            },
            None => {
                self.phase = DispensePhase::Done;
                DispenseAction::Finish(outcome)
            },
        }
    }

    /// Feed the report of the last operation; returns the next one.
    ///
    /// Every forward move runs inside the speed envelope and, at a positive
    /// velocity, has a positive length. A reported `WeightAchieved` reading
    /// lies below the start weight less the target plus the check offset. A
    /// tick past the timeout stops the motor abruptly and records `Timeout`,
    /// and `Timeout` is reported only once an abrupt stop has been commanded.
    pub fn step(&mut self, e: DispenseEvent) -> (a: DispenseAction)
        requires
            old(self).wf(),
        ensures
            (*final(self), a) == old(self).next(e),
            final(self).wf(),
            old(self).inv() ==> final(self).inv(),
            a matches DispenseAction::Advance { velocity, distance } ==> {
                &&& final(self).params.min_speed <= velocity <= final(self).params.motor_speed
                &&& (velocity > 0 ==> distance > 0)
            },
            old(self).inv() ==> (a matches DispenseAction::Finish(DispenseEndCondition::WeightAchieved(w))
                ==> w <= final(self).start_weight - mass_of(final(self).target_grams)
                + final(self).params.check_offset),
            old(self).inv() ==> (a matches DispenseAction::Finish(DispenseEndCondition::Timeout(_))
                ==> final(self).abrupt_stop_sent),
            (old(self).phase is Waiting && (e matches DispenseEvent::Tick(t) && t > old(self).timeout)) ==> {
                &&& a == DispenseAction::AbruptStop
                &&& final(self).outcome == DispenseEndCondition::Timeout(old(self).last_weight)
            },
    {
        let ghost d = *self;
        let a = self.step_transition(e);
        proof {
            if d.inv() {
                lemma_step_keeps_inv(d, e);
                lemma_achieved_within_tolerance(d, e);
                lemma_timeout_stops_motor(d, e);
            }
            lemma_advance_in_envelope(d, e);
            if let DispenseAction::Advance { velocity, distance } = a {
                if velocity > 0 {
                    lemma_advance_distance_positive(velocity, d.params.sample_interval);
                }
            }
        }
        a
    }

    fn step_transition(&mut self, e: DispenseEvent) -> (a: DispenseAction)
        requires
            old(self).wf(),
        ensures
            (*final(self), a) == old(self).next(e),
            final(self).wf(),
    {
        let median = DispenseAction::ReadMedian { samples: self.params.samples, interval: self.params.sample_interval };
        match self.phase {
            DispensePhase::Done => DispenseAction::Finish(self.outcome),
            DispensePhase::Idle => match e {
                DispenseEvent::Begin => match self.params.reverse_before {
                    Some(d) => {
                        self.phase = DispensePhase::Retracting;
                        DispenseAction::Retract(d)
                    },
                    None => {
                        self.phase = DispensePhase::Taring;
                        median
                    },
                },
                _ => self.fail_exec(),
            },
            DispensePhase::Retracting => match e {
                DispenseEvent::MoveDone => {
                    self.phase = DispensePhase::Taring;
                    median
                },
                _ => self.fail_exec(),
            },
            DispensePhase::Taring => match e {
                DispenseEvent::Median(w) => {
                    self.phase = DispensePhase::Waiting;
                    self.start_weight = w;
                    self.last_weight = w;
                    DispenseAction::AwaitTick
                },
                _ => self.fail_exec(),
            },
            DispensePhase::Waiting => match e {
                DispenseEvent::Tick(t) => if t > self.timeout {
                    self.phase = DispensePhase::Stopping;
                    self.outcome = DispenseEndCondition::Timeout(self.last_weight);
                    self.abrupt_stop_sent = true;
                    DispenseAction::AbruptStop
                } else {
                    self.phase = DispensePhase::Sampling;
                    DispenseAction::ReadWeight
                },
                _ => self.fail_exec(),
            },
            DispensePhase::Sampling => match e {
                DispenseEvent::Weight(w) => if self.near_target_exec(w) {
                    self.phase = DispensePhase::Verifying;
                    self.last_weight = w;
                    DispenseAction::StopAndVerify {
                        samples: self.params.samples,
                        interval: self.params.sample_interval,
                    }
                } else {
                    let v = dispense_velocity(&self.params, w, self.start_weight, self.target_grams);
                    let a = self.advance_exec(v);
                    self.phase = DispensePhase::Waiting;
                    self.last_weight = w;
                    a
                },
                _ => self.fail_exec(),
            },
            DispensePhase::Verifying => match e {
                DispenseEvent::Median(m) => if self.near_target_exec(m) {
                    self.last_weight = m;
                    self.conclude_exec(DispenseEndCondition::WeightAchieved(m))
                } else {
                    let a = self.advance_exec(self.params.min_speed);
                    self.phase = DispensePhase::Waiting;
                    self.last_weight = m;
                    a
                },
                _ => self.fail_exec(),
            },
            DispensePhase::Stopping => match e {
                DispenseEvent::MoveDone => {
                    let outcome = self.outcome;
                    self.conclude_exec(outcome)
                },
                _ => self.fail_exec(),
            },
            DispensePhase::Returning => match e {
                DispenseEvent::MoveDone => {
                    self.phase = DispensePhase::Done;
                    DispenseAction::Finish(self.outcome)
                },
                _ => self.fail_exec(),
            },
        }
    }
}


impl Dispenser {
    /// What holds of every state a dispense passes through.
    pub open spec fn inv(self) -> bool {
        &&& self.wf()
        &&& (self.outcome matches DispenseEndCondition::WeightAchieved(w) ==> self.near_target(w as int))
        &&& (self.outcome is Timeout ==> self.abrupt_stop_sent)
        &&& (self.phase is Stopping ==> self.outcome is Timeout)
        &&& (!(self.phase is Stopping || self.phase is Returning || self.phase is Done)
            ==> self.outcome is Failed)
    }
}

/// A dispense that has not begun satisfies the invariant.
pub proof fn lemma_new_dispense_inv(d: Dispenser)
    requires
        d.wf(),
        d.phase is Idle,
        d.outcome is Failed,
    ensures
        d.inv(),
{
}

/// Every step keeps the invariant.
pub proof fn lemma_step_keeps_inv(d: Dispenser, e: DispenseEvent)
    requires
        d.inv(),
    ensures
        d.next(e).0.inv(),
{
}

/// Whatever the error, the commanded velocity lies in `[min_speed, motor_speed]`.
pub proof fn lemma_velocity_in_envelope(p: DispenseParameters, current: int, start: int, target_grams: u64)
    requires
        p.wf(),
    ensures
        p.min_speed <= proportional_velocity(p, current, start, target_grams) <= p.motor_speed,
{
}

/// Every forward move of a dispense runs at a velocity inside the speed envelope.
pub proof fn lemma_advance_in_envelope(d: Dispenser, e: DispenseEvent)
    requires
        d.wf(),
    ensures
        d.next(e).1 matches DispenseAction::Advance { velocity, .. }
            ==> d.params.min_speed <= velocity <= d.params.motor_speed,
{
    if d.phase is Sampling {
        if let DispenseEvent::Weight(w) = e {
            lemma_velocity_in_envelope(d.params, w as int, d.start_weight as int, d.target_grams);
        }
    }
}

/// A dispense that reports the target reached reports a weight no higher than
/// the start weight less the target mass plus the check offset.
pub proof fn lemma_achieved_within_tolerance(d: Dispenser, e: DispenseEvent)
    requires
        d.inv(),
    ensures
        ({
            let (d2, a) = d.next(e);
            &&& (a matches DispenseAction::Finish(DispenseEndCondition::WeightAchieved(w))
                ==> w <= d2.start_weight - mass_of(d2.target_grams) + d2.params.check_offset)
            &&& (d2.outcome matches DispenseEndCondition::WeightAchieved(w)
                ==> w <= d2.start_weight - mass_of(d2.target_grams) + d2.params.check_offset)
        }),
{
    lemma_step_keeps_inv(d, e);
}

/// Passing the timeout stops the motor abruptly and records `Timeout` with the
/// last reading; that outcome then stands, and a dispense never finishes with
/// `Timeout` without an abrupt stop having been commanded.
pub proof fn lemma_timeout_stops_motor(d: Dispenser, e: DispenseEvent)
    requires
        d.inv(),
    ensures
        ({
            let (d2, a) = d.next(e);
            &&& (d.phase is Waiting && (e matches DispenseEvent::Tick(t) && t > d.timeout))
                ==> a == DispenseAction::AbruptStop && d2.outcome == DispenseEndCondition::Timeout(d.last_weight)
            &&& ((d.phase is Stopping || d.phase is Returning) && e is MoveDone) ==> d2.outcome == d.outcome
            &&& (a matches DispenseAction::Finish(DispenseEndCondition::Timeout(_)) ==> d2.abrupt_stop_sent)
        }),
{
    lemma_step_keeps_inv(d, e);
}

impl Dispenser {
    /// The state after the reports `es`, fed in order.
    pub open spec fn after(self, es: Seq<DispenseEvent>) -> Self
        decreases es.len(),
    {
        if es.len() == 0 {
            self
        } else {
            self.next(es[0]).0.after(es.drop_first())
        }
    }
}

/// Over a whole dispense, whatever the hardware reports: the outcome is
/// `WeightAchieved` only with a reading no higher than the start weight less
/// the target mass plus the check offset, so a run whose readings never come
/// that low never reports the target reached; and the outcome is `Timeout`
/// only once an abrupt stop has been commanded.
pub proof fn lemma_dispense_run(d: Dispenser, es: Seq<DispenseEvent>)
    requires
        d.inv(),
    ensures
        ({
            let d2 = d.after(es);
            &&& d2.inv()
            &&& (d2.outcome matches DispenseEndCondition::WeightAchieved(w)
                ==> w <= d2.start_weight - mass_of(d2.target_grams) + d2.params.check_offset)
            &&& (d2.outcome is Timeout ==> d2.abrupt_stop_sent)
        }),
    decreases es.len(),
{
    if es.len() > 0 {
        lemma_step_keeps_inv(d, es[0]);
        lemma_dispense_run(d.next(es[0]).0, es.drop_first());
    }
}

} // verus!
