//! The machine's cycle loop: what to do next for the run state, the sensors
//! and the operator's requests.

use vstd::prelude::*;
use crate::config::DispenseConfig;
use crate::dispense::{DispenseEndCondition, DispenseParameters, Setpoint};
use crate::hatch::HatchError;
use crate::state::{AppData, AppView, DataAction, IchibuState, LogEntry, PhotoEyeState, UiRequest, snack_id};

verus! {

/// Consecutive dispense timeouts after which the hopper counts as empty.
pub const TIMEOUT_THRESHOLD: usize = 3;

/// Pause of an idle iteration, in milliseconds.
pub const IDLE_PAUSE: u64 = 1000;

/// Pause between closing the hatch and dispensing, in milliseconds.
pub const SETTLE_PAUSE: u64 = 2000;

/// Interval between looks at the operator's request, in milliseconds.
pub const REQUEST_POLL: u64 = 250;

/// Interval between looks at the presence sensor, in milliseconds.
pub const BOWL_POLL: u64 = 250;

/// Pause for the bowl to drop after the hatch opens, in milliseconds.
pub const DROP_PAUSE: u64 = 1000;

/// Conveyor advance of one emptying step, in thousandths of the motor's unit.
pub const PURGE_STEP: u32 = 10_000;

/// Where the cycle loop stands.
#[derive(Clone, Copy, Debug, PartialEq, Eq, Structural)]
pub enum CyclePhase {
    /// Not started.
    Idle,
    /// Waiting out a pause or a conveyor command; then back to the top of the loop.
    Pausing,
    /// Cleaning: opening the hatch.
    CleanOpening,
    /// Stopping and disabling the conveyor, then pausing.
    Halting,
    /// Emptying: opening the hatch.
    EmptyOpening,
    /// Running: closing the hatch.
    Closing,
    /// Running: pausing before the first dispense.
    Settling,
    /// Running: the first dispense.
    Primary,
    /// Running: waiting for the operator's request.
    Selecting,
    /// Running: the dispense that completes a sized serving.
    Secondary,
    /// Running: waiting for a bowl in front of the sensor.
    AwaitingBowl,
    /// Running: opening the hatch to drop the serving.
    Opening,
    /// Running: pausing while the serving drops.
    Dropping,
}

/// What the program reports back after a [`CycleAction`].
#[derive(Clone, Copy, Debug, PartialEq, Eq)]
pub enum CycleEvent {
    /// A pause or a conveyor command has completed.
    Done,
    /// A hatch motion has ended.
    Hatch(Result<(), HatchError>),
    /// A dispense has ended.
    Dispensed(DispenseEndCondition),
}

/// The next operation of the cycle loop.
#[derive(Clone, Copy, Debug, PartialEq, Eq, Structural)]
pub enum CycleAction {
    /// Wait this many milliseconds; report `Done`.
    Sleep(u64),
    /// Open the hatch; report `Hatch`.
    OpenHatch,
    /// Close the hatch; report `Hatch`.
    CloseHatch,
    /// Stop the conveyor abruptly and disable it; report `Done`.
    HaltConveyor,
    /// Enable the conveyor, wait 100 ms and advance it by the distance; report `Done`.
    Purge(u32),
    /// Enable the conveyor and run a dispense; report `Dispensed`.
    Dispense { setpoint: Setpoint, params: DispenseParameters },
}

/// The machine state with the consecutive-timeout count raised by one; it
/// stops at the largest `usize`.
pub open spec fn count_timeout(v: AppView) -> AppView {
    AppView {
        cycle_dispense_count: if v.cycle_dispense_count < usize::MAX {
            (v.cycle_dispense_count + 1) as usize
        } else {
            v.cycle_dispense_count
        },
        ..v
    }
}

/// The hopper counts as empty: dispensing is blocked, the machine goes back
/// to `Ready` and `RanOut` is logged.
pub open spec fn ran_out(v: AppView) -> AppView {
    AppView { dispenser_has_timed_out: true, state: IchibuState::Ready, ..v.logged(DataAction::RanOut) }
}

/// The dispense loop of the machine, one operation at a time. It reads and
/// changes the shared machine state only inside [`CycleLoop::step`], never
/// while an operation is under way.
#[derive(Clone, Copy, Debug, PartialEq, Eq, Structural)]
pub struct CycleLoop {
    pub phase: CyclePhase,
    /// Overall time allowed to each dispense, in milliseconds.
    pub dispense_timeout: u64,
    /// Setpoints of the ingredient of the current cycle, in grams.
    pub max_setpoint: usize,
    pub min_setpoint: usize,
    /// Dispense parameters of the ingredient of the current cycle.
    pub params: DispenseParameters,
    /// The current cycle serves in two steps.
    pub sized: bool,
}

impl CycleLoop {
    /// Every dispense the loop asks for has valid parameters, and the
    /// serving's smaller size is not above its full size.
    pub open spec fn inv(self) -> bool {
        self.params.wf() && self.min_setpoint <= self.max_setpoint
    }

    /// Grams of the first dispense of a cycle.
    pub open spec fn primary_grams(self) -> u64 {
        if self.sized {
            self.min_setpoint as u64
        } else {
            self.max_setpoint as u64
        }
    }

    /// Grams of the dispense that completes a sized serving.
    pub open spec fn secondary_grams(self) -> u64 {
        (self.max_setpoint - self.min_setpoint) as u64
    }

    pub open spec fn dispense_of(self, grams: u64) -> CycleAction {
        CycleAction::Dispense {
            setpoint: Setpoint::Weight { target_grams: grams, timeout: self.dispense_timeout },
            params: self.params,
        }
    }

    pub open spec fn pause(self, v: AppView, ms: u64) -> (Self, AppView, CycleAction) {
        (CycleLoop { phase: CyclePhase::Pausing, ..self }, v, CycleAction::Sleep(ms))
    }

    /// The top of the loop: act on the run state.
    pub open spec fn dispatch(self, v: AppView) -> (Self, AppView, CycleAction) {
        match v.state {
            IchibuState::Ready => self.pause(v, IDLE_PAUSE),
            IchibuState::Cleaning => (CycleLoop { phase: CyclePhase::CleanOpening, ..self }, v, CycleAction::OpenHatch),
            IchibuState::Emptying => if v.pe_state is Blocked {
                (CycleLoop { phase: CyclePhase::EmptyOpening, ..self }, v, CycleAction::OpenHatch)
            } else {
                (CycleLoop { phase: CyclePhase::Halting, ..self }, v, CycleAction::HaltConveyor)
            },
            IchibuState::RunningClassic | IchibuState::RunningSized => match v.current_snack {
                Some(snack) => if snack.dispense_settings.wf() && snack.min_setpoint <= snack.max_setpoint {
                    (
                        CycleLoop {
                            phase: CyclePhase::Closing,
                            max_setpoint: snack.max_setpoint,
                            min_setpoint: snack.min_setpoint,
                            params: snack.dispense_settings,
                            sized: v.state is RunningSized,
                            ..self
                        },
                        v,
                        CycleAction::CloseHatch,
                    )
                } else {
                    self.pause(v, IDLE_PAUSE)
                },
                None => self.pause(v, IDLE_PAUSE),
            },
        }
    }

    /// The serving is settled: leave for cleaning or emptying if asked, else
    /// open the hatch.
    pub open spec fn finish_cycle(self, v: AppView) -> (Self, AppView, CycleAction) {
        if v.state is Cleaning {
            self.dispatch(v.logged(DataAction::Cleaning))
        } else if v.state is Emptying {
            self.dispatch(v.logged(DataAction::Emptying))
        } else {
            (CycleLoop { phase: CyclePhase::Opening, ..self }, v, CycleAction::OpenHatch)
        }
    }

    /// Wait for a bowl in front of the sensor, then finish the cycle.
    pub open spec fn await_bowl(self, v: AppView) -> (Self, AppView, CycleAction) {
        if v.pe_state is Blocked {
            self.finish_cycle(v)
        } else {
            (CycleLoop { phase: CyclePhase::AwaitingBowl, ..self }, v, CycleAction::Sleep(BOWL_POLL))
        }
    }

    /// Act on the operator's request after a successful first dispense.
    pub open spec fn select(self, v: AppView) -> (Self, AppView, CycleAction) {
        if v.state is Cleaning {
            self.dispatch(v.logged(DataAction::Cleaning))
        } else if v.state is Emptying {
            self.dispatch(v.logged(DataAction::Emptying))
        } else {
            match v.ui_request {
                UiRequest::NoRequest => (
                    CycleLoop { phase: CyclePhase::Selecting, ..self },
                    v,
                    CycleAction::Sleep(REQUEST_POLL),
                ),
                UiRequest::SmallDispense => if !v.dispenser_has_timed_out {
                    self.await_bowl(v.logged(DataAction::DispensedSmall))
                } else {
                    self.await_bowl(AppView { state: IchibuState::Ready, ..v.logged(DataAction::RanOut) })
                },
                UiRequest::RegularDispense => if self.sized {
                    (
                        CycleLoop { phase: CyclePhase::Secondary, ..self },
                        AppView { dispenser_busy: true, ..v },
                        self.dispense_of(self.secondary_grams()),
                    )
                } else {
                    self.await_bowl(v.logged(DataAction::DispensedRegular))
                },
            }
        }
    }

    /// The first dispense of a cycle ended with `o`.
    pub open spec fn after_primary(self, v: AppView, o: DispenseEndCondition) -> (Self, AppView, CycleAction) {
        let idle = AppView { dispenser_busy: false, ..v };
        match o {
            DispenseEndCondition::WeightAchieved(_) => self.select(AppView { cycle_dispense_count: 0, ..idle }),
            DispenseEndCondition::Timeout(_) => if count_timeout(idle).cycle_dispense_count >= TIMEOUT_THRESHOLD {
                self.dispatch(ran_out(count_timeout(idle)))
            } else {
                self.dispatch(count_timeout(idle))
            },
            DispenseEndCondition::Failed => self.pause(idle, IDLE_PAUSE),
        }
    }

    /// The dispense that completes a sized serving ended with `o`.
    pub open spec fn after_secondary(self, v: AppView, o: DispenseEndCondition) -> (Self, AppView, CycleAction) {
        let idle = AppView { dispenser_busy: false, ..v };
        match o {
            DispenseEndCondition::WeightAchieved(_) => self.await_bowl(
                AppView { cycle_dispense_count: 0, ..idle }.logged(DataAction::DispensedRegular),
            ),
            DispenseEndCondition::Timeout(_) => if count_timeout(idle).cycle_dispense_count >= TIMEOUT_THRESHOLD {
                self.dispatch(ran_out(count_timeout(idle)))
            } else {
                self.select(AppView { ui_request: UiRequest::NoRequest, ..count_timeout(idle) })
            },
            DispenseEndCondition::Failed => self.select(AppView { ui_request: UiRequest::NoRequest, ..idle }),
        }
    }

    /// The state after `e`, the machine state after it, and the operation to perform next.
    pub open spec fn next(self, v: AppView, e: CycleEvent) -> (Self, AppView, CycleAction) {
        let idle = AppView { dispenser_busy: false, ..v };
        match (self.phase, e) {
            (CyclePhase::Idle, _) => self.dispatch(v),
            (CyclePhase::Pausing, CycleEvent::Done) => self.dispatch(v),
            (CyclePhase::CleanOpening, CycleEvent::Hatch(_)) => (
                CycleLoop { phase: CyclePhase::Halting, ..self },
                v,
                CycleAction::HaltConveyor,
            ),
            (CyclePhase::Halting, CycleEvent::Done) => self.pause(v, IDLE_PAUSE),
            (CyclePhase::EmptyOpening, CycleEvent::Hatch(r)) => match r {
                Ok(_) => (CycleLoop { phase: CyclePhase::Pausing, ..self }, v, CycleAction::Purge(PURGE_STEP)),
                Err(_) => self.dispatch(v),
            },
            (CyclePhase::Closing, CycleEvent::Hatch(_)) => if v.dispenser_has_timed_out {
                self.pause(v, IDLE_PAUSE)
            } else {
                (
                    CycleLoop { phase: CyclePhase::Settling, ..self },
                    AppView { dispenser_busy: true, ..v },
                    CycleAction::Sleep(SETTLE_PAUSE),
                )
            },
            (CyclePhase::Settling, CycleEvent::Done) => (
                CycleLoop { phase: CyclePhase::Primary, ..self },
                v,
                self.dispense_of(self.primary_grams()),
            ),
            (CyclePhase::Primary, CycleEvent::Dispensed(o)) => self.after_primary(v, o),
            (CyclePhase::Selecting, CycleEvent::Done) => self.select(v),
            (CyclePhase::Secondary, CycleEvent::Dispensed(o)) => self.after_secondary(v, o),
            (CyclePhase::AwaitingBowl, CycleEvent::Done) => self.await_bowl(v),
            (CyclePhase::Opening, CycleEvent::Hatch(_)) => (
                CycleLoop { phase: CyclePhase::Dropping, ..self },
                v,
                CycleAction::Sleep(DROP_PAUSE),
            ),
            (CyclePhase::Dropping, CycleEvent::Done) => self.dispatch(AppView { ui_request: UiRequest::NoRequest, ..v }),
            _ => self.pause(idle, IDLE_PAUSE),
        }
    }
}


/// A dispense of the running cycle that times out raises the count of
/// consecutive timeouts by one. The timeout that brings the count to
/// [`TIMEOUT_THRESHOLD`] blocks dispensing, returns the machine to `Ready` and
/// logs `RanOut`; an earlier one leaves the flag as it was and, while the
/// machine is still running, logs nothing.
pub proof fn lemma_timeout_escalation(c: CycleLoop, v: AppView, w: i64)
    requires
        c.inv(),
        c.phase is Primary || c.phase is Secondary,
        v.cycle_dispense_count < usize::MAX,
    ensures
        ({
            let (c2, v2, a) = c.next(v, CycleEvent::Dispensed(DispenseEndCondition::Timeout(w)));
            &&& v2.cycle_dispense_count == v.cycle_dispense_count + 1
            &&& !v2.dispenser_busy
            &&& (v.cycle_dispense_count + 1 >= TIMEOUT_THRESHOLD ==> {
                &&& v2.dispenser_has_timed_out
                &&& v2.state == IchibuState::Ready
                &&& v2.log == v.log.push(
                    LogEntry { action: DataAction::RanOut, ingredient: snack_id(v.current_snack) },
                )
            })
            &&& (v.cycle_dispense_count + 1 < TIMEOUT_THRESHOLD ==> {
                &&& v2.dispenser_has_timed_out == v.dispenser_has_timed_out
                &&& ((v.state is RunningClassic || v.state is RunningSized) ==> v2.log == v.log)
            })
        }),
{
}

/// A dispense of the running cycle that reaches its target ends the run of
/// consecutive timeouts and leaves the timed-out flag as it was.
pub proof fn lemma_success_resets_timeouts(c: CycleLoop, v: AppView, w: i64)
    requires
        c.inv(),
        c.phase is Primary || c.phase is Secondary,
    ensures
        ({
            let (c2, v2, a) = c.next(v, CycleEvent::Dispensed(DispenseEndCondition::WeightAchieved(w)));
            v2.cycle_dispense_count == 0 && v2.dispenser_has_timed_out == v.dispenser_has_timed_out
        }),
{
}

/// Only the end of a dispense changes the timeout record: every other step
/// leaves the count of consecutive timeouts and the timed-out flag alone.
pub proof fn lemma_timeout_record_kept(c: CycleLoop, v: AppView, e: CycleEvent)
    requires
        c.inv(),
        !(c.phase is Primary || c.phase is Secondary),
    ensures
        ({
            let (c2, v2, a) = c.next(v, e);
            v2.cycle_dispense_count == v.cycle_dispense_count
                && v2.dispenser_has_timed_out == v.dispenser_has_timed_out
        }),
{
}

fn count_timeout_exec(app: &mut AppData)
    ensures
        final(app)@ == count_timeout(old(app)@),
{
    if app.cycle_dispense_count < usize::MAX {
        app.cycle_dispense_count = app.cycle_dispense_count + 1;
    }
}

fn ran_out_exec(app: &mut AppData)
    ensures
        final(app)@ == ran_out(old(app)@),
{
    app.log_action(DataAction::RanOut);
    app.dispenser_has_timed_out = true;
    app.state = IchibuState::Ready;
}

impl CycleLoop {
    /// A loop that has not started, dispensing with `dispense`'s timeout.
    pub fn new(dispense: DispenseConfig) -> (c: Self)
        ensures
            c.inv(),
            c.phase == CyclePhase::Idle,
            c.dispense_timeout == dispense.timeout,
    {
        CycleLoop {
            phase: CyclePhase::Idle,
            dispense_timeout: dispense.timeout,
            max_setpoint: 0,
            min_setpoint: 0,
            params: DispenseParameters {
                motor_speed: 0,
                min_speed: 0,
                check_offset: 0,
                sample_interval: 0,
                samples: 0,
                reverse_before: None,
                reverse_after: None,
            },
            sized: false,
        }
    }

    fn dispense_exec(&self, grams: u64) -> (a: CycleAction)
        ensures
            a == self.dispense_of(grams),
    {
        CycleAction::Dispense {
            setpoint: Setpoint::Weight { target_grams: grams, timeout: self.dispense_timeout },
            params: self.params,
        }
    }

    fn pause_exec(&mut self, ms: u64) -> (a: CycleAction)
        ensures
            *final(self) == (CycleLoop { phase: CyclePhase::Pausing, ..*old(self) }),
            a == CycleAction::Sleep(ms),
    {
        self.phase = CyclePhase::Pausing;
        CycleAction::Sleep(ms)
    }

    fn dispatch_exec(&mut self, app: &AppData) -> (a: CycleAction)
        requires
            old(self).inv(),
        ensures
            (*final(self), app@, a) == old(self).dispatch(app@),
            final(self).inv(),
    {
        match app.state {
            IchibuState::Ready => self.pause_exec(IDLE_PAUSE),
            IchibuState::Cleaning => {
                self.phase = CyclePhase::CleanOpening;
                CycleAction::OpenHatch
            },
            IchibuState::Emptying => match app.pe_state {
                PhotoEyeState::Blocked => {
                    self.phase = CyclePhase::EmptyOpening;
                    CycleAction::OpenHatch
                },
                PhotoEyeState::Unblocked => {
                    self.phase = CyclePhase::Halting;
                    CycleAction::HaltConveyor
                },
            },
            IchibuState::RunningClassic | IchibuState::RunningSized => match &app.current_snack {
                Some(snack) => if snack.dispense_settings.is_valid() && snack.min_setpoint <= snack.max_setpoint {
                    self.phase = CyclePhase::Closing;
                    self.max_setpoint = snack.max_setpoint;
                    self.min_setpoint = snack.min_setpoint;
                    self.params = snack.dispense_settings;
                    self.sized = app.state == IchibuState::RunningSized;
                    CycleAction::CloseHatch
                } else {
                    self.pause_exec(IDLE_PAUSE)
                },
                None => self.pause_exec(IDLE_PAUSE),
            },
        }
    }

    fn finish_cycle_exec(&mut self, app: &mut AppData) -> (a: CycleAction)
        requires
            old(self).inv(),
        ensures
            (*final(self), final(app)@, a) == old(self).finish_cycle(old(app)@),
            final(self).inv(),
    {
        match app.state {
            IchibuState::Cleaning => {
                app.log_action(DataAction::Cleaning);
                self.dispatch_exec(app)
            },
            IchibuState::Emptying => {
                app.log_action(DataAction::Emptying);
                self.dispatch_exec(app)
            },
            _ => {
                self.phase = CyclePhase::Opening;
                CycleAction::OpenHatch
            },
        }
    }

    fn await_bowl_exec(&mut self, app: &mut AppData) -> (a: CycleAction)
        requires
            old(self).inv(),
        ensures
            (*final(self), final(app)@, a) == old(self).await_bowl(old(app)@),
            final(self).inv(),
    {
        match app.pe_state {
            PhotoEyeState::Blocked => self.finish_cycle_exec(app),
            PhotoEyeState::Unblocked => {
                self.phase = CyclePhase::AwaitingBowl;
                CycleAction::Sleep(BOWL_POLL)
            },
        }
    }

    fn select_exec(&mut self, app: &mut AppData) -> (a: CycleAction)
        requires
            old(self).inv(),
        ensures
            (*final(self), final(app)@, a) == old(self).select(old(app)@),
            final(self).inv(),
    {
        match app.state {
            IchibuState::Cleaning => {
                app.log_action(DataAction::Cleaning);
                return self.dispatch_exec(app);
            },
            IchibuState::Emptying => {
                app.log_action(DataAction::Emptying);
                return self.dispatch_exec(app);
            },
            _ => {},
        }
        match app.ui_request {
            UiRequest::NoRequest => {
                self.phase = CyclePhase::Selecting;
                CycleAction::Sleep(REQUEST_POLL)
            },
            UiRequest::SmallDispense => {
                if !app.dispenser_has_timed_out {
                    app.log_action(DataAction::DispensedSmall);
                } else {
                    app.log_action(DataAction::RanOut);
                    app.state = IchibuState::Ready;
                }
                self.await_bowl_exec(app)
            },
            UiRequest::RegularDispense => if self.sized {
                self.phase = CyclePhase::Secondary;
                app.dispenser_busy = true;
                let grams: u64 = (self.max_setpoint - self.min_setpoint) as u64;
                self.dispense_exec(grams)
            } else {
                app.log_action(DataAction::DispensedRegular);
                self.await_bowl_exec(app)
            },
        }
    }

    fn after_primary_exec(&mut self, app: &mut AppData, o: DispenseEndCondition) -> (a: CycleAction)
        requires
            old(self).inv(),
        ensures
            (*final(self), final(app)@, a) == old(self).after_primary(old(app)@, o),
            final(self).inv(),
    {
        app.dispenser_busy = false;
        match o {
            DispenseEndCondition::WeightAchieved(_) => {
                app.cycle_dispense_count = 0;
                self.select_exec(app)
            },
            DispenseEndCondition::Timeout(_) => {
                count_timeout_exec(app);
                if app.cycle_dispense_count >= TIMEOUT_THRESHOLD {
                    ran_out_exec(app);
                }
                self.dispatch_exec(app)
            },
            DispenseEndCondition::Failed => self.pause_exec(IDLE_PAUSE),
        }
    }

    fn after_secondary_exec(&mut self, app: &mut AppData, o: DispenseEndCondition) -> (a: CycleAction)
        requires
            old(self).inv(),
        ensures
            (*final(self), final(app)@, a) == old(self).after_secondary(old(app)@, o),
            final(self).inv(),
    {
        app.dispenser_busy = false;
        match o {
            DispenseEndCondition::WeightAchieved(_) => {
                app.cycle_dispense_count = 0;
                app.log_action(DataAction::DispensedRegular);
                self.await_bowl_exec(app)
            },
            DispenseEndCondition::Timeout(_) => {
                count_timeout_exec(app);
                if app.cycle_dispense_count >= TIMEOUT_THRESHOLD {
                    ran_out_exec(app);
                    self.dispatch_exec(app)
                } else {
                    app.ui_request = UiRequest::NoRequest;
                    self.select_exec(app)
                }
            },
            DispenseEndCondition::Failed => {
                app.ui_request = UiRequest::NoRequest;
                self.select_exec(app)
            },
        }
    }

    /// Feed the report of the last operation; returns the next one. The
    /// shared machine state is read and changed here only.
    ///
    /// A dispense that times out raises the count of consecutive timeouts by
    /// one; the one that brings it to [`TIMEOUT_THRESHOLD`] blocks dispensing,
    /// returns the machine to `Ready` and logs `RanOut`, an earlier one sets
    /// no flag. A dispense that reaches its target resets the count. No other
    /// step changes the count or the flag.
    pub fn step(&mut self, app: &mut AppData, e: CycleEvent) -> (a: CycleAction)
        requires
            old(self).inv(),
        ensures
            (*final(self), final(app)@, a) == old(self).next(old(app)@, e),
            final(self).inv(),
            ((old(self).phase is Primary || old(self).phase is Secondary)
                && (e matches CycleEvent::Dispensed(DispenseEndCondition::Timeout(_)))
                && old(app).cycle_dispense_count < usize::MAX) ==> {
                &&& final(app).cycle_dispense_count == old(app).cycle_dispense_count + 1
                &&& (old(app).cycle_dispense_count + 1 >= TIMEOUT_THRESHOLD ==> {
                    &&& final(app).dispenser_has_timed_out
                    &&& final(app).state == IchibuState::Ready
                    &&& final(app)@.log == old(app)@.log.push(
                        LogEntry { action: DataAction::RanOut, ingredient: snack_id(old(app).current_snack) },
                    )
                })
                &&& (old(app).cycle_dispense_count + 1 < TIMEOUT_THRESHOLD
                    ==> final(app).dispenser_has_timed_out == old(app).dispenser_has_timed_out)
            },
            ((old(self).phase is Primary || old(self).phase is Secondary)
                && (e matches CycleEvent::Dispensed(DispenseEndCondition::WeightAchieved(_)))) ==> {
                &&& final(app).cycle_dispense_count == 0
                &&& final(app).dispenser_has_timed_out == old(app).dispenser_has_timed_out
            },
            !(old(self).phase is Primary || old(self).phase is Secondary) ==> {
                &&& final(app).cycle_dispense_count == old(app).cycle_dispense_count
                &&& final(app).dispenser_has_timed_out == old(app).dispenser_has_timed_out
            },
    {
        let ghost c = *self;
        let ghost v = app@;
        let a = self.step_transition(app, e);
        proof {
            match e {
                CycleEvent::Dispensed(DispenseEndCondition::Timeout(w)) => if c.phase is Primary || c.phase is Secondary {
                    if v.cycle_dispense_count < usize::MAX {
                        lemma_timeout_escalation(c, v, w);
                    }
                },
                CycleEvent::Dispensed(DispenseEndCondition::WeightAchieved(w)) => if c.phase is Primary || c.phase is Secondary {
                    lemma_success_resets_timeouts(c, v, w);
                },
                _ => {},
            }
            if !(c.phase is Primary || c.phase is Secondary) {
                lemma_timeout_record_kept(c, v, e);
            }
        }
        a
    }

    fn step_transition(&mut self, app: &mut AppData, e: CycleEvent) -> (a: CycleAction)
        requires
            old(self).inv(),
        ensures
            (*final(self), final(app)@, a) == old(self).next(old(app)@, e),
            final(self).inv(),
    {
        match (self.phase, e) {
            (CyclePhase::Idle, _) => self.dispatch_exec(app),
            (CyclePhase::Pausing, CycleEvent::Done) => self.dispatch_exec(app),
            (CyclePhase::CleanOpening, CycleEvent::Hatch(_)) => {
                self.phase = CyclePhase::Halting;
                CycleAction::HaltConveyor
            },
            (CyclePhase::Halting, CycleEvent::Done) => self.pause_exec(IDLE_PAUSE),
            (CyclePhase::EmptyOpening, CycleEvent::Hatch(r)) => match r {
                Ok(_) => {
                    self.phase = CyclePhase::Pausing;
                    CycleAction::Purge(PURGE_STEP)
                },
                Err(_) => self.dispatch_exec(app),
            },
            (CyclePhase::Closing, CycleEvent::Hatch(_)) => if app.dispenser_has_timed_out {
                self.pause_exec(IDLE_PAUSE)
            } else {
                self.phase = CyclePhase::Settling;
                app.dispenser_busy = true;
                CycleAction::Sleep(SETTLE_PAUSE)
            },
            (CyclePhase::Settling, CycleEvent::Done) => {
                self.phase = CyclePhase::Primary;
                let grams: u64 = if self.sized {
                    self.min_setpoint as u64
                } else {
                    self.max_setpoint as u64
                };
                self.dispense_exec(grams)
            },
            (CyclePhase::Primary, CycleEvent::Dispensed(o)) => self.after_primary_exec(app, o),
            (CyclePhase::Selecting, CycleEvent::Done) => self.select_exec(app),
            (CyclePhase::Secondary, CycleEvent::Dispensed(o)) => self.after_secondary_exec(app, o),
            (CyclePhase::AwaitingBowl, CycleEvent::Done) => self.await_bowl_exec(app),
            (CyclePhase::Opening, CycleEvent::Hatch(_)) => {
                self.phase = CyclePhase::Dropping;
                CycleAction::Sleep(DROP_PAUSE)
            },
            (CyclePhase::Dropping, CycleEvent::Done) => {
                app.ui_request = UiRequest::NoRequest;
                self.dispatch_exec(app)
            },
            _ => {
                app.dispenser_busy = false;
                self.pause_exec(IDLE_PAUSE)
            },
        }
    }
}

} // verus!
