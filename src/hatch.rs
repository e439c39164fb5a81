//! Hatch motion with limit-switch feedback.

use vstd::prelude::*;

verus! {

/// Time a hatch motion may take before it is abandoned, in milliseconds.
pub const HATCH_TIMEOUT: u64 = 6000;

/// Length of a full hatch stroke, in thousandths of the hatch motor's unit.
pub const HATCH_STROKE: i64 = 100_000_000;

/// Interval between limit-switch reads while the hatch moves, in milliseconds.
pub const HATCH_POLL_INTERVAL: u64 = 100;

/// Why a hatch motion failed.
#[derive(Clone, Copy, Debug, PartialEq, Eq, Structural)]
pub enum HatchError {
    /// The limit switch did not assert within [`HATCH_TIMEOUT`].
    Timeout,
}

/// An end position of the hatch, each watched by its own limit switch.
#[derive(Clone, Copy, Debug, PartialEq, Eq, Structural)]
pub enum HatchSide {
    Open,
    Closed,
}

/// Signed stroke that drives the hatch towards `side`.
pub open spec fn stroke_towards(side: HatchSide) -> int {
    match side {
        HatchSide::Open => -HATCH_STROKE,
        HatchSide::Closed => HATCH_STROKE as int,
    }
}

/// Where a hatch motion stands.
#[derive(Clone, Copy, Debug, PartialEq, Eq, Structural)]
pub enum HatchPhase {
    /// Reading the limit switch before any move.
    Checking,
    /// Moving, polling the limit switch.
    Moving,
    /// Over; the result is final.
    Done,
}

/// A limit-switch reading: whether the watched switch is asserted, and the
/// milliseconds since the last move was commanded.
#[derive(Clone, Copy, Debug, PartialEq, Eq, Structural)]
pub struct HatchEvent {
    pub asserted: bool,
    pub elapsed: u64,
}

/// The next hardware operation of a hatch motion. Every operation but
/// `Finish` ends with a read of the named side's limit switch, reported as a
/// [`HatchEvent`].
#[derive(Clone, Copy, Debug, PartialEq, Eq)]
pub enum HatchAction {
    /// Read the switch.
    Check(HatchSide),
    /// Move the hatch motor by `distance`, restart the clock, read the switch.
    Move { side: HatchSide, distance: i64 },
    /// Wait [`HATCH_POLL_INTERVAL`], read the switch.
    Poll(HatchSide),
    /// Stop the hatch motor abruptly, read the switch.
    StopThenCheck(HatchSide),
    /// Stop the hatch motor abruptly if `stop`; the motion ends with `result`.
    Finish { stop: bool, result: Result<(), HatchError> },
}

/// An open or close of the hatch, one hardware operation at a time. A close
/// that times out is followed by an open, which leaves the hatch in its safe
/// position; the close still reports the timeout.
#[derive(Clone, Copy, Debug, PartialEq, Eq)]
pub struct HatchMotion {
    /// The side being driven to now.
    pub side: HatchSide,
    /// A timed-out close is being undone.
    pub recovering: bool,
    pub phase: HatchPhase,
    /// The result; final once the phase is `Done`.
    pub result: Result<(), HatchError>,
}

impl HatchMotion {
    /// A motion towards `side` that has not read its switch yet.
    pub open spec fn initial(side: HatchSide) -> Self {
        HatchMotion { side, recovering: false, phase: HatchPhase::Checking, result: Ok(()) }
    }

    /// The result the motion reports when its current target is reached.
    pub open spec fn success(self) -> Result<(), HatchError> {
        if self.recovering {
            Err(HatchError::Timeout)
        } else {
            Ok(())
        }
    }

    /// What holds of every state a hatch motion passes through.
    pub open spec fn inv(self) -> bool {
        self.recovering ==> self.side is Open && self.result == Err::<(), HatchError>(HatchError::Timeout)
    }

    /// The state after `ev` and the operation to perform next.
    pub open spec fn next(self, ev: HatchEvent) -> (Self, HatchAction) {
        match self.phase {
            HatchPhase::Done => (self, HatchAction::Finish { stop: false, result: self.result }),
            HatchPhase::Checking => if ev.asserted {
                (
                    HatchMotion { phase: HatchPhase::Done, result: self.success(), ..self },
                    HatchAction::Finish { stop: false, result: self.success() },
                )
            } else {
                (
                    HatchMotion { phase: HatchPhase::Moving, ..self },
                    HatchAction::Move { side: self.side, distance: stroke_towards(self.side) as i64 },
                )
            },
            HatchPhase::Moving => if ev.asserted {
                (
                    HatchMotion { phase: HatchPhase::Done, result: self.success(), ..self },
                    HatchAction::Finish { stop: true, result: self.success() },
                )
            } else if ev.elapsed > HATCH_TIMEOUT {
                if self.side is Closed && !self.recovering {
                    (
                        HatchMotion {
                            side: HatchSide::Open,
                            recovering: true,
                            phase: HatchPhase::Checking,
                            result: Err(HatchError::Timeout),
                        },
                        HatchAction::StopThenCheck(HatchSide::Open),
                    )
                } else {
                    (
                        HatchMotion { phase: HatchPhase::Done, result: Err(HatchError::Timeout), ..self },
                        HatchAction::Finish { stop: true, result: Err(HatchError::Timeout) },
                    )
                }
            } else {
                (self, HatchAction::Poll(self.side))
            },
        }
    }

    /// An open of the hatch, not yet begun.
    pub fn open() -> (h: Self)
        ensures
            h == Self::initial(HatchSide::Open),
    {
        HatchMotion { side: HatchSide::Open, recovering: false, phase: HatchPhase::Checking, result: Ok(()) }
    }

    /// A close of the hatch, not yet begun.
    pub fn close() -> (h: Self)
        ensures
            h == Self::initial(HatchSide::Closed),
    {
        HatchMotion { side: HatchSide::Closed, recovering: false, phase: HatchPhase::Checking, result: Ok(()) }
    }

    /// The first operation of a motion: read the target side's switch.
    pub fn start(&self) -> (a: HatchAction)
        ensures
            a == HatchAction::Check(self.side),
    {
        HatchAction::Check(self.side)
    }

    fn success_exec(&self) -> (r: Result<(), HatchError>)
        ensures
            r == self.success(),
    {
        if self.recovering {
            Err(HatchError::Timeout)
        } else {
            Ok(())
        }
    }

    /// Feed a limit-switch reading; returns the next operation.
    ///
    /// A switch that already reads the target before any move ends the motion
    /// at once, with no move and no stop. A move that times out stops the
    /// motor abruptly; a close that times out goes on to open the hatch, and a
    /// motion that is undoing a close reports the timeout whatever happens.
    pub fn step(&mut self, ev: HatchEvent) -> (a: HatchAction)
        ensures
            (*final(self), a) == old(self).next(ev),
            old(self).inv() ==> final(self).inv(),
            (old(self).phase is Checking && ev.asserted && !old(self).recovering)
                ==> a == (HatchAction::Finish { stop: false, result: Ok(()) }),
            (old(self).phase is Moving && !ev.asserted && ev.elapsed > HATCH_TIMEOUT) ==> {
                &&& (a == (HatchAction::Finish { stop: true, result: Err(HatchError::Timeout) })
                    || a == HatchAction::StopThenCheck(HatchSide::Open))
                &&& (old(self).side is Closed && !old(self).recovering)
                    ==> a == HatchAction::StopThenCheck(HatchSide::Open) && final(self).recovering
            },
            (old(self).inv() && old(self).recovering) ==> {
                &&& final(self).recovering
                &&& (a is Finish ==> a->result == Err::<(), HatchError>(HatchError::Timeout))
            },
    {
        self.step_transition(ev)
    }

    fn step_transition(&mut self, ev: HatchEvent) -> (a: HatchAction)
        ensures
            (*final(self), a) == old(self).next(ev),
    {
        match self.phase {
            HatchPhase::Done => HatchAction::Finish { stop: false, result: self.result },
            HatchPhase::Checking => if ev.asserted {
                let r = self.success_exec();
                self.phase = HatchPhase::Done;
                self.result = r;
                HatchAction::Finish { stop: false, result: r }
            } else {
                self.phase = HatchPhase::Moving;
                let distance = match self.side {
                    HatchSide::Open => -HATCH_STROKE,
                    HatchSide::Closed => HATCH_STROKE,
                };
                HatchAction::Move { side: self.side, distance }
            },
            HatchPhase::Moving => if ev.asserted {
                let r = self.success_exec();
                self.phase = HatchPhase::Done;
                self.result = r;
                HatchAction::Finish { stop: true, result: r }
            } else if ev.elapsed > HATCH_TIMEOUT {
                if self.side == HatchSide::Closed && !self.recovering {
                    self.side = HatchSide::Open;
                    self.recovering = true;
                    self.phase = HatchPhase::Checking;
                    self.result = Err(HatchError::Timeout);
                    HatchAction::StopThenCheck(HatchSide::Open)
                } else {
                    self.phase = HatchPhase::Done;
                    self.result = Err(HatchError::Timeout);
                    HatchAction::Finish { stop: true, result: Err(HatchError::Timeout) }
                }
            } else {
                HatchAction::Poll(self.side)
            },
        }
    }
}

/// Every step keeps the invariant.
pub proof fn lemma_hatch_step_keeps_inv(h: HatchMotion, ev: HatchEvent)
    requires
        h.inv(),
    ensures
        h.next(ev).0.inv(),
{
}

/// Opening an open hatch, or closing a closed one, issues no move and
/// succeeds at once.
pub proof fn lemma_hatch_idempotent(side: HatchSide, elapsed: u64)
    ensures
        ({
            let (h2, a) = HatchMotion::initial(side).next(HatchEvent { asserted: true, elapsed });
            &&& a == HatchAction::Finish { stop: false, result: Ok(()) }
            &&& h2.phase is Done
            &&& h2.result == Ok::<(), HatchError>(())
        }),
{
}

/// A motion that times out stops the motor abruptly. A close that times out
/// goes on to open the hatch; the whole motion then ends with the timeout
/// whatever the open does.
pub proof fn lemma_hatch_timeout_stops(h: HatchMotion, ev: HatchEvent)
    requires
        h.inv(),
        h.phase is Moving,
        !ev.asserted,
        ev.elapsed > HATCH_TIMEOUT,
    ensures
        ({
            let (h2, a) = h.next(ev);
            &&& (a == HatchAction::Finish { stop: true, result: Err(HatchError::Timeout) }
                || a == HatchAction::StopThenCheck(HatchSide::Open))
            &&& (h.side is Closed && !h.recovering) ==> a == HatchAction::StopThenCheck(HatchSide::Open)
                && h2 == (HatchMotion {
                    side: HatchSide::Open,
                    recovering: true,
                    phase: HatchPhase::Checking,
                    result: Err(HatchError::Timeout),
                })
        }),
{
}

/// Once a timed-out close is being undone, every result reported is the timeout.
pub proof fn lemma_recovery_reports_timeout(h: HatchMotion, ev: HatchEvent)
    requires
        h.inv(),
        h.recovering,
    ensures
        ({
            let (h2, a) = h.next(ev);
            &&& h2.recovering
            &&& (h2.phase is Done ==> h2.result == Err::<(), HatchError>(HatchError::Timeout))
            &&& (a matches HatchAction::Finish { result, .. } ==> result == Err::<(), HatchError>(HatchError::Timeout))
        }),
{
}

} // verus!
