//! The status light column.

use vstd::prelude::*;
use crate::state::{AppData, IchibuState};

verus! {

/// Colours the light column can show.
#[derive(Clone, Copy, Debug, PartialEq, Eq, Structural)]
pub enum LightColors {
    Red,
    Yellow,
    Green,
}

/// Drive of one H-bridge output of the light column.
#[derive(Clone, Copy, Debug, PartialEq, Eq, Structural)]
pub enum BridgeState {
    Pos,
    Neg,
    Off,
}

/// Red and green bridge drive that shows `color`.
pub open spec fn bridges_for(color: LightColors) -> (BridgeState, BridgeState) {
    match color {
        LightColors::Red => (BridgeState::Neg, BridgeState::Off),
        LightColors::Green => (BridgeState::Pos, BridgeState::Neg),
        LightColors::Yellow => (BridgeState::Neg, BridgeState::Neg),
    }
}

impl LightColors {
    /// Red and green bridge drive that shows this colour.
    pub fn bridges(&self) -> (r: (BridgeState, BridgeState))
        ensures
            r == bridges_for(*self),
    {
        match self {
            LightColors::Red => (BridgeState::Neg, BridgeState::Off),
            LightColors::Green => (BridgeState::Pos, BridgeState::Neg),
            LightColors::Yellow => (BridgeState::Neg, BridgeState::Neg),
        }
    }
}

/// Red and green bridge drive with the column dark.
pub fn lights_off() -> (r: (BridgeState, BridgeState))
    ensures
        r == (BridgeState::Pos, BridgeState::Pos),
{
    (BridgeState::Pos, BridgeState::Pos)
}

/// What the light column shows for one update.
#[derive(Clone, Copy, Debug, PartialEq, Eq, Structural)]
pub enum LightPlan {
    /// Show red for half the update interval, then go dark.
    FlashRed,
    /// Show the colour.
    Show(LightColors),
    /// Dark.
    Off,
}

/// Light shown for the run state, the busy flag and the timed-out flag.
pub open spec fn light_plan_of(state: IchibuState, busy: bool, timed_out: bool) -> LightPlan {
    if timed_out {
        LightPlan::FlashRed
    } else {
        match state {
            IchibuState::RunningClassic | IchibuState::RunningSized => if busy {
                LightPlan::Show(LightColors::Yellow)
            } else {
                LightPlan::Show(LightColors::Green)
            },
            _ => LightPlan::Off,
        }
    }
}

/// What the light column shows for the machine state: red flashes while
/// dispensing is blocked by timeouts; yellow while dispensing and green while
/// waiting in a running state; dark otherwise.
pub fn update_lights_state(state: &AppData) -> (r: LightPlan)
    ensures
        r == light_plan_of(state.state, state.dispenser_busy, state.dispenser_has_timed_out),
{
    if state.dispenser_has_timed_out {
        LightPlan::FlashRed
    } else {
        match state.state {
            IchibuState::RunningClassic | IchibuState::RunningSized => if state.dispenser_busy {
                LightPlan::Show(LightColors::Yellow)
            } else {
                LightPlan::Show(LightColors::Green)
            },
            _ => LightPlan::Off,
        }
    }
}

} // verus!
