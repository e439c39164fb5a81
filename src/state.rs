//! The machine state shared between the cycle loop and the operator screen.

use vstd::prelude::*;
use crate::ingredients::{Ingredient, Ingredients};

verus! {

/// The run state of the machine.
#[derive(Clone, Copy, Debug, PartialEq, Eq, Structural)]
pub enum IchibuState {
    Ready,
    RunningClassic,
    RunningSized,
    Cleaning,
    Emptying,
}

impl Default for IchibuState {
    fn default() -> (s: Self)
        ensures
            s == IchibuState::Ready,
    {
        IchibuState::Ready
    }
}

/// Whether the hopper holds product.
#[derive(Clone, Copy, Debug, PartialEq, Eq, Structural)]
pub enum NodeLevel {
    Filled,
    Empty,
}

impl Default for NodeLevel {
    fn default() -> (l: Self)
        ensures
            l == NodeLevel::Filled,
    {
        NodeLevel::Filled
    }
}

/// Whether a bowl stands in front of the presence sensor.
#[derive(Clone, Copy, Debug, PartialEq, Eq, Structural)]
pub enum PhotoEyeState {
    Blocked,
    Unblocked,
}

impl Default for PhotoEyeState {
    fn default() -> (s: Self)
        ensures
            s == PhotoEyeState::Unblocked,
    {
        PhotoEyeState::Unblocked
    }
}

/// The presence sensor's state for its input level: a high input means blocked.
pub fn photo_eye_state(input: bool) -> (s: PhotoEyeState)
    ensures
        s == (if input { PhotoEyeState::Blocked } else { PhotoEyeState::Unblocked }),
{
    if input {
        PhotoEyeState::Blocked
    } else {
        PhotoEyeState::Unblocked
    }
}

/// What the operator asked for after a dispense.
#[derive(Clone, Copy, Debug, PartialEq, Eq, Structural)]
pub enum UiRequest {
    NoRequest,
    SmallDispense,
    RegularDispense,
}

impl Default for UiRequest {
    fn default() -> (r: Self)
        ensures
            r == UiRequest::NoRequest,
    {
        UiRequest::NoRequest
    }
}

/// How servings are sized.
#[derive(Clone, Copy, Debug, PartialEq, Eq, Structural)]
pub enum DispenseType {
    Classic,
    LargeSmall,
}

impl Default for DispenseType {
    fn default() -> (t: Self)
        ensures
            t == DispenseType::Classic,
    {
        DispenseType::Classic
    }
}

/// An event recorded in the dispense log.
#[derive(Clone, Copy, Debug, PartialEq, Eq, Structural)]
pub enum DataAction {
    DispensedSmall,
    DispensedRegular,
    Cleaning,
    Emptying,
    RanOut,
    Refilled,
}

impl DataAction {
    /// The event is a served bowl.
    pub open spec fn is_bowl(self) -> bool {
        self is DispensedSmall || self is DispensedRegular
    }

    /// Whether the event is a served bowl.
    pub fn counts_as_bowl(&self) -> (r: bool)
        ensures
            r == self.is_bowl(),
    {
        match self {
            DataAction::DispensedSmall | DataAction::DispensedRegular => true,
            _ => false,
        }
    }
}

/// A log record waiting to be written: the event and the selected ingredient.
#[derive(Clone, Copy, Debug, PartialEq, Eq, Structural)]
pub struct LogEntry {
    pub action: DataAction,
    pub ingredient: Option<usize>,
}

/// State shared by the cycle loop and the operator screen.
#[derive(Clone, Debug)]
pub struct AppData {
    pub state: IchibuState,
    pub ui_request: UiRequest,
    pub node_level: NodeLevel,
    pub pe_state: PhotoEyeState,
    pub dispenser_busy: bool,
    /// Dispensing is blocked until an operator clears it.
    pub dispenser_has_timed_out: bool,
    /// Bowls served, as the dispense log counts them.
    pub bowl_count: usize,
    /// Consecutive dispenses that ended in a timeout.
    pub cycle_dispense_count: usize,
    pub current_snack: Option<Ingredient>,
    /// Log records not yet handed to the persistent log.
    pub pending_log: Vec<LogEntry>,
}

/// Identifier of the selected ingredient, if any.
pub open spec fn snack_id(snack: Option<Ingredient>) -> Option<usize> {
    match snack {
        Some(s) => Some(s.id),
        None => None,
    }
}

/// The bowl count after logging `action`; it stops at the largest `usize`.
pub open spec fn count_after(count: usize, action: DataAction) -> usize {
    if action.is_bowl() && count < usize::MAX {
        (count + 1) as usize
    } else {
        count
    }
}

/// The run state after a request for `requested` in `current`: cleaning and
/// emptying are entered from `Ready` only; every other request is taken.
pub open spec fn run_state_after(current: IchibuState, requested: IchibuState) -> IchibuState {
    if (requested is Cleaning || requested is Emptying) && !(current is Ready) {
        current
    } else {
        requested
    }
}

/// The contents of an [`AppData`], with the pending log as a sequence.
pub struct AppView {
    pub state: IchibuState,
    pub ui_request: UiRequest,
    pub node_level: NodeLevel,
    pub pe_state: PhotoEyeState,
    pub dispenser_busy: bool,
    pub dispenser_has_timed_out: bool,
    pub bowl_count: usize,
    pub cycle_dispense_count: usize,
    pub current_snack: Option<Ingredient>,
    pub log: Seq<LogEntry>,
}

impl View for AppData {
    type V = AppView;

    open spec fn view(&self) -> AppView {
        AppView {
            state: self.state,
            ui_request: self.ui_request,
            node_level: self.node_level,
            pe_state: self.pe_state,
            dispenser_busy: self.dispenser_busy,
            dispenser_has_timed_out: self.dispenser_has_timed_out,
            bowl_count: self.bowl_count,
            cycle_dispense_count: self.cycle_dispense_count,
            current_snack: self.current_snack,
            log: self.pending_log@,
        }
    }
}

impl AppView {
    /// The state after logging `action` against the selected ingredient.
    pub open spec fn logged(self, action: DataAction) -> AppView {
        AppView {
            log: self.log.push(LogEntry { action, ingredient: snack_id(self.current_snack) }),
            bowl_count: count_after(self.bowl_count, action),
            ..self
        }
    }
}

impl AppData {
    /// The state at power-up, with the bowl count read from the log.
    pub fn new(bowl_count: usize) -> (d: Self)
        ensures
            d.state == IchibuState::Ready,
            d.ui_request == UiRequest::NoRequest,
            d.node_level == NodeLevel::Empty,
            d.pe_state == PhotoEyeState::Unblocked,
            !d.dispenser_busy,
            !d.dispenser_has_timed_out,
            d.bowl_count == bowl_count,
            d.cycle_dispense_count == 0,
            d.current_snack is None,
            d.pending_log@ == Seq::<LogEntry>::empty(),
    {
        AppData {
            state: IchibuState::Ready,
            ui_request: UiRequest::NoRequest,
            node_level: NodeLevel::Empty,
            pe_state: PhotoEyeState::Unblocked,
            dispenser_busy: false,
            dispenser_has_timed_out: false,
            bowl_count,
            cycle_dispense_count: 0,
            current_snack: None,
            pending_log: Vec::new(),
        }
    }

    /// Record `action` for the selected ingredient and count a served bowl.
    pub fn log_action(&mut self, action: DataAction)
        ensures
            final(self).pending_log@ == old(self).pending_log@.push(
                LogEntry { action, ingredient: snack_id(old(self).current_snack) },
            ),
            final(self).bowl_count == count_after(old(self).bowl_count, action),
            final(self).state == old(self).state,
            final(self).ui_request == old(self).ui_request,
            final(self).node_level == old(self).node_level,
            final(self).pe_state == old(self).pe_state,
            final(self).dispenser_busy == old(self).dispenser_busy,
            final(self).dispenser_has_timed_out == old(self).dispenser_has_timed_out,
            final(self).cycle_dispense_count == old(self).cycle_dispense_count,
            final(self).current_snack == old(self).current_snack,
            final(self)@ == old(self)@.logged(action),
    {
        let ingredient = match &self.current_snack {
            Some(s) => Some(s.id),
            None => None,
        };
        self.pending_log.push(LogEntry { action, ingredient });
        if action.counts_as_bowl() && self.bowl_count < usize::MAX {
            self.bowl_count = self.bowl_count + 1;
        }
    }

    /// Hand over the log records written since the last call.
    pub fn take_log(&mut self) -> (r: Vec<LogEntry>)
        ensures
            r@ == old(self).pending_log@,
            final(self).pending_log@ == Seq::<LogEntry>::empty(),
            *final(self) == (AppData { pending_log: final(self).pending_log, ..*old(self) }),
    {
        let mut taken: Vec<LogEntry> = Vec::new();
        std::mem::swap(&mut taken, &mut self.pending_log);
        taken
    }

    pub fn reset_ui_request(&mut self)
        ensures
            *final(self) == (AppData { ui_request: UiRequest::NoRequest, ..*old(self) }),
    {
        self.ui_request = UiRequest::NoRequest;
    }

    pub fn get_state(&self) -> (s: IchibuState)
        ensures
            s == self.state,
    {
        self.state
    }

    pub fn get_pe_state(&self) -> (s: PhotoEyeState)
        ensures
            s == self.pe_state,
    {
        self.pe_state
    }

    pub fn get_snack(&self) -> (s: Option<&Ingredient>)
        ensures
            match s {
                Some(i) => self.current_snack == Some(*i),
                None => self.current_snack is None,
            },
    {
        match &self.current_snack {
            Some(i) => Some(i),
            None => None,
        }
    }

    pub fn get_ui_request(&self) -> (r: UiRequest)
        ensures
            r == self.ui_request,
    {
        self.ui_request
    }

    pub fn set_dispenser_busy(&mut self, is_busy: bool)
        ensures
            *final(self) == (AppData { dispenser_busy: is_busy, ..*old(self) }),
    {
        self.dispenser_busy = is_busy;
    }

    /// Set the run state without any guard; the cycle loop uses this.
    pub fn update_state(&mut self, new_state: IchibuState)
        ensures
            *final(self) == (AppData { state: new_state, ..*old(self) }),
    {
        self.state = new_state;
    }

    pub fn update_current_snack(&mut self, snack: Ingredient)
        ensures
            *final(self) == (AppData { current_snack: Some(snack), ..*old(self) }),
    {
        self.current_snack = Some(snack);
    }

    pub fn update_ui_request(&mut self, ui_request: UiRequest)
        ensures
            *final(self) == (AppData { ui_request, ..*old(self) }),
    {
        self.ui_request = ui_request;
    }

    pub fn dispenser_is_busy(&self) -> (b: bool)
        ensures
            b == self.dispenser_busy,
    {
        self.dispenser_busy
    }
}

/// Record the presence sensor's input level.
pub fn update_pe_state(state: &mut AppData, input: bool)
    ensures
        *final(state) == (AppData {
            pe_state: if input { PhotoEyeState::Blocked } else { PhotoEyeState::Unblocked },
            ..*old(state)
        }),
{
    state.pe_state = photo_eye_state(input);
}

/// Record the hopper level for a scale reading: filled above `empty_weight`,
/// empty otherwise. Both are in milligrams.
pub fn update_node_level(state: &mut AppData, weight: i64, empty_weight: i64)
    ensures
        *final(state) == (AppData {
            node_level: if weight > empty_weight { NodeLevel::Filled } else { NodeLevel::Empty },
            ..*old(state)
        }),
{
    state.node_level = if weight > empty_weight {
        NodeLevel::Filled
    } else {
        NodeLevel::Empty
    };
}

/// Select the ingredient with identifier `snack` from `catalog`; nothing
/// changes when the catalog has none.
pub fn update_current_ingredient(state: &mut AppData, catalog: Ingredients, snack: usize)
    ensures
        (forall|j: int| 0 <= j < catalog.ingredients@.len() ==> catalog.ingredients@[j].id != snack)
            ==> *final(state) == *old(state),
        (exists|j: int| 0 <= j < catalog.ingredients@.len() && catalog.ingredients@[j].id == snack)
            ==> exists|i: int|
                0 <= i < catalog.ingredients@.len() && catalog.ingredients@[i].id == snack
                    && (forall|j: int| 0 <= j < i ==> catalog.ingredients@[j].id != snack)
                    && *final(state) == (AppData {
                        current_snack: Some(catalog.ingredients@[i]),
                        ..*old(state)
                    }),
{
    match catalog.take(snack) {
        Some(ing) => state.update_current_snack(ing),
        None => {},
    }
}

/// Change the run state at the operator's request. Cleaning and emptying
/// are entered only from `Ready`, and are then logged; asked for in any other
/// state they leave it unchanged. Every other request is taken as it is.
pub fn update_run_state(state: &mut AppData, new_state: IchibuState)
    ensures
        final(state).state == run_state_after(old(state).state, new_state),
        final(state).pending_log@ == (if old(state).state is Ready && new_state is Cleaning {
            old(state).pending_log@.push(
                LogEntry { action: DataAction::Cleaning, ingredient: snack_id(old(state).current_snack) },
            )
        } else if old(state).state is Ready && new_state is Emptying {
            old(state).pending_log@.push(
                LogEntry { action: DataAction::Emptying, ingredient: snack_id(old(state).current_snack) },
            )
        } else {
            old(state).pending_log@
        }),
        *final(state) == (AppData {
            state: final(state).state,
            pending_log: final(state).pending_log,
            ..*old(state)
        }),
{
    let ready = state.state == IchibuState::Ready;
    match new_state {
        IchibuState::Cleaning => if ready {
            state.log_action(DataAction::Cleaning);
            state.update_state(new_state);
        },
        IchibuState::Emptying => if ready {
            state.log_action(DataAction::Emptying);
            state.update_state(new_state);
        },
        _ => state.update_state(new_state),
    }
}

pub fn update_ui_request(state: &mut AppData, ui_request: UiRequest)
    ensures
        *final(state) == (AppData { ui_request, ..*old(state) }),
{
    state.update_ui_request(ui_request);
}

/// Bowls served.
pub fn get_dispense_count(state: &AppData) -> (n: usize)
    ensures
        n == state.bowl_count,
{
    state.bowl_count
}

/// Whether a bowl stands in front of the presence sensor.
pub fn get_pe_blocked(state: &AppData) -> (b: bool)
    ensures
        b == (state.pe_state is Blocked),
{
    match state.pe_state {
        PhotoEyeState::Blocked => true,
        PhotoEyeState::Unblocked => false,
    }
}

pub fn dispenser_is_busy(state: &AppData) -> (b: bool)
    ensures
        b == state.dispenser_busy,
{
    state.dispenser_is_busy()
}

pub fn dispenser_has_timed_out(state: &AppData) -> (b: bool)
    ensures
        b == state.dispenser_has_timed_out,
{
    state.dispenser_has_timed_out
}

/// The operator has refilled the hopper: dispensing may go on. Clears the
/// timed-out flag and the consecutive-timeout count, and logs `Refilled`.
pub fn clear_dispenser_time_out(state: &mut AppData)
    ensures
        !final(state).dispenser_has_timed_out,
        final(state).cycle_dispense_count == 0,
        final(state).pending_log@ == old(state).pending_log@.push(
            LogEntry { action: DataAction::Refilled, ingredient: snack_id(old(state).current_snack) },
        ),
        *final(state) == (AppData {
            dispenser_has_timed_out: false,
            cycle_dispense_count: 0,
            pending_log: final(state).pending_log,
            ..*old(state)
        }),
{
    state.dispenser_has_timed_out = false;
    state.cycle_dispense_count = 0;
    state.log_action(DataAction::Refilled);
}

} // verus!
