use ichibu::ingredients::{Ingredient, Ingredients};
use ichibu::state::{
    clear_dispenser_time_out, dispenser_has_timed_out, dispenser_is_busy, get_dispense_count, get_pe_blocked,
    photo_eye_state, update_current_ingredient, update_node_level, update_pe_state, update_run_state,
    update_ui_request, AppData, DataAction, IchibuState, LogEntry, NodeLevel, PhotoEyeState, UiRequest,
};

fn ingredient(id: usize, max_setpoint: usize, min_setpoint: usize) -> Ingredient {
    let mut i = Ingredient::default();
    i.id = id;
    i.max_setpoint = max_setpoint;
    i.min_setpoint = min_setpoint;
    i
}

#[test]
fn starts_ready_and_idle() {
    let app = AppData::new(7);
    assert_eq!(app.get_state(), IchibuState::Ready);
    assert_eq!(app.get_ui_request(), UiRequest::NoRequest);
    assert_eq!(app.get_pe_state(), PhotoEyeState::Unblocked);
    assert_eq!(app.node_level, NodeLevel::Empty);
    assert!(!dispenser_is_busy(&app));
    assert!(!dispenser_has_timed_out(&app));
    assert_eq!(get_dispense_count(&app), 7);
    assert!(app.get_snack().is_none());
}

#[test]
fn cleaning_from_ready_is_taken_and_logged() {
    let mut app = AppData::new(0);
    update_run_state(&mut app, IchibuState::Cleaning);
    assert_eq!(app.get_state(), IchibuState::Cleaning);
    assert_eq!(app.pending_log, vec![LogEntry { action: DataAction::Cleaning, ingredient: None }]);
}

#[test]
fn emptying_from_ready_is_taken_and_logged() {
    let mut app = AppData::new(0);
    update_current_ingredient(&mut app, Ingredients { ingredients: vec![ingredient(4, 30, 10)] }, 4);
    update_run_state(&mut app, IchibuState::Emptying);
    assert_eq!(app.get_state(), IchibuState::Emptying);
    assert_eq!(app.take_log(), vec![LogEntry { action: DataAction::Emptying, ingredient: Some(4) }]);
    assert!(app.pending_log.is_empty());
}

#[test]
fn cleaning_or_emptying_while_running_changes_nothing() {
    for running in [IchibuState::RunningClassic, IchibuState::RunningSized] {
        for wanted in [IchibuState::Cleaning, IchibuState::Emptying] {
            let mut app = AppData::new(0);
            update_run_state(&mut app, running);
            update_run_state(&mut app, wanted);
            assert_eq!(app.get_state(), running);
            assert!(app.pending_log.is_empty());
        }
    }
}

#[test]
fn other_run_states_are_always_taken() {
    let mut app = AppData::new(0);
    update_run_state(&mut app, IchibuState::RunningSized);
    assert_eq!(app.get_state(), IchibuState::RunningSized);
    update_run_state(&mut app, IchibuState::Ready);
    assert_eq!(app.get_state(), IchibuState::Ready);
    update_run_state(&mut app, IchibuState::Cleaning);
    update_run_state(&mut app, IchibuState::RunningClassic);
    assert_eq!(app.get_state(), IchibuState::RunningClassic);
    assert!(app.pending_log.is_empty() == false);
}

#[test]
fn clearing_the_timeout_resets_flag_and_count() {
    let mut app = AppData::new(0);
    app.dispenser_has_timed_out = true;
    app.cycle_dispense_count = 3;
    clear_dispenser_time_out(&mut app);
    assert!(!dispenser_has_timed_out(&app));
    assert_eq!(app.cycle_dispense_count, 0);
    assert_eq!(app.pending_log, vec![LogEntry { action: DataAction::Refilled, ingredient: None }]);
}

#[test]
fn served_bowls_are_counted() {
    let mut app = AppData::new(10);
    app.log_action(DataAction::DispensedSmall);
    app.log_action(DataAction::DispensedRegular);
    app.log_action(DataAction::RanOut);
    app.log_action(DataAction::Refilled);
    assert_eq!(get_dispense_count(&app), 12);
    assert_eq!(app.pending_log.len(), 4);
    let mut full = AppData::new(usize::MAX);
    full.log_action(DataAction::DispensedSmall);
    assert_eq!(get_dispense_count(&full), usize::MAX);
}

#[test]
fn selects_the_first_ingredient_with_the_id() {
    let mut app = AppData::new(0);
    let catalog = Ingredients { ingredients: vec![ingredient(1, 20, 5), ingredient(2, 40, 15), ingredient(2, 99, 1)] };
    update_current_ingredient(&mut app, catalog, 2);
    let snack = app.get_snack().unwrap();
    assert_eq!((snack.id, snack.max_setpoint, snack.min_setpoint), (2, 40, 15));
}

#[test]
fn unknown_ingredient_keeps_the_selection() {
    let mut app = AppData::new(0);
    update_current_ingredient(&mut app, Ingredients { ingredients: vec![ingredient(1, 20, 5)] }, 1);
    update_current_ingredient(&mut app, Ingredients { ingredients: vec![ingredient(3, 20, 5)] }, 9);
    assert_eq!(app.get_snack().unwrap().id, 1);
    update_current_ingredient(&mut app, Ingredients { ingredients: vec![] }, 1);
    assert_eq!(app.get_snack().unwrap().id, 1);
}

#[test]
fn sensors_update_the_state() {
    let mut app = AppData::new(0);
    update_pe_state(&mut app, true);
    assert!(get_pe_blocked(&app));
    update_pe_state(&mut app, false);
    assert!(!get_pe_blocked(&app));
    assert_eq!(photo_eye_state(true), PhotoEyeState::Blocked);
    update_node_level(&mut app, 5001, 5000);
    assert_eq!(app.node_level, NodeLevel::Filled);
    update_node_level(&mut app, 5000, 5000);
    assert_eq!(app.node_level, NodeLevel::Empty);
}

#[test]
fn ui_request_and_busy_flag() {
    let mut app = AppData::new(0);
    update_ui_request(&mut app, UiRequest::SmallDispense);
    assert_eq!(app.get_ui_request(), UiRequest::SmallDispense);
    app.reset_ui_request();
    assert_eq!(app.get_ui_request(), UiRequest::NoRequest);
    app.set_dispenser_busy(true);
    assert!(dispenser_is_busy(&app));
}
