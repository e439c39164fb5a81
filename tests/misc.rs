use ichibu::assets::{read_caldo_logo, read_image, ImageError};
use ichibu::config::{log_in, Login, Pins, User};
use ichibu::ingredients::{get_ingredient_data, Ingredient, Ingredients, UiData};
use ichibu::lights::{lights_off, update_lights_state, BridgeState, LightColors, LightPlan};
use ichibu::state::{AppData, IchibuState};

#[test]
fn test_read_caldo_logo() {
    let home = "/home/ichibu";
    let logo = read_caldo_logo(home);
    assert_ne!(logo.is_err(), true);
    println!("{:?}", logo.unwrap())
}

#[test]
fn image_paths() {
    assert_eq!(read_image("/home/op", "rice.svg"), Ok("/home/op/.config/ichibu/images/rice.svg".to_string()));
    assert_eq!(read_image("/home/op", ""), Err(ImageError::EmptyName));
    assert_eq!(read_caldo_logo("/h"), Ok("/h/.config/ichibu/images/caldo-icon-blue.svg".to_string()));
}

#[test]
fn pins_decide_the_user() {
    let pins = Pins { sudo: 1, manager: 2, operator: 3 };
    assert_eq!(log_in(&pins, Some(1)), Login::Exit);
    assert_eq!(log_in(&pins, Some(2)), Login::As(User::Manager));
    assert_eq!(log_in(&pins, Some(3)), Login::As(User::Operator));
    assert_eq!(log_in(&pins, Some(4)), Login::As(User::NoUser));
    assert_eq!(log_in(&pins, None), Login::As(User::NoUser));
}

#[test]
fn lights_follow_the_machine() {
    let plan = |state: IchibuState, busy: bool, timed_out: bool| {
        let mut app = AppData::new(0);
        app.update_state(state);
        app.set_dispenser_busy(busy);
        app.dispenser_has_timed_out = timed_out;
        update_lights_state(&app)
    };
    assert_eq!(plan(IchibuState::RunningSized, true, true), LightPlan::FlashRed);
    assert_eq!(plan(IchibuState::Ready, false, true), LightPlan::FlashRed);
    assert_eq!(plan(IchibuState::Ready, true, false), LightPlan::Off);
    assert_eq!(plan(IchibuState::RunningClassic, true, false), LightPlan::Show(LightColors::Yellow));
    assert_eq!(plan(IchibuState::RunningSized, false, false), LightPlan::Show(LightColors::Green));
    assert_eq!(plan(IchibuState::Cleaning, false, false), LightPlan::Off);
    assert_eq!(LightColors::Red.bridges(), (BridgeState::Neg, BridgeState::Off));
    assert_eq!(LightColors::Green.bridges(), (BridgeState::Pos, BridgeState::Neg));
    assert_eq!(LightColors::Yellow.bridges(), (BridgeState::Neg, BridgeState::Neg));
    assert_eq!(lights_off(), (BridgeState::Pos, BridgeState::Pos));
}

#[test]
fn defaults() {
    let ui = UiData::default();
    assert_eq!(ui.label, "Default snack");
    assert_eq!(ui.img, "caldo-icon-blue.svg");
    assert_eq!(ui.serving_size, 20);
    let ing = Ingredient::default();
    assert_eq!(ing.name, "Default Snack");
    assert_eq!((ing.max_setpoint, ing.min_setpoint), (25, 10));
    assert!(ing.dispense_settings.is_valid());
    assert_eq!(Ingredients::default().ingredients.len(), 1);
    assert_eq!(User::default(), User::NoUser);
}

#[test]
fn screen_lists_the_catalog_in_order() {
    let mut a = Ingredient::default();
    a.ui_data.id = 5;
    a.ui_data.label = "Rice".to_string();
    let mut b = Ingredient::default();
    b.ui_data.id = 6;
    let list = get_ingredient_data(Some(Ingredients { ingredients: vec![a, b] }));
    assert_eq!(list.iter().map(|u| u.id).collect::<Vec<_>>(), vec![5, 6]);
    assert_eq!(list[0].label, "Rice");
    let fallback = get_ingredient_data(None);
    assert_eq!(fallback.len(), 1);
    assert_eq!(fallback[0].label, "Default snack");
    assert_eq!(fallback[0].img, "caldo-icon-blue.svg");
    assert_eq!(fallback[0].ingredients, "Potential allergens if Ichibu is loaded");
    assert!(get_ingredient_data(Some(Ingredients { ingredients: vec![] })).is_empty());
}
