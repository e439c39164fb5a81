use ichibu::hatch::{HatchAction, HatchError, HatchEvent, HatchMotion, HatchPhase, HatchSide, HATCH_STROKE};

fn reading(asserted: bool, elapsed: u64) -> HatchEvent {
    HatchEvent { asserted, elapsed }
}

#[test]
fn open_on_an_open_hatch_does_not_move() {
    let mut h = HatchMotion::open();
    assert_eq!(h.start(), HatchAction::Check(HatchSide::Open));
    assert_eq!(h.step(reading(true, 0)), HatchAction::Finish { stop: false, result: Ok(()) });
    assert_eq!(h.phase, HatchPhase::Done);
}

#[test]
fn close_on_a_closed_hatch_does_not_move() {
    let mut h = HatchMotion::close();
    assert_eq!(h.start(), HatchAction::Check(HatchSide::Closed));
    assert_eq!(h.step(reading(true, 0)), HatchAction::Finish { stop: false, result: Ok(()) });
}

#[test]
fn open_moves_until_the_switch_asserts() {
    let mut h = HatchMotion::open();
    assert_eq!(
        h.step(reading(false, 0)),
        HatchAction::Move { side: HatchSide::Open, distance: -HATCH_STROKE }
    );
    assert_eq!(h.step(reading(false, 100)), HatchAction::Poll(HatchSide::Open));
    assert_eq!(h.step(reading(false, 6000)), HatchAction::Poll(HatchSide::Open));
    assert_eq!(h.step(reading(true, 6050)), HatchAction::Finish { stop: true, result: Ok(()) });
}

#[test]
fn close_moves_the_other_way() {
    let mut h = HatchMotion::close();
    assert_eq!(
        h.step(reading(false, 0)),
        HatchAction::Move { side: HatchSide::Closed, distance: HATCH_STROKE }
    );
}

#[test]
fn open_timeout_stops_and_fails() {
    let mut h = HatchMotion::open();
    h.step(reading(false, 0));
    assert_eq!(
        h.step(reading(false, 6001)),
        HatchAction::Finish { stop: true, result: Err(HatchError::Timeout) }
    );
}

#[test]
fn close_timeout_stops_then_opens_and_still_fails() {
    let mut h = HatchMotion::close();
    h.step(reading(false, 0));
    assert_eq!(h.step(reading(false, 6001)), HatchAction::StopThenCheck(HatchSide::Open));
    assert!(h.recovering);
    assert_eq!(
        h.step(reading(false, 0)),
        HatchAction::Move { side: HatchSide::Open, distance: -HATCH_STROKE }
    );
    assert_eq!(
        h.step(reading(true, 900)),
        HatchAction::Finish { stop: true, result: Err(HatchError::Timeout) }
    );
}

#[test]
fn close_timeout_with_the_hatch_already_open_fails_without_moving() {
    let mut h = HatchMotion::close();
    h.step(reading(false, 0));
    h.step(reading(false, 7000));
    assert_eq!(
        h.step(reading(true, 0)),
        HatchAction::Finish { stop: false, result: Err(HatchError::Timeout) }
    );
}

#[test]
fn close_timeout_whose_open_also_times_out() {
    let mut h = HatchMotion::close();
    h.step(reading(false, 0));
    h.step(reading(false, 7000));
    h.step(reading(false, 0));
    assert_eq!(
        h.step(reading(false, 6001)),
        HatchAction::Finish { stop: true, result: Err(HatchError::Timeout) }
    );
}
