use defender::error::GuardError;
use defender::state::State;
use std::sync::Arc;

#[test]
fn fresh_cell_is_unset() {
    let state = State::<u8>::default();
    assert!(matches!(state, State::UnSet));
    assert!(state.observe().is_none());
}

#[test]
fn set_fills_an_unset_cell() {
    let mut state = State::<u8>::default();
    assert_eq!(state.set(7), Ok(()));
    match state {
        State::Value(held) => assert_eq!(*held, 7),
        _ => panic!("the cell should hold the value"),
    }
}

#[test]
fn set_overwrites_a_held_value() {
    let mut state = State::Value(Arc::new(1u8));
    assert_eq!(state.set(2), Ok(()));
    assert_eq!(*state.observe().unwrap().unwrap(), 2);
}

#[test]
fn set_after_kill_fails_and_keeps_killed() {
    let mut state = State::<u8>::Killed;
    assert_eq!(state.set(9), Err(GuardError::Killed));
    assert!(matches!(state, State::Killed));
}

#[test]
fn kill_marks_an_unset_cell() {
    let mut state = State::<u8>::UnSet;
    assert_eq!(state.kill(), Ok(()));
    assert!(matches!(state, State::Killed));
}

#[test]
fn kill_is_idempotent() {
    let mut state = State::<u8>::Killed;
    assert_eq!(state.kill(), Ok(()));
    assert_eq!(state.kill(), Ok(()));
    assert!(matches!(state, State::Killed));
}

#[test]
fn kill_after_value_fails_and_keeps_value() {
    let mut state = State::Value(Arc::new(42u8));
    assert_eq!(state.kill(), Err(GuardError::UnableToKilled));
    match state {
        State::Value(held) => assert_eq!(*held, 42),
        _ => panic!("the value should still be there"),
    }
}

#[test]
fn reset_round_trip() {
    let mut state = State::<String>::default();
    assert_eq!(state.set(String::from("payload")), Ok(()));
    assert_eq!(state.reset(), Some(String::from("payload")));
    assert!(matches!(state, State::UnSet));
}

#[test]
fn reset_of_unset_returns_nothing() {
    let mut state = State::<u8>::UnSet;
    assert_eq!(state.reset(), None);
    assert!(matches!(state, State::UnSet));
}

#[test]
fn reset_of_killed_returns_nothing_and_stays_killed() {
    let mut state = State::<u8>::Killed;
    assert_eq!(state.reset(), None);
    assert!(matches!(state, State::Killed));
}

#[test]
fn cell_is_reusable_after_reset() {
    let mut state = State::<u8>::default();
    assert_eq!(state.set(1), Ok(()));
    assert_eq!(state.reset(), Some(1));
    assert_eq!(state.set(2), Ok(()));
    assert_eq!(state.reset(), Some(2));
    assert_eq!(state.kill(), Ok(()));
}

#[test]
fn observe_reports_each_state() {
    assert!(State::<u8>::UnSet.observe().is_none());
    assert_eq!(State::<u8>::Killed.observe().unwrap().unwrap_err(), GuardError::Killed);
    assert_eq!(*State::Value(Arc::new(5u8)).observe().unwrap().unwrap(), 5);
}

#[test]
fn observe_shares_the_held_value() {
    let held = Arc::new(String::from("shared"));
    let state = State::Value(held.clone());
    let first = state.observe().unwrap().unwrap();
    let second = state.observe().unwrap().unwrap();
    assert!(Arc::ptr_eq(&first, &held));
    assert!(Arc::ptr_eq(&first, &second));
    assert_eq!(Arc::strong_count(&held), 4);
}

#[test]
fn observe_does_not_change_the_cell() {
    let state = State::Value(Arc::new(3u8));
    let _ = state.observe();
    let _ = state.observe();
    assert_eq!(*state.observe().unwrap().unwrap(), 3);
}
