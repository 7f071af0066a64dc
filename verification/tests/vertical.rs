use glbb::{Now, VerticalState};
use std::time::Duration;

/// Spins until `span` has passed.
fn wait(span: Duration) {
    let clock = Now::default();
    while clock.elapsed() < span {}
}

#[test]
fn starts_at_rest_and_not_dropping() {
    let state = VerticalState::default();
    assert!(!state.is_play());
    assert!(!state.is_drop());
    assert_eq!(state.direction(), 1);
}

#[test]
fn fall_starts_a_drop() {
    let mut state = VerticalState::default();
    state.fall();
    assert!(state.is_play());
    assert!(state.is_drop());
    assert_eq!(state.direction(), -1);
}

#[test]
fn fall_while_rising_drops_again() {
    let mut state = VerticalState::default();
    state.fall();
    state.bounce();
    assert!(!state.is_drop());
    state.fall();
    assert!(state.is_drop());
    assert!(state.is_play());
}

#[test]
fn bounce_turns_the_fall_into_a_rise_and_back() {
    let mut state = VerticalState::default();
    state.fall();
    state.bounce();
    assert!(state.is_play());
    assert!(!state.is_drop());
    assert_eq!(state.direction(), 1);
    state.bounce();
    assert!(state.is_drop());
    assert_eq!(state.direction(), -1);
}

#[test]
fn flight_stop_twice_is_stop_once() {
    let mut state = VerticalState::default();
    state.fall();
    state.stop();
    assert!(!state.is_play());
    assert!(state.is_drop());
    state.stop();
    assert!(!state.is_play());
    assert!(state.is_drop());
}

#[test]
fn settle_needs_both_measurements_at_rest() {
    let mut state = VerticalState::default();
    state.fall();
    assert!(state.settle(false, false));
    assert!(state.settle(true, false));
    assert!(state.settle(false, true));
    assert!(state.is_play());
    assert!(!state.settle(true, true));
    assert!(!state.is_play());
    assert_eq!(state.direction(), -1);
}

#[test]
fn flight_settle_at_rest_stays_at_rest() {
    let mut state = VerticalState::default();
    assert!(!state.settle(false, false));
    assert!(!state.is_play());
}

#[test]
fn settle_times_the_next_tick() {
    let mut state = VerticalState::default();
    state.fall();
    state.bounce();
    let witness = Now::default();
    wait(Duration::from_millis(20));
    assert!(state.elapsed() >= Duration::from_millis(20));
    assert!(state.settle(true, false));
    // The witness has run for 20 ms longer than the stopwatch of the state.
    assert!(state.elapsed() + Duration::from_millis(20) <= witness.elapsed());
    assert!(state.is_play());
    assert_eq!(state.direction(), 1);
}

#[test]
fn fall_times_the_first_tick() {
    let mut state = VerticalState::default();
    let witness = Now::default();
    wait(Duration::from_millis(20));
    state.fall();
    assert!(state.elapsed() + Duration::from_millis(20) <= witness.elapsed());
}
