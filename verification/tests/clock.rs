use glbb::Now;
use std::time::Duration;

/// Spins until `span` has passed.
fn wait(span: Duration) {
    let clock = Now::default();
    while clock.elapsed() < span {}
}

#[test]
fn elapsed_never_runs_backwards() {
    let clock = Now::default();
    let first = clock.elapsed();
    let second = clock.elapsed();
    assert!(first <= second);
}

#[test]
fn elapsed_counts_the_time_slept() {
    let clock = Now::default();
    wait(Duration::from_millis(20));
    assert!(clock.elapsed() >= Duration::from_millis(20));
}

#[test]
fn reset_starts_afresh() {
    let mut clock = Now::default();
    let witness = Now::default();
    wait(Duration::from_millis(30));
    assert!(clock.elapsed() >= Duration::from_millis(30));
    clock.reset();
    // The witness has run for 30 ms longer than the clock that was reset.
    assert!(clock.elapsed() + Duration::from_millis(30) <= witness.elapsed());
}

#[test]
fn default_starts_at_the_moment_of_the_call() {
    let witness = Now::default();
    wait(Duration::from_millis(10));
    let clock = Now::default();
    assert!(clock.elapsed() + Duration::from_millis(10) <= witness.elapsed());
}

#[test]
fn nanoseconds_agree_with_the_duration() {
    let clock = Now::default();
    wait(Duration::from_millis(5));
    let low = clock.elapsed().as_nanos();
    let nanos = clock.elapsed_nanos();
    let high = clock.elapsed().as_nanos();
    assert!(low <= nanos && nanos <= high);
    assert!(nanos >= 5_000_000);
}
