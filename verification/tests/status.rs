use retry_loop::status::{compose_status, decimal_text, status_text};
use retry_loop::{Bounds, Elapsed, LoopManager};
use std::time::SystemTime;

#[test]
fn decimal_text_writes_digits() {
    assert_eq!(decimal_text(0), "0");
    assert_eq!(decimal_text(7), "7");
    assert_eq!(decimal_text(9), "9");
    assert_eq!(decimal_text(10), "10");
    assert_eq!(decimal_text(120), "120");
    assert_eq!(decimal_text(1_234_567_890), "1234567890");
    assert_eq!(decimal_text(usize::MAX), format!("{}", usize::MAX));
}

#[test]
fn compose_status_sets_the_span_before_the_count() {
    assert_eq!(compose_status("1.5s", 2), "Elapsed time: 1.5s; Iteration: 2");
    assert_eq!(compose_status("", 0), "Elapsed time: ; Iteration: 0");
    assert_eq!(compose_status("a while", 1_000), "Elapsed time: a while; Iteration: 1000");
}

#[test]
fn status_text_names_elapsed_time_and_iteration() {
    assert_eq!(status_text(Elapsed::from_nanos(1_500_000_000), 2), "Elapsed time: 1.5s; Iteration: 2");
    assert_eq!(status_text(Elapsed::from_nanos(0), 0), "Elapsed time: 0ns; Iteration: 0");
    assert_eq!(status_text(Elapsed::from_nanos(100_000_000), 17), "Elapsed time: 100ms; Iteration: 17");
    assert_eq!(status_text(Elapsed::from_nanos(42), 1), "Elapsed time: 42ns; Iteration: 1");
    assert_eq!(
        status_text(Elapsed::from_parts(3, 1).unwrap(), 4),
        "Elapsed time: 3.000000001s; Iteration: 4"
    );
}

#[test]
fn status_at_shows_the_count_of_the_manager() {
    let bounds = Bounds { timeout: None, interval: None, maximum_iterations: None };
    let mut manager = LoopManager::new(SystemTime::now(), bounds);
    assert_eq!(manager.status_at(Elapsed::from_nanos(2_000_000_000)), "Elapsed time: 2s; Iteration: 0");
    for _ in 0..12 {
        assert_eq!(manager.step_at(Elapsed::from_nanos(0)), Ok(()));
    }
    assert_eq!(
        manager.status_at(Elapsed::from_nanos(2_250_000_000)),
        "Elapsed time: 2.25s; Iteration: 12"
    );
}

#[test]
fn status_reads_the_clock() {
    let bounds = Bounds { timeout: None, interval: None, maximum_iterations: None };
    let mut manager = LoopManager::start(bounds);
    assert_eq!(manager.step(), Ok(()));
    let line = manager.status().unwrap();
    assert!(line.starts_with("Elapsed time: "));
    assert!(line.ends_with("; Iteration: 1"));
}
