use retry_loop::{Attempt, Bounds, Decision, Elapsed, LoopManager, RetryError};
use std::time::{Duration, Instant, SystemTime};

const SECOND: u64 = 1_000_000_000;

#[test]
fn command_that_succeeds_ends_the_loop_at_once() {
    let bounds = Bounds { timeout: Some(0), interval: Some(SECOND), maximum_iterations: Some(0) };
    let mut manager = LoopManager::start(bounds);
    assert_eq!(manager.after_attempt(Attempt::Exited(0)), Ok(Decision::Done));
    assert_eq!(manager.iteration(), 0);
    let at = Elapsed::from_nanos(5 * SECOND);
    assert_eq!(manager.after_attempt_at(Attempt::Exited(0), at, at), Ok(Decision::Done));
    assert_eq!(manager.iteration(), 0);
}

#[test]
fn command_that_fails_runs_into_the_timeout() {
    let watch = Instant::now();
    let bounds = Bounds { timeout: Some(100_000_000), interval: None, maximum_iterations: None };
    let mut manager = LoopManager::start(bounds);
    let mut attempts: u64 = 0;
    let end = loop {
        attempts += 1;
        match manager.after_attempt(Attempt::Exited(1)) {
            Ok(decision) => assert_eq!(decision, Decision::Retry(0)),
            Err(error) => break error,
        }
        assert!(watch.elapsed() < Duration::from_secs(15));
    };
    assert_eq!(end, RetryError::Timeout);
    assert!(attempts >= 1);
    assert_eq!(manager.iteration() as u64, attempts - 1);
    assert!(watch.elapsed() >= Duration::from_millis(100));
    assert!(watch.elapsed() < Duration::from_secs(15));
}

#[test]
fn command_that_fails_runs_into_maximum_iterations() {
    let bounds = Bounds { timeout: None, interval: None, maximum_iterations: Some(3) };
    let mut manager = LoopManager::start(bounds);
    assert_eq!(manager.after_attempt(Attempt::Exited(1)), Ok(Decision::Retry(0)));
    assert_eq!(manager.iteration(), 1);
    assert_eq!(manager.after_attempt(Attempt::Exited(1)), Ok(Decision::Retry(0)));
    assert_eq!(manager.iteration(), 2);
    assert_eq!(manager.after_attempt(Attempt::Exited(1)), Err(RetryError::MaximumIterations));
    assert_eq!(manager.iteration(), 2);
}

#[test]
fn steps_run_into_maximum_iterations() {
    let bounds = Bounds { timeout: None, interval: None, maximum_iterations: Some(3) };
    let mut manager = LoopManager::start(bounds);
    assert_eq!(manager.step(), Ok(()));
    assert_eq!(manager.step(), Ok(()));
    assert_eq!(manager.iteration(), 2);
    assert_eq!(manager.step(), Err(RetryError::MaximumIterations));
    assert_eq!(manager.iteration(), 2);
}

#[test]
fn waits_grow_with_each_failure() {
    let bounds = Bounds { timeout: None, interval: Some(SECOND), maximum_iterations: None };
    let mut manager = LoopManager::new(SystemTime::now(), bounds);
    let mut elapsed: u64 = 0;
    for k in 1..=200u64 {
        let ran_for = 20_000_000 + k;
        elapsed += ran_for;
        let at = Elapsed::from_nanos(elapsed);
        let decision = manager.after_attempt_at(Attempt::Exited(1), at, at);
        let wait = k * SECOND - elapsed;
        assert_eq!(decision, Ok(Decision::Retry(wait as u128)));
        assert_eq!(manager.iteration() as u64, k);
        elapsed += wait;
        assert_eq!(elapsed, k * SECOND);
    }
}

#[test]
fn waits_by_the_clock_stay_within_the_schedule() {
    let bounds = Bounds { timeout: None, interval: Some(SECOND), maximum_iterations: None };
    let mut manager = LoopManager::start(bounds);
    for k in 1..=5u128 {
        match manager.after_attempt(Attempt::Exited(1)) {
            Ok(Decision::Retry(wait)) => {
                assert!(wait <= k * SECOND as u128);
                assert!(wait > (k - 1) * SECOND as u128);
            },
            other => panic!("the loop stopped with {:?}", other),
        }
    }
    assert_eq!(manager.iteration(), 5);
}

#[test]
fn command_that_cannot_start_ends_the_loop_in_failure() {
    let bounds = Bounds { timeout: None, interval: None, maximum_iterations: None };
    let mut manager = LoopManager::start(bounds);
    assert_eq!(manager.after_attempt(Attempt::SpawnFailed), Err(RetryError::Spawn));
    assert_eq!(manager.iteration(), 0);
    let at = Elapsed::from_nanos(0);
    assert_eq!(manager.after_attempt_at(Attempt::SpawnFailed, at, at), Err(RetryError::Spawn));
    assert_eq!(manager.iteration(), 0);
}

#[test]
fn any_exit_but_zero_is_a_failure() {
    let bounds = Bounds { timeout: None, interval: None, maximum_iterations: None };
    let mut manager = LoopManager::start(bounds);
    let at = Elapsed::from_nanos(0);
    assert_eq!(manager.after_attempt_at(Attempt::Exited(1), at, at), Ok(Decision::Retry(0)));
    assert_eq!(manager.after_attempt_at(Attempt::Exited(-1), at, at), Ok(Decision::Retry(0)));
    assert_eq!(manager.after_attempt_at(Attempt::Exited(255), at, at), Ok(Decision::Retry(0)));
    assert_eq!(manager.after_attempt_at(Attempt::Exited(i32::MIN), at, at), Ok(Decision::Retry(0)));
    assert_eq!(manager.after_attempt_at(Attempt::Terminated, at, at), Ok(Decision::Retry(0)));
    assert_eq!(manager.iteration(), 5);
    assert_eq!(manager.after_attempt(Attempt::Terminated), Ok(Decision::Retry(0)));
    assert_eq!(manager.iteration(), 6);
}

#[test]
fn failed_attempt_takes_step_and_wait_at_their_own_readings() {
    let bounds = Bounds { timeout: Some(10 * SECOND), interval: Some(4 * SECOND), maximum_iterations: Some(3) };
    let mut manager = LoopManager::new(SystemTime::now(), bounds);
    let decision = manager.after_attempt_at(
        Attempt::Exited(2),
        Elapsed::from_nanos(SECOND),
        Elapsed::from_nanos(SECOND + 500),
    );
    assert_eq!(decision, Ok(Decision::Retry(3 * SECOND as u128 - 500)));
    let decision = manager.after_attempt_at(
        Attempt::Exited(2),
        Elapsed::from_nanos(9 * SECOND),
        Elapsed::from_nanos(11 * SECOND),
    );
    assert_eq!(decision, Ok(Decision::Retry(0)));
    assert_eq!(manager.iteration(), 2);
    let late = Elapsed::from_nanos(10 * SECOND);
    assert_eq!(manager.after_attempt_at(Attempt::Exited(2), late, late), Err(RetryError::Timeout));
    let early = Elapsed::from_nanos(0);
    assert_eq!(
        manager.after_attempt_at(Attempt::Exited(2), early, early),
        Err(RetryError::MaximumIterations)
    );
    assert_eq!(manager.iteration(), 2);
}

#[test]
fn failed_attempt_meets_clock_error() {
    let start = SystemTime::now() + Duration::from_secs(3600);
    let timed = Bounds { timeout: Some(SECOND), interval: None, maximum_iterations: None };
    let mut manager = LoopManager::new(start, timed);
    assert_eq!(manager.after_attempt(Attempt::Exited(1)), Err(RetryError::Clock));
    assert_eq!(manager.iteration(), 0);
    let spaced = Bounds { timeout: None, interval: Some(SECOND), maximum_iterations: None };
    let mut manager = LoopManager::new(start, spaced);
    assert_eq!(manager.after_attempt(Attempt::Exited(1)), Err(RetryError::Clock));
    assert_eq!(manager.iteration(), 1);
    assert_eq!(manager.after_attempt(Attempt::Exited(0)), Ok(Decision::Done));
    assert_eq!(manager.after_attempt(Attempt::SpawnFailed), Err(RetryError::Spawn));
}
