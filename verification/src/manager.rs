//! The loop manager: the state of a retry loop, and the clock it started by.

use vstd::prelude::*;
use std::time::SystemTime;
use crate::clock::Elapsed;
use crate::error::RetryError;
use crate::state::{Attempt, Bounds, Decision, LoopState};
use crate::status::{duration_text, status_line, status_text};

verus! {

/// Decides, after each failed attempt, whether a command may be tried again
/// and how long to wait before that.
#[derive(Debug)]
pub struct LoopManager {
    start_of_day: SystemTime,
    bounds: Bounds,
    iteration: usize,
}

impl View for LoopManager {
    type V = LoopState;

    closed spec fn view(&self) -> LoopState {
        LoopState { bounds: self.bounds, iteration: self.iteration as nat }
    }
}

impl LoopManager {
    /// The moment at which the loop began.
    pub closed spec fn started(self) -> SystemTime {
        self.start_of_day
    }

    /// Whether the count of iterations can still grow: either a bound on
    /// iterations stops it in time, or it is below the largest `usize`.
    pub open spec fn spec_can_count(&self) -> bool {
        self@.bounds.maximum_iterations is None ==> self@.iteration < usize::MAX
    }

    /// Whether the count of iterations can still grow, which a step asks
    /// for.
    #[verifier::when_used_as_spec(spec_can_count)]
    pub fn can_count(&self) -> (able: bool)
        ensures
            able == self.spec_can_count(),
    {
        self.bounds.maximum_iterations.is_some() || self.iteration < usize::MAX
    }

    /// A manager for a loop that began at `start_of_day`, with no iteration
    /// behind it.
    pub fn new(start_of_day: SystemTime, bounds: Bounds) -> (manager: LoopManager)
        ensures
            manager@ == LoopState::initial(bounds),
            manager.started() == start_of_day,
    {
        LoopManager { start_of_day, bounds, iteration: 0 }
    }

    /// A manager for a loop that begins now.
    pub fn start(bounds: Bounds) -> (manager: LoopManager)
        ensures
            manager@ == LoopState::initial(bounds),
    {
        LoopManager::new(SystemTime::now(), bounds)
    }

    /// Takes note of a failed attempt when `elapsed` has passed since the
    /// start of the loop: fails where a bound is reached, and else counts one
    /// more iteration.
    pub fn step_at(&mut self, elapsed: Elapsed) -> (verdict: Result<(), RetryError>)
        requires
            old(self).can_count(),
        ensures
            verdict == old(self)@.verdict(elapsed@),
            final(self)@ == old(self)@.after(verdict),
            final(self).started() == old(self).started(),
    {
        if let Some(timeout) = self.bounds.timeout {
            if !(elapsed.as_nanos() < timeout as u128) {
                return Err(RetryError::Timeout);
            }
        }
        if let Some(maximum) = self.bounds.maximum_iterations {
            if maximum == 0 || self.iteration >= maximum - 1 {
                return Err(RetryError::MaximumIterations);
            }
        }
        self.iteration += 1;
        Ok(())
    }

    /// How long to wait for the next attempt when `elapsed` has passed since
    /// the start of the loop, in nanoseconds.
    pub fn interval_at(&self, elapsed: Elapsed) -> (wait: u128)
        ensures
            wait == self@.wait(elapsed@),
            self@.bounds.interval is None ==> wait == 0,
    {
        match self.bounds.interval {
            Some(interval) => {
                assert(interval * self.iteration <= u128::MAX) by (nonlinear_arith)
                    requires
                        interval <= u64::MAX,
                        self.iteration <= u64::MAX,
                ;
                let due: u128 = (interval as u128) * (self.iteration as u128);
                let elapsed_nanos: u128 = elapsed.as_nanos();
                if due > elapsed_nanos {
                    due - elapsed_nanos
                } else {
                    0
                }
            },
            None => 0,
        }
    }

    /// The time that has passed since the start of the loop, or
    /// `RetryError::Clock` where the clock is behind that start.
    pub fn elapsed(&self) -> (reading: Result<Elapsed, RetryError>)
        ensures
            reading matches Err(error) ==> error == RetryError::Clock,
    {
        Elapsed::since(&self.start_of_day)
    }

    /// Takes note of a failed attempt: fails where a bound is reached, and
    /// else counts one more iteration. The clock is read only where a
    /// timeout is set.
    pub fn step(&mut self) -> (verdict: Result<(), RetryError>)
        requires
            old(self).can_count(),
        ensures
            old(self)@.may_answer(verdict),
            final(self)@ == old(self)@.after(verdict),
            final(self).started() == old(self).started(),
    {
        let elapsed = match self.bounds.timeout {
            Some(_) => match self.elapsed() {
                Ok(reading) => reading,
                Err(error) => {
                    return Err(error);
                },
            },
            None => Elapsed::from_nanos(0),
        };
        self.step_at(elapsed)
    }

    /// How long to wait for the next attempt, in nanoseconds. The clock is
    /// read only where an interval is set.
    pub fn interval(&self) -> (wait: Result<u128, RetryError>)
        ensures
            self@.may_wait(wait),
            wait matches Ok(nanos) ==> nanos <= self@.due(),
    {
        match self.bounds.interval {
            Some(_) => match self.elapsed() {
                Ok(reading) => Ok(self.interval_at(reading)),
                Err(error) => Err(error),
            },
            None => Ok(0),
        }
    }

    /// Decides what follows `attempt`, when `at_step` has passed since the
    /// start of the loop as the attempt is taken note of, and `at_wait` as
    /// the wait is worked out.
    pub fn after_attempt_at(
        &mut self,
        attempt: Attempt,
        at_step: Elapsed,
        at_wait: Elapsed,
    ) -> (decision: Result<Decision, RetryError>)
        requires
            attempt.failed() ==> old(self).can_count(),
        ensures
            old(self)@.decides(attempt, at_step@, at_wait@, decision),
            final(self)@ == old(self)@.after_attempt(attempt, at_step@),
            final(self).started() == old(self).started(),
    {
        match attempt {
            Attempt::SpawnFailed => Err(RetryError::Spawn),
            Attempt::Exited(0) => Ok(Decision::Done),
            _ => match self.step_at(at_step) {
                Ok(()) => Ok(Decision::Retry(self.interval_at(at_wait))),
                Err(error) => Err(error),
            },
        }
    }

    /// Decides what follows `attempt`, reading the clock as the need
    /// arises: once to take note of a failed attempt, where a timeout is
    /// set, and once more to work out the wait, where an interval is set.
    pub fn after_attempt(&mut self, attempt: Attempt) -> (decision: Result<Decision, RetryError>)
        requires
            attempt.failed() ==> old(self).can_count(),
        ensures
            old(self)@.may_decide(attempt, decision, final(self)@),
            final(self).started() == old(self).started(),
    {
        match attempt {
            Attempt::SpawnFailed => Err(RetryError::Spawn),
            Attempt::Exited(0) => Ok(Decision::Done),
            _ => match self.step() {
                Ok(()) => match self.interval() {
                    Ok(wait) => Ok(Decision::Retry(wait)),
                    Err(error) => Err(error),
                },
                Err(error) => Err(error),
            },
        }
    }

    /// The status line of the loop when `elapsed` has passed since its
    /// start.
    pub fn status_at(&self, elapsed: Elapsed) -> (text: String)
        ensures
            text@ == status_line(duration_text(elapsed@), self@.iteration),
    {
        status_text(elapsed, self.iteration)
    }

    /// The status line of the loop as it is now, or `RetryError::Clock`
    /// where the clock is behind the start of the loop.
    pub fn status(&self) -> (line: Result<String, RetryError>)
        ensures
            match line {
                Ok(text) => exists|elapsed: nat|
                    text@ == status_line(#[trigger] duration_text(elapsed), self@.iteration),
                Err(error) => error == RetryError::Clock,
            },
    {
        match self.elapsed() {
            Ok(reading) => Ok(self.status_at(reading)),
            Err(error) => Err(error),
        }
    }

    /// The number of failed attempts after which the loop was allowed to go
    /// on.
    pub fn iteration(&self) -> (iteration: usize)
        ensures
            iteration == self@.iteration,
    {
        self.iteration
    }

    /// What holds the loop back.
    pub fn bounds(&self) -> (bounds: Bounds)
        ensures
            bounds == self@.bounds,
    {
        self.bounds
    }
}

} // verus!
