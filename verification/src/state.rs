//! The retry loop as a mathematical object: its bounds, its count of
//! iterations, and what follows from them.

use vstd::prelude::*;
use crate::error::RetryError;

verus! {

/// What holds a retry loop back. Spans of time are in nanoseconds; a bound
/// that is `None` is not set.
#[derive(Clone, Copy, Debug, PartialEq, Eq, Structural)]
pub struct Bounds {
    /// The loop goes on only while less time than this has passed since its
    /// start.
    pub timeout: Option<u64>,
    /// The base of the waiting schedule: the retry after iteration `k` is
    /// due `k` times this span after the start of the loop.
    pub interval: Option<u64>,
    /// The loop goes on only while its count of iterations, taken one
    /// further, stays below this.
    pub maximum_iterations: Option<usize>,
}

/// How one attempt to run the command ended.
#[derive(Clone, Copy, Debug, PartialEq, Eq, Structural)]
pub enum Attempt {
    /// The command ran and ended by itself, with this exit code.
    Exited(i32),
    /// The command ran and was ended from outside, so that it left no exit
    /// code.
    Terminated,
    /// The command could not be launched.
    SpawnFailed,
}

impl Attempt {
    /// Whether the command did what it was run for: it ended by itself, with
    /// exit code zero.
    pub open spec fn succeeded(self) -> bool {
        self == Attempt::Exited(0)
    }

    /// Whether the command ran and did not succeed: the one outcome after
    /// which it is run again.
    pub open spec fn failed(self) -> bool {
        self != Attempt::Exited(0) && self != Attempt::SpawnFailed
    }
}

/// What the loop does after an attempt that does not end it in failure.
#[derive(Clone, Copy, Debug, PartialEq, Eq, Structural)]
pub enum Decision {
    /// The command succeeded: the loop is over.
    Done,
    /// The command is to be run again, after a wait of this many
    /// nanoseconds.
    Retry(u128),
}

/// The state of a retry loop: its bounds, which never change, and the number
/// of failed attempts after which it was allowed to go on.
pub struct LoopState {
    pub bounds: Bounds,
    pub iteration: nat,
}

impl LoopState {
    /// The state in which a loop with these bounds begins.
    pub open spec fn initial(bounds: Bounds) -> LoopState {
        LoopState { bounds, iteration: 0 }
    }

    /// Whether the timeout is set and `elapsed` has reached it.
    pub open spec fn timed_out(self, elapsed: nat) -> bool {
        self.bounds.timeout matches Some(limit) && elapsed >= limit
    }

    /// Whether the bound on iterations is set and one more iteration would
    /// reach it.
    pub open spec fn exhausted(self) -> bool {
        self.bounds.maximum_iterations matches Some(limit) && self.iteration + 1 >= limit
    }

    /// What a step answers when `elapsed` has passed since the start of the
    /// loop: the timeout is looked at first, then the bound on iterations.
    pub open spec fn verdict(self, elapsed: nat) -> Result<(), RetryError> {
        if self.timed_out(elapsed) {
            Err(RetryError::Timeout)
        } else if self.exhausted() {
            Err(RetryError::MaximumIterations)
        } else {
            Ok(())
        }
    }

    /// The state one iteration further.
    pub open spec fn advanced(self) -> LoopState {
        LoopState { iteration: self.iteration + 1, ..self }
    }

    /// The state that a step leaves behind when it has answered `verdict`:
    /// one iteration further where the loop may go on, unchanged where it
    /// may not.
    pub open spec fn after(self, verdict: Result<(), RetryError>) -> LoopState {
        if verdict is Ok {
            self.advanced()
        } else {
            self
        }
    }

    /// How long after the start of the loop the next attempt is due: the
    /// interval times the count of iterations, or at once where no interval
    /// is set.
    pub open spec fn due(self) -> nat {
        match self.bounds.interval {
            Some(interval) => interval as nat * self.iteration,
            None => 0,
        }
    }

    /// How long to wait for the next attempt when `elapsed` has passed since
    /// the start of the loop: what is left until the attempt is due, and
    /// nothing where that moment is past.
    pub open spec fn wait(self, elapsed: nat) -> nat {
        if self.due() > elapsed {
            (self.due() - elapsed) as nat
        } else {
            0
        }
    }

    /// The state after one step at each of `readings` in turn, where a step
    /// that ends the loop is passed over.
    pub open spec fn run(self, readings: Seq<nat>) -> LoopState
        decreases readings.len(),
    {
        if readings.len() == 0 {
            self
        } else {
            let before = self.run(readings.drop_last());
            before.after(before.verdict(readings.last()))
        }
    }

    /// Whether `decision` is the answer to `attempt`, when `at_step` has
    /// passed since the start of the loop as the attempt is taken note of,
    /// and `at_wait` as the wait is worked out. A command that could not be
    /// launched ends the loop in failure, one that succeeded ends it; any
    /// other is run again, after the wait of the state one iteration
    /// further, unless a bound is reached.
    pub open spec fn decides(
        self,
        attempt: Attempt,
        at_step: nat,
        at_wait: nat,
        decision: Result<Decision, RetryError>,
    ) -> bool {
        if attempt == Attempt::SpawnFailed {
            decision == Err::<Decision, RetryError>(RetryError::Spawn)
        } else if attempt.succeeded() {
            decision == Ok::<Decision, RetryError>(Decision::Done)
        } else {
            match self.verdict(at_step) {
                Ok(()) => decision matches Ok(Decision::Retry(wait)) && wait
                    == self.advanced().wait(at_wait),
                Err(error) => decision == Err::<Decision, RetryError>(error),
            }
        }
    }

    /// The state that `attempt` leaves behind, when `at_step` has passed
    /// since the start of the loop as it is taken note of: only an attempt
    /// that failed changes anything.
    pub open spec fn after_attempt(self, attempt: Attempt, at_step: nat) -> LoopState {
        if attempt.failed() {
            self.after(self.verdict(at_step))
        } else {
            self
        }
    }

    /// Whether a step that reads the clock by itself may answer `verdict`.
    /// With no timeout set it does not look at the clock, and the answer is
    /// fixed. With a timeout, the answer is either that of some reading of
    /// the clock, or the failure of the clock.
    pub open spec fn may_answer(self, verdict: Result<(), RetryError>) -> bool {
        if self.bounds.timeout is Some {
            ||| verdict == Err::<(), RetryError>(RetryError::Clock)
            ||| exists|elapsed: nat| verdict == #[trigger] self.verdict(elapsed)
        } else {
            verdict == self.verdict(0)
        }
    }

    /// Whether `attempt` may be answered by `decision` and leave the state
    /// `next` behind, when the clock is read as the need arises. An attempt
    /// that did not fail is answered without the clock. After one that
    /// failed, either the step ends the loop and nothing changes, or the
    /// step lets the loop go on, one iteration is counted, and the wait is
    /// worked out for the new state, which may still end in the failure of
    /// the clock.
    pub open spec fn may_decide(
        self,
        attempt: Attempt,
        decision: Result<Decision, RetryError>,
        next: LoopState,
    ) -> bool {
        if attempt.failed() {
            ||| decision matches Err(error) && self.may_answer(Err(error)) && next == self
            ||| self.may_answer(Ok(())) && next == self.advanced() && match decision {
                Ok(Decision::Retry(wait)) => next.may_wait(Ok(wait)),
                Ok(Decision::Done) => false,
                Err(error) => next.may_wait(Err(error)),
            }
        } else {
            self.decides(attempt, 0, 0, decision) && next == self
        }
    }

    /// Whether the wait for the next attempt may come out as `wait` when the
    /// clock is read for it. With no interval set the clock is not looked
    /// at, and the wait is zero. With an interval, the wait is either that
    /// of some reading of the clock, or the failure of the clock.
    pub open spec fn may_wait(self, wait: Result<u128, RetryError>) -> bool {
        if self.bounds.interval is Some {
            match wait {
                Ok(nanos) => exists|elapsed: nat| nanos == #[trigger] self.wait(elapsed),
                Err(error) => error == RetryError::Clock,
            }
        } else {
            wait == Ok::<u128, RetryError>(0)
        }
    }
}

/// Once the timeout is reached a step fails with `Timeout`, whatever the
/// count of iterations and the bound on them, and leaves the state as it is.
pub proof fn lemma_timeout_ends_loop(state: LoopState, elapsed: nat)
    requires
        state.bounds.timeout matches Some(limit) && elapsed >= limit,
    ensures
        state.verdict(elapsed) == Err::<(), RetryError>(RetryError::Timeout),
        state.after(state.verdict(elapsed)) == state,
{
}

/// Short of the timeout, a step fails with `MaximumIterations` exactly when
/// one more iteration would reach the bound on them, and succeeds otherwise.
pub proof fn lemma_bound_ends_loop(state: LoopState, elapsed: nat)
    requires
        !state.timed_out(elapsed),
    ensures
        state.exhausted() <==> state.verdict(elapsed) == Err::<(), RetryError>(
            RetryError::MaximumIterations,
        ),
        !state.exhausted() <==> state.verdict(elapsed) is Ok,
        state.bounds.maximum_iterations is None ==> state.verdict(elapsed) is Ok,
{
}

/// A loop bounded by `limit` iterations, with `limit` at least one, is let
/// go on exactly `limit - 1` times: as long as no step meets the timeout,
/// each of the first `limit - 1` steps succeeds and counts one iteration,
/// and every step after them fails with `MaximumIterations` and counts
/// none.
pub proof fn lemma_bound_allows_one_less(bounds: Bounds, readings: Seq<nat>, limit: usize)
    requires
        bounds.maximum_iterations == Some(limit),
        limit >= 1,
        forall|i: int|
            0 <= i < readings.len() ==> !LoopState::initial(bounds).timed_out(
                #[trigger] readings[i],
            ),
    ensures
        ({
            let end = LoopState::initial(bounds).run(readings);
            &&& end.bounds == bounds
            &&& end.iteration == vstd::math::min(readings.len() as int, limit - 1)
            &&& forall|elapsed: nat|
                !end.timed_out(elapsed) ==> #[trigger] end.verdict(elapsed) == if readings.len()
                    < limit - 1 {
                    Ok::<(), RetryError>(())
                } else {
                    Err::<(), RetryError>(RetryError::MaximumIterations)
                }
        }),
    decreases readings.len(),
{
    if readings.len() > 0 {
        lemma_bound_allows_one_less(bounds, readings.drop_last(), limit);
    }
}

/// The count of iterations never goes down, and the bounds never change: a
/// step that lets the loop go on counts exactly one iteration, a step that
/// ends it counts none.
pub proof fn lemma_step_counts_one(state: LoopState, verdict: Result<(), RetryError>)
    ensures
        state.after(verdict).bounds == state.bounds,
        verdict is Ok ==> state.after(verdict).iteration == state.iteration + 1,
        verdict is Err ==> state.after(verdict).iteration == state.iteration,
        state.after(verdict).iteration >= state.iteration,
{
}

/// Over any run of steps the count of iterations grows by no more than the
/// number of steps, and never falls.
pub proof fn lemma_run_counts_up(state: LoopState, readings: Seq<nat>)
    ensures
        state.iteration <= state.run(readings).iteration <= state.iteration + readings.len(),
        state.run(readings).bounds == state.bounds,
        readings.len() > 0 ==> state.run(readings.drop_last()).iteration <= state.run(
            readings,
        ).iteration,
    decreases readings.len(),
{
    if readings.len() > 0 {
        lemma_run_counts_up(state, readings.drop_last());
    }
}

/// Whatever the clock says, a step that reads it succeeds only short of the
/// bound on iterations, fails with `MaximumIterations` only at that bound,
/// and fails with `Timeout` or `Clock` only where a timeout is set. With a
/// timeout of zero it never succeeds, and fails with one of these two.
pub proof fn lemma_step_by_the_clock(state: LoopState, verdict: Result<(), RetryError>)
    requires
        state.may_answer(verdict),
    ensures
        verdict is Ok ==> !state.exhausted() && state.bounds.timeout != Some(0u64),
        verdict == Err::<(), RetryError>(RetryError::MaximumIterations) ==> state.exhausted(),
        verdict == Err::<(), RetryError>(RetryError::Timeout) || verdict == Err::<(), RetryError>(
            RetryError::Clock,
        ) ==> state.bounds.timeout is Some,
        verdict != Err::<(), RetryError>(RetryError::Spawn),
        state.bounds.timeout == Some(0u64) ==> verdict == Err::<(), RetryError>(
            RetryError::Timeout,
        ) || verdict == Err::<(), RetryError>(RetryError::Clock),
{
}

/// An attempt changes the count of iterations only by the step that it
/// leads to: whatever the clock says, the count stays or goes up by one, and
/// it goes up exactly where the command is to be run again or the clock fails
/// after the step.
pub proof fn lemma_attempt_counts_at_most_one(
    state: LoopState,
    attempt: Attempt,
    decision: Result<Decision, RetryError>,
    next: LoopState,
)
    requires
        state.may_decide(attempt, decision, next),
    ensures
        next.bounds == state.bounds,
        next.iteration == state.iteration || next.iteration == state.iteration + 1,
        decision is Ok && decision->Ok_0 is Retry ==> next.iteration == state.iteration + 1,
        decision == Ok::<Decision, RetryError>(Decision::Done) ==> next == state,
        !attempt.failed() ==> next == state,
{
}

/// With an interval of `interval`, the wait after `state.iteration`
/// iterations is the interval times that count, less the time that has
/// passed since the start of the loop, and zero where that would fall below
/// zero.
pub proof fn lemma_wait_follows_schedule(state: LoopState, interval: u64, elapsed: nat)
    requires
        state.bounds.interval == Some(interval),
    ensures
        state.wait(elapsed) == vstd::math::max(0, interval * state.iteration - elapsed),
{
}

/// With no interval set there is never a wait.
pub proof fn lemma_no_interval_no_wait(state: LoopState, elapsed: nat)
    requires
        state.bounds.interval is None,
    ensures
        state.wait(elapsed) == 0,
        state.may_wait(Ok(0)),
        forall|wait: Result<u128, RetryError>| #[trigger]
            state.may_wait(wait) ==> wait == Ok::<u128, RetryError>(0),
{
}

} // verus!
