//! The ways in which a retry loop ends without success.

use vstd::prelude::*;

verus! {

/// Why a retry loop gave up.
#[derive(Clone, Copy, Debug, PartialEq, Eq, Structural)]
pub enum RetryError {
    /// The time allowed for the whole loop ran out before the command succeeded.
    Timeout,
    /// The allowed number of iterations was reached before the command succeeded.
    MaximumIterations,
    /// The command could not be launched, so there was nothing to retry.
    Spawn,
    /// The clock put the present before the start of the loop.
    Clock,
}

impl RetryError {
    /// The exit code that stands for this error: never zero, and a different
    /// one for each kind of error.
    pub open spec fn code(self) -> int {
        match self {
            RetryError::Timeout => 2,
            RetryError::MaximumIterations => 3,
            RetryError::Spawn => 4,
            RetryError::Clock => 5,
        }
    }

    /// The exit code with which a program reports this error.
    pub fn exit_code(&self) -> (code: i32)
        ensures
            code == self.code(),
    {
        match self {
            RetryError::Timeout => 2,
            RetryError::MaximumIterations => 3,
            RetryError::Spawn => 4,
            RetryError::Clock => 5,
        }
    }

    /// One line that tells a reader what went wrong.
    pub fn message(&self) -> (text: &'static str)
        ensures
            *self == RetryError::Timeout ==> text@
                == "Retrying command did not succeed due to timeout"@,
            *self == RetryError::MaximumIterations ==> text@
                == "Retrying command reached maximum iterations"@,
            *self == RetryError::Spawn ==> text@ == "Command could not be started"@,
            *self == RetryError::Clock ==> text@
                == "System clock is behind the start of the loop"@,
    {
        match self {
            RetryError::Timeout => "Retrying command did not succeed due to timeout",
            RetryError::MaximumIterations => "Retrying command reached maximum iterations",
            RetryError::Spawn => "Command could not be started",
            RetryError::Clock => "System clock is behind the start of the loop",
        }
    }
}

/// Exit codes tell the errors apart: no code is zero, which stands for
/// success, and two errors share a code only if they are the same error.
pub proof fn lemma_exit_codes_distinct(a: RetryError, b: RetryError)
    ensures
        a.code() != 0,
        a.code() == b.code() <==> a == b,
{
}

} // verus!
