//! Readings of the clock, as plain numbers.

use vstd::prelude::*;
use std::time::{SystemTime, SystemTimeError};
use crate::error::RetryError;

verus! {

/// Nanoseconds in one second.
pub const NANOS_PER_SEC: u32 = 1_000_000_000;

/// Nanoseconds in one millisecond.
pub const NANOS_PER_MILLI: u64 = 1_000_000;

/// `std::time::SystemTime`, a point in time as the system clock tells it.
/// Nothing is known of what a value holds.
#[verifier::external_type_specification]
#[verifier::external_body]
pub struct ExSystemTime(std::time::SystemTime);

/// `std::time::SystemTimeError`, with which the clock answers when asked for
/// the time since a point that lies ahead of it.
#[verifier::external_type_specification]
#[verifier::external_body]
pub struct ExSystemTimeError(std::time::SystemTimeError);

/// `SystemTime::now` reads the system clock. Nothing is claimed of the
/// point in time that it returns.
pub assume_specification[ std::time::SystemTime::now ]() -> (now: std::time::SystemTime);

/// `SystemTime::elapsed` gives the time from `start` to now, or an error
/// where the clock is behind `start`. The time is handed out as its whole
/// seconds (`Duration::as_secs`) and the nanoseconds beyond them
/// (`Duration::subsec_nanos`). The one claim: these nanoseconds are less than
/// a second.
#[verifier::external_body]
fn time_since(start: &SystemTime) -> (reading: Result<(u64, u32), SystemTimeError>)
    ensures
        reading matches Ok(parts) ==> parts.1 < NANOS_PER_SEC,
{
    match start.elapsed() {
        Ok(span) => Ok((span.as_secs(), span.subsec_nanos())),
        Err(error) => Err(error),
    }
}

/// The span of `millis` milliseconds in nanoseconds, as far as a `u64` can
/// hold it.
pub open spec fn millis_in_nanos(millis: u64) -> u64 {
    if millis * NANOS_PER_MILLI <= u64::MAX {
        (millis * NANOS_PER_MILLI) as u64
    } else {
        u64::MAX
    }
}

/// Turns a span in milliseconds into nanoseconds. A span too long for a
/// `u64` of nanoseconds becomes the longest that there is.
pub fn nanos_from_millis(millis: u64) -> (nanos: u64)
    ensures
        nanos == millis_in_nanos(millis),
{
    match millis.checked_mul(NANOS_PER_MILLI) {
        Some(nanos) => nanos,
        None => u64::MAX,
    }
}

/// A span of time read off the clock, held as whole seconds and the
/// nanoseconds beyond them. Its view is the whole span in nanoseconds.
#[derive(Clone, Copy, Debug)]
pub struct Elapsed {
    secs: u64,
    subsec_nanos: u32,
}

impl View for Elapsed {
    type V = nat;

    closed spec fn view(&self) -> nat {
        (self.secs * NANOS_PER_SEC + self.subsec_nanos) as nat
    }
}

impl Elapsed {
    #[verifier::type_invariant]
    spec fn well_formed(self) -> bool {
        self.subsec_nanos < NANOS_PER_SEC
    }

    /// The span of `nanos` nanoseconds.
    pub fn from_nanos(nanos: u64) -> (span: Elapsed)
        ensures
            span@ == nanos,
    {
        let per_sec: u64 = NANOS_PER_SEC as u64;
        Elapsed { secs: nanos / per_sec, subsec_nanos: (nanos % per_sec) as u32 }
    }

    /// The span of `secs` seconds and `subsec_nanos` nanoseconds, if the
    /// latter are less than a second.
    pub fn from_parts(secs: u64, subsec_nanos: u32) -> (span: Option<Elapsed>)
        ensures
            span is Some <==> subsec_nanos < NANOS_PER_SEC,
            span matches Some(s) ==> s@ == secs * NANOS_PER_SEC + subsec_nanos,
    {
        if subsec_nanos < NANOS_PER_SEC {
            Some(Elapsed { secs, subsec_nanos })
        } else {
            None
        }
    }

    /// The time that has passed since `start`, or `RetryError::Clock` where
    /// the clock is behind `start`.
    pub fn since(start: &SystemTime) -> (reading: Result<Elapsed, RetryError>)
        ensures
            reading matches Err(error) ==> error == RetryError::Clock,
    {
        // The clock is asked once; what its answer stands for is for
        // `from_clock` to say.
        let answer = time_since(start);
        Elapsed::from_clock(answer)
    }

    /// The reading that an answer of the clock stands for. An answer of
    /// whole seconds and less than a second of nanoseconds beyond them is
    /// the span of that length. Any other answer is a failure of the clock:
    /// its error, and parts that make no span.
    pub fn from_clock(answer: Result<(u64, u32), SystemTimeError>) -> (reading: Result<
        Elapsed,
        RetryError,
    >)
        ensures
            match answer {
                Ok(parts) => if parts.1 < NANOS_PER_SEC {
                    reading matches Ok(span) && span@ == parts.0 * NANOS_PER_SEC + parts.1
                } else {
                    reading == Err::<Elapsed, RetryError>(RetryError::Clock)
                },
                Err(_) => reading == Err::<Elapsed, RetryError>(RetryError::Clock),
            },
    {
        match answer {
            Ok(parts) => match Elapsed::from_parts(parts.0, parts.1) {
                Some(span) => Ok(span),
                None => Err(RetryError::Clock),
            },
            Err(_) => Err(RetryError::Clock),
        }
    }

    /// The whole seconds of the span.
    pub fn secs(&self) -> (secs: u64)
        ensures
            secs == self@ / (NANOS_PER_SEC as nat),
    {
        proof {
            use_type_invariant(self);
        }
        self.secs
    }

    /// The nanoseconds of the span beyond its whole seconds.
    pub fn subsec_nanos(&self) -> (nanos: u32)
        ensures
            nanos == self@ % (NANOS_PER_SEC as nat),
    {
        proof {
            use_type_invariant(self);
        }
        self.subsec_nanos
    }

    /// The whole span in nanoseconds.
    pub fn as_nanos(&self) -> (nanos: u128)
        ensures
            nanos == self@,
    {
        proof {
            use_type_invariant(self);
        }
        let per_sec: u128 = NANOS_PER_SEC as u128;
        (self.secs as u128) * per_sec + (self.subsec_nanos as u128)
    }
}

} // verus!
