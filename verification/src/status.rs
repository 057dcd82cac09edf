//! The status line: how far a loop has come, in words.

use vstd::prelude::*;
use std::time::Duration;
use crate::clock::{Elapsed, NANOS_PER_SEC};

verus! {

/// What `std::time::Duration` prints of itself with `{:?}`, for a span of
/// `nanos` nanoseconds.
pub uninterp spec fn duration_text(nanos: nat) -> Seq<char>;

/// Formats `Duration::new(secs, subsec_nanos)` with `{:?}`. The text depends
/// on the length of the span alone, and is known here only by its name.
/// `Duration::new` panics where the nanoseconds carry over into seconds that
/// are full; with less than a second of them nothing is carried.
#[verifier::external_body]
fn debug_text(secs: u64, subsec_nanos: u32) -> (text: String)
    requires
        subsec_nanos < NANOS_PER_SEC,
    ensures
        text@ == duration_text((secs * NANOS_PER_SEC + subsec_nanos) as nat),
{
    format!("{:?}", Duration::new(secs, subsec_nanos))
}

/// The character for a digit from 0 to 9.
pub open spec fn digit(d: nat) -> char
    recommends
        d < 10,
{
    seq!['0', '1', '2', '3', '4', '5', '6', '7', '8', '9'][d as int]
}

/// A number in decimal notation, without leading zeros.
pub open spec fn decimal(n: nat) -> Seq<char>
    decreases n,
{
    if n < 10 {
        seq![digit(n)]
    } else {
        decimal(n / 10).push(digit(n % 10))
    }
}

/// The status line of a loop that has counted `iteration` iterations, where
/// `span` is the elapsed time in words.
pub open spec fn status_line(span: Seq<char>, iteration: nat) -> Seq<char> {
    "Elapsed time: "@ + span + "; Iteration: "@ + decimal(iteration)
}

fn digit_text(d: usize) -> (text: &'static str)
    requires
        d < 10,
    ensures
        text@ == seq![digit(d as nat)],
{
    proof {
        reveal_strlit("0");
        reveal_strlit("1");
        reveal_strlit("2");
        reveal_strlit("3");
        reveal_strlit("4");
        reveal_strlit("5");
        reveal_strlit("6");
        reveal_strlit("7");
        reveal_strlit("8");
        reveal_strlit("9");
    }
    let text = match d {
        0 => "0",
        1 => "1",
        2 => "2",
        3 => "3",
        4 => "4",
        5 => "5",
        6 => "6",
        7 => "7",
        8 => "8",
        _ => "9",
    };
    assert(text@ =~= seq![digit(d as nat)]);
    text
}

/// Writes `n` in decimal notation.
pub fn decimal_text(n: usize) -> (text: String)
    ensures
        text@ == decimal(n as nat),
    decreases n,
{
    if n < 10 {
        String::from_str(digit_text(n))
    } else {
        let text = decimal_text(n / 10).concat(digit_text(n % 10));
        assert(text@ =~= decimal((n / 10) as nat).push(digit((n % 10) as nat)));
        text
    }
}

/// Writes the status line of a loop that has counted `iteration`
/// iterations, around the elapsed time in words.
pub fn compose_status(span: &str, iteration: usize) -> (text: String)
    ensures
        text@ == status_line(span@, iteration as nat),
{
    let count = decimal_text(iteration);
    String::from_str("Elapsed time: ").concat(span).concat("; Iteration: ").concat(count.as_str())
}

/// Writes the status line of a loop that has counted `iteration` iterations
/// when `elapsed` has passed since its start.
pub fn status_text(elapsed: Elapsed, iteration: usize) -> (text: String)
    ensures
        text@ == status_line(duration_text(elapsed@), iteration as nat),
{
    let span = debug_text(elapsed.secs(), elapsed.subsec_nanos());
    compose_status(span.as_str(), iteration)
}

} // verus!
