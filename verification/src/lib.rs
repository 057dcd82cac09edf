//! Loop control for running a command again and again until it succeeds.
//!
//! A [`LoopManager`] is told how each attempt ended and decides whether the
//! command may be tried again, how long to wait before that, and when to give
//! up. It holds the bounds of the loop and counts its iterations; the time
//! that has passed is read off the clock whenever it is needed, or handed in
//! by the caller. All spans of time are counted in nanoseconds.
//!
//! - [`state`] describes the loop as a mathematical object and states what
//!   holds of it.
//! - [`manager`] holds the loop manager itself.
//! - [`clock`] reads the clock.
//! - [`status`] writes the status line.
//! - [`error`] names the ways in which the loop fails.

pub mod clock;
pub mod error;
pub mod manager;
pub mod state;
pub mod status;

pub use crate::clock::{nanos_from_millis, Elapsed};
pub use crate::error::RetryError;
pub use crate::manager::LoopManager;
pub use crate::state::{Attempt, Bounds, Decision, LoopState};
