//! Controller for a single timed digital output (a water pump on a GPIO pin).
//!
//! The controller is a state machine: callers feed it events (a request, the
//! outcome of a pin transition, the end of a hold) and carry out the action it
//! answers with. It guarantees that at most one activation holds the pin, that
//! over-long holds are refused before the pin is touched, and that the
//! exclusion flag is released on every path that ends an activation.
use vstd::prelude::*;

pub mod error;
pub mod laws;
pub mod worker;

pub use error::{PumpError, WorkerError};
pub use worker::{Action, Event, Phase, Worker};

verus! {

/// The longest hold, in milliseconds, that an activation may ask for.
pub const BIGGEST_POSSIBLE_DURATION: u64 = 150000;

} // verus!
