//! Wall-clock timing around render passes.
//!
//! Nothing can be promised of what a clock reads, so the trusted
//! declarations below carry no postconditions; the library only moves the
//! readings around.

use vstd::prelude::*;

verus! {

#[verifier::external_type_specification]
#[verifier::external_body]
pub struct ExInstant(std::time::Instant);

/// Relies on std::time::Instant::now for a reading of the monotonic clock;
/// nothing is assumed about its value.
pub assume_specification[ std::time::Instant::now ]() -> std::time::Instant;

/// Relies on std::time::Instant::elapsed for the time since the instant;
/// nothing is assumed about its value.
pub assume_specification[ std::time::Instant::elapsed ](i: &std::time::Instant)
    -> std::time::Duration;

/// A stopwatch started at construction.
pub struct Clock {
    start: std::time::Instant,
}

impl Clock {
    /// A clock started now.
    pub fn new() -> Clock {
        Clock { start: std::time::Instant::now() }
    }

    /// The time since the clock started.
    pub fn elapsed(&self) -> std::time::Duration {
        self.start.elapsed()
    }

    /// The time since the clock started; the clock restarts now.
    pub fn stop_watch(&mut self) -> std::time::Duration {
        let elapsed = self.elapsed();
        self.start = std::time::Instant::now();
        elapsed
    }
}

} // verus!
