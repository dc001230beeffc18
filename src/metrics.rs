//! Timing of pipeline stages.
use vstd::prelude::*;

verus! {

#[verifier::external_type_specification]
#[verifier::external_body]
pub struct ExInstant(std::time::Instant);

/// Relies on `std::time::Instant::now`.
#[verifier::external_body]
fn instant_now() -> (r: std::time::Instant) {
    std::time::Instant::now()
}

/// Relies on `std::time::Instant::elapsed`.
#[verifier::external_body]
fn instant_elapsed(start: &std::time::Instant) -> (r: std::time::Duration) {
    start.elapsed()
}

/// Measures how long an operation took.
pub struct Timer {
    start: std::time::Instant,
}

impl Timer {
    /// A timer started now.
    pub fn start() -> (r: Timer) {
        Timer { start: instant_now() }
    }

    /// Time since the timer started.
    pub fn elapsed(&self) -> (r: std::time::Duration) {
        instant_elapsed(&self.start)
    }
}

} // verus!
