//! A stopwatch over the monotonic system clock.

use std::time::{Duration, Instant};
use vstd::prelude::*;

verus! {

/// `std::time::Instant`: a reading of the monotonic clock.  Nothing is known
/// of what a reading holds.
#[verifier::external_type_specification]
#[verifier::external_body]
pub struct ExInstant(std::time::Instant);

/// `Instant::now` reads the clock.  What it returns depends on when it is
/// called, so nothing is claimed of the reading.
pub assume_specification[ std::time::Instant::now ]() -> (reading: Instant)
;

/// `Instant::elapsed` measures the time since the reading was taken.  The
/// result depends on when it is called, so nothing is claimed of it.
pub assume_specification[ std::time::Instant::elapsed ](reading: &Instant) -> (span: Duration)
;

/// `Duration::as_nanos` gives the whole span in nanoseconds.  Nothing is
/// claimed of the number: the spans measured here come from the clock.
pub assume_specification[ std::time::Duration::as_nanos ](span: &Duration) -> (nanos: u128)
;

/// A stopwatch: remembers the instant at which it was last reset.
#[derive(Debug)]
pub struct Now(Instant);

impl Default for Now {
    /// A stopwatch started at the moment of the call.
    fn default() -> Self {
        Self(Instant::now())
    }
}

impl Now {
    /// The time that has passed since the stopwatch was started or last reset.
    pub fn elapsed(&self) -> Duration {
        self.0.elapsed()
    }

    /// Starts measuring afresh from the moment of the call.
    pub fn reset(&mut self) {
        self.0 = Instant::now();
    }

    /// The time that has passed since the last reset, in nanoseconds.
    pub fn elapsed_nanos(&self) -> u128 {
        self.elapsed().as_nanos()
    }
}

} // verus!
