//! The monotonic clock that entries of the address cache are stamped
//! with. A reading is a number of nanoseconds; nothing is proved of it
//! but that it is one.

use std::time::Instant;
use vstd::prelude::*;

verus! {

/// A point on the monotonic clock. Nothing is known of its value.
#[verifier::external_type_specification]
#[verifier::external_body]
pub struct ExInstant(std::time::Instant);

/// `Instant::now` reads the monotonic clock. Nothing is claimed of the
/// instant it returns.
pub assume_specification[ std::time::Instant::now ]() -> (now: std::time::Instant);

/// `Instant::elapsed` measures the time since the instant was taken.
/// Nothing is claimed of the duration it returns.
pub assume_specification[ std::time::Instant::elapsed ](
    instant: &std::time::Instant,
) -> (elapsed: core::time::Duration);

/// `Duration::as_nanos` gives a duration as a whole number of
/// nanoseconds. Nothing is claimed of the number it returns.
pub assume_specification[ core::time::Duration::as_nanos ](
    duration: &core::time::Duration,
) -> (nanos: u128);

/// A clock that counts from the moment it was started.
#[derive(Debug)]
pub struct Clock {
    epoch: Instant,
}

impl Clock {
    /// Starts a clock.
    pub fn start() -> Clock {
        Clock { epoch: Instant::now() }
    }

    /// The current reading: nanoseconds since the clock was started.
    /// Two readings may differ, and what is proved of the callers holds
    /// for every reading.
    pub fn nanos(&self) -> u128 {
        let elapsed = self.epoch.elapsed();
        elapsed.as_nanos()
    }
}

} // verus!
