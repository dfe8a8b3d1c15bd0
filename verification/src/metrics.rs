//! Measuring how long an operation takes, and the labels under which
//! measurements are filed.

use vstd::prelude::*;
use std::time::{Duration, Instant};

verus! {

/// A point on the monotonic clock of the process.
#[verifier::external_type_specification]
#[verifier::external_body]
pub struct ExInstant(Instant);

/// The present point on the monotonic clock. Nothing is claimed of it.
pub assume_specification[ Instant::now ]() -> (instant: Instant)
;

/// The time that has passed since `instant` was taken. Nothing is claimed of
/// it: it depends on when the call is made.
pub assume_specification[ Instant::elapsed ](instant: &Instant) -> (elapsed: Duration)
;

/// The labels under which a measurement is filed.
#[derive(Debug)]
pub struct MetricLabels {
    pub service: String,
    pub version: String,
    pub environment: String,
    pub node_id: Option<String>,
    pub component: Option<String>,
    pub operation: Option<String>,
}

/// A stopwatch that runs from the moment it is made.
pub struct Timer {
    start: Instant,
}

impl Timer {
    /// A stopwatch that starts now.
    pub fn new() -> (timer: Self) {
        Timer { start: Instant::now() }
    }

    /// The time since the stopwatch was made.
    pub fn elapsed(&self) -> (elapsed: Duration) {
        self.start.elapsed()
    }
}

} // verus!
