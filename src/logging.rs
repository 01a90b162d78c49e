//! Timing of operations.

use vstd::prelude::*;

use crate::clock::now_ms;
use vstd::string::StringExecFns;

verus! {

/// Measures how long a named operation takes.
#[derive(Debug, Clone)]
pub struct PerformanceTimer {
    /// Milliseconds since the Unix epoch when the operation started.
    start: u64,
    operation: String,
}

impl PerformanceTimer {
    pub closed spec fn start_spec(&self) -> u64 {
        self.start
    }

    pub closed spec fn operation_spec(&self) -> Seq<char> {
        self.operation@
    }

    /// Starts timing `operation` now.
    pub fn new(operation: &str) -> (r: Self)
        ensures
            r.operation_spec() == operation@,
    {
        PerformanceTimer { start: now_ms(), operation: String::from_str(operation) }
    }

    /// The name of the timed operation.
    pub fn operation(&self) -> (r: &str)
        ensures
            r@ == self.operation_spec(),
    {
        self.operation.as_str()
    }

    /// Milliseconds from the start to `now`, 0 if `now` is earlier.
    pub fn elapsed_ms_at(&self, now: u64) -> (r: u64)
        ensures
            r == if now >= self.start_spec() { now - self.start_spec() } else { 0 },
    {
        if now >= self.start {
            now - self.start
        } else {
            0
        }
    }

    /// Milliseconds since the start, by the wall clock.
    pub fn elapsed_ms(&self) -> (r: u64) {
        self.elapsed_ms_at(now_ms())
    }
}

} // verus!
