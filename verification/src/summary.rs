//! Aggregate counters for the final report line.

use crate::outcome::TestResult;
use vstd::prelude::*;

verus! {

/// Counts of unit outcomes accumulated across the run, used for the final
/// summary line and the process exit status.
#[derive(Debug, PartialEq, Eq, Structural, Clone, Copy)]
pub struct RunSummary {
    pub succeeded: u64,
    pub failed: u64,
    pub not_found: u64,
}

impl RunSummary {
    /// The total number of units counted: the three counters always add up to
    /// it, there is no independent total.
    pub open spec fn spec_total(self) -> int {
        self.succeeded + self.failed + self.not_found
    }

    /// An empty summary: nothing counted yet.
    pub fn new() -> (s: RunSummary)
        ensures
            s.succeeded == 0,
            s.failed == 0,
            s.not_found == 0,
    {
        RunSummary { succeeded: 0, failed: 0, not_found: 0 }
    }

    /// Count one unit's outcome: exactly the counter of that outcome grows,
    /// by one.
    pub fn record(&mut self, outcome: TestResult)
        requires
            old(self).spec_total() < u64::MAX,
        ensures
            final(self).spec_total() == old(self).spec_total() + 1,
            final(self).succeeded as int == old(self).succeeded as int + (
            if outcome is Succeeded {
                1int
            } else {
                0int
            }),
            final(self).failed as int == old(self).failed as int + (
            if outcome is Failed {
                1int
            } else {
                0int
            }),
            final(self).not_found as int == old(self).not_found as int + (
            if outcome is NotFound {
                1int
            } else {
                0int
            }),
    {
        match outcome {
            TestResult::Succeeded => {
                self.succeeded = self.succeeded + 1;
            },
            TestResult::Failed => {
                self.failed = self.failed + 1;
            },
            TestResult::NotFound => {
                self.not_found = self.not_found + 1;
            },
        }
    }

    /// The total reported on the summary line: always the sum of the
    /// succeeded, failed and not-found counters.
    pub fn total(&self) -> (t: u64)
        requires
            self.spec_total() <= u64::MAX,
        ensures
            t as int == self.spec_total(),
    {
        self.succeeded + self.failed + self.not_found
    }

    /// Whether the run as a whole failed: true exactly when at least one
    /// unit's test failed. Units whose test project is missing do not by
    /// themselves fail the run.
    pub fn run_failed(&self) -> (b: bool)
        ensures
            b == (self.failed > 0),
    {
        self.failed != 0
    }
}

} // verus!
