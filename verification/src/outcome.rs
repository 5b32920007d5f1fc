//! The result of running one library unit's test, and how it is rendered.

use vstd::prelude::*;

verus! {

/// Outcome of one library unit's test run.
///
/// `NotFound` means the unit has no test-project directory at all, which is
/// distinct from a project whose test tool ran and failed.
#[derive(Debug, PartialEq, Eq, Structural, Clone, Copy)]
pub enum TestResult {
    Succeeded,
    Failed,
    NotFound,
}

/// Terminal color used to render an outcome tag.
#[derive(Debug, PartialEq, Eq, Structural, Clone, Copy)]
pub enum Color {
    LightGreen,
    Red,
    Yellow,
}

impl TestResult {
    /// The tag printed for this outcome.
    pub open spec fn spec_label(self) -> Seq<char> {
        match self {
            TestResult::Succeeded => "SUCCESS"@,
            TestResult::Failed => "FAILURE"@,
            TestResult::NotFound => "MISSING"@,
        }
    }

    /// The color an outcome is rendered in: green for success, red for
    /// failure, yellow for a missing test project.
    pub open spec fn spec_color(self) -> Color {
        match self {
            TestResult::Succeeded => Color::LightGreen,
            TestResult::Failed => Color::Red,
            TestResult::NotFound => Color::Yellow,
        }
    }

    pub fn label(&self) -> (r: &'static str)
        ensures
            r@ == self.spec_label(),
    {
        match self {
            TestResult::Succeeded => "SUCCESS",
            TestResult::Failed => "FAILURE",
            TestResult::NotFound => "MISSING",
        }
    }

    pub fn get_color(&self) -> (r: Color)
        ensures
            r == self.spec_color(),
    {
        match self {
            TestResult::Succeeded => Color::LightGreen,
            TestResult::Failed => Color::Red,
            TestResult::NotFound => Color::Yellow,
        }
    }
}

/// How a unit's run is classified: `NotFound` when no test project exists (in
/// which case no tool is run), otherwise success or failure by the tool's
/// exit status.
pub open spec fn spec_outcome(project_exists: bool, exit_success: bool) -> TestResult {
    if !project_exists {
        TestResult::NotFound
    } else if exit_success {
        TestResult::Succeeded
    } else {
        TestResult::Failed
    }
}

/// Classify one unit's run. `exit_success` is only meaningful when
/// `project_exists` holds; when the project is missing no tool is run and the
/// outcome is `NotFound` whatever is passed.
pub fn outcome_of(project_exists: bool, exit_success: bool) -> (r: TestResult)
    ensures
        r == spec_outcome(project_exists, exit_success),
{
    if !project_exists {
        TestResult::NotFound
    } else if exit_success {
        TestResult::Succeeded
    } else {
        TestResult::Failed
    }
}

} // verus!
