use vstd::prelude::*;

use crate::views::opt_view;

verus! {

/// The outcome of one attempt to run the test suite.
#[derive(PartialEq, Eq, Structural, Clone, Copy, Debug)]
pub enum Outcome {
    /// The test suite ran and every test passed.
    TestsPassed,
    /// The test suite ran and at least one test failed.
    TestsFailed,
    /// The build failed before any test could run.
    CompileError,
    /// The run failed and its output matched no known shape.
    Indeterminate,
}

/// The short title that announces an outcome.
pub open spec fn outcome_title(outcome: Outcome) -> Seq<char> {
    match outcome {
        Outcome::TestsPassed => "Tests passed"@,
        Outcome::TestsFailed => "Tests failed"@,
        Outcome::CompileError => "Error"@,
        Outcome::Indeterminate => "Unknown outcome"@,
    }
}

/// The desktop icon that goes with an outcome.
pub open spec fn outcome_icon(outcome: Outcome) -> Seq<char> {
    match outcome {
        Outcome::TestsPassed => "face-angel"@,
        _ => "face-angry"@,
    }
}

/// A classified test run: its outcome and an optional detail line.
#[derive(Clone, Debug, PartialEq, Eq)]
pub struct Report {
    pub outcome: Outcome,
    pub detail: Option<String>,
}

impl View for Report {
    type V = (Outcome, Option<Seq<char>>);

    open spec fn view(&self) -> (Outcome, Option<Seq<char>>) {
        (self.outcome, opt_view(self.detail))
    }
}

impl Report {
    /// The title of the notification that announces this report.
    pub fn title(&self) -> (r: &'static str)
        ensures
            r@ == outcome_title(self.outcome),
    {
        match self.outcome {
            Outcome::TestsPassed => "Tests passed",
            Outcome::TestsFailed => "Tests failed",
            Outcome::CompileError => "Error",
            Outcome::Indeterminate => "Unknown outcome",
        }
    }

    /// The name of the desktop icon shown with this report.
    pub fn icon(&self) -> (r: &'static str)
        ensures
            r@ == outcome_icon(self.outcome),
    {
        match self.outcome {
            Outcome::TestsPassed => "face-angel",
            _ => "face-angry",
        }
    }
}

} // verus!
