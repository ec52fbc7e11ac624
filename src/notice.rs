use vstd::prelude::*;

use crate::mode::Mode;

verus! {

/// The lines that the flows and the cleanup guard print.
#[derive(Clone, Copy, Debug, PartialEq, Eq, Structural)]
pub enum Notice {
    StartingContainer,
    RunningTests,
    /// A deploy that succeeded leaves the container running.
    KeptRunning,
    StartingTest,
    /// The diagnostic of a failure, naming the mode that was active.
    TestingFailed(Mode),
    /// A failure in interactive mode leaves the container running.
    SkippingStops,
    /// The cleanup guard could not stop the containers.
    StopFailed,
}

impl Notice {
    pub open spec fn spec_text(self) -> Seq<char> {
        match self {
            Notice::StartingContainer => "Starting container..."@,
            Notice::RunningTests => "Running tests..."@,
            Notice::KeptRunning => "Interactive mode enabled; skipping container stops."@,
            Notice::StartingTest => "Starting a test..."@,
            Notice::TestingFailed(m) => "Testing failed! Current mode: "@ + m.spec_label(),
            Notice::SkippingStops =>
                "Interactive mode enabled; skipping container stops including on test failure."@,
            Notice::StopFailed => "Failed to stop containers."@,
        }
    }

    /// Diagnostics go to standard error, the rest to standard output.
    pub open spec fn spec_is_diagnostic(self) -> bool {
        self is TestingFailed || self is StopFailed
    }

    pub fn text(&self) -> (r: String)
        ensures
            r@ == self.spec_text(),
    {
        match self {
            Notice::StartingContainer => "Starting container...".to_owned(),
            Notice::RunningTests => "Running tests...".to_owned(),
            Notice::KeptRunning => "Interactive mode enabled; skipping container stops.".to_owned(),
            Notice::StartingTest => "Starting a test...".to_owned(),
            Notice::TestingFailed(m) => {
                let mut t = "Testing failed! Current mode: ".to_owned();
                let label = m.label();
                t.append(label.as_str());
                t
            },
            Notice::SkippingStops =>
                "Interactive mode enabled; skipping container stops including on test failure.".to_owned(),
            Notice::StopFailed => "Failed to stop containers.".to_owned(),
        }
    }

    pub fn is_diagnostic(&self) -> (r: bool)
        ensures
            r == self.spec_is_diagnostic(),
    {
        match self {
            Notice::TestingFailed(_) | Notice::StopFailed => true,
            _ => false,
        }
    }
}

} // verus!
