use vstd::prelude::*;

verus! {

/// Which of the two flows an invocation runs.
#[derive(Clone, Copy, Debug, PartialEq, Eq, Structural)]
pub enum Mode {
    Deploy,
    Run,
}

impl Mode {
    /// The name of the mode as diagnostics print it.
    pub open spec fn spec_label(self) -> Seq<char> {
        match self {
            Mode::Deploy => "Deploy"@,
            Mode::Run => "Run"@,
        }
    }

    pub fn label(&self) -> (r: String)
        ensures
            r@ == self.spec_label(),
    {
        match self {
            Mode::Deploy => "Deploy".to_owned(),
            Mode::Run => "Run".to_owned(),
        }
    }
}

/// The options of one invocation.
#[derive(Clone, Copy, Debug, PartialEq, Eq, Structural)]
pub struct RunOptions {
    /// Leave out the image build.
    pub skip_build: bool,
    /// Leave the container running, after success and after failure.
    pub interactive: bool,
}

/// The subcommand an invocation names.
#[derive(Clone, Copy, Debug, PartialEq, Eq, Structural)]
pub enum Subcommand {
    Deploy(RunOptions),
    Run,
}

} // verus!
