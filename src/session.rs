use vstd::prelude::*;

use crate::command::Command;
use crate::mode::{Mode, RunOptions, Subcommand};
use crate::notice::Notice;

verus! {

/// What an invocation knows of its surroundings.
#[derive(Clone, Debug, PartialEq, Eq)]
pub struct Settings {
    /// The repository root that deploy works in, where one was configured.
    pub repo_root: Option<String>,
    /// The user's home directory, where it could be found.
    pub home: Option<String>,
    /// The repository's relative git path, passed on to the image build.
    pub git_relative: Option<String>,
    /// The name of this program's binary inside the container.
    pub bin_name: String,
}

/// The steps of the two flows, each a hard dependency of the next.
#[derive(Clone, Copy, Debug, PartialEq, Eq, Structural)]
pub enum Step {
    EnterRepo,
    FindExe,
    PublishExe,
    Build,
    AnnounceStart,
    Start,
    Locate,
    AnnounceTest,
    Test,
    Teardown,
    KeepRunning,
    EnterHome,
    MarkScripted,
    AnnounceRun,
    Preseed,
    Bootstrap,
}

impl Step {
    pub open spec fn is_run(self) -> bool {
        self is EnterHome || self is MarkScripted || self is AnnounceRun || self is Preseed
            || self is Bootstrap
    }
}

/// Why an invocation failed.
#[derive(Clone, Copy, Debug, PartialEq, Eq, Structural)]
pub enum Failure {
    /// No subcommand was given.
    NoCommand,
    /// No directory to work in could be found.
    NoDirectory,
    /// A step of a flow failed.
    StepFailed(Step),
}

impl Failure {
    pub open spec fn spec_message(self) -> Seq<char> {
        match self {
            Failure::NoCommand => "No command specified"@,
            Failure::NoDirectory => "No directory to work in"@,
            Failure::StepFailed(_) => "A step of the flow failed"@,
        }
    }

    pub fn message(&self) -> (r: String)
        ensures
            r@ == self.spec_message(),
    {
        match self {
            Failure::NoCommand => "No command specified".to_owned(),
            Failure::NoDirectory => "No directory to work in".to_owned(),
            Failure::StepFailed(_) => "A step of the flow failed".to_owned(),
        }
    }
}

/// Where a session stands: in a step of a flow, in the cleanup guard after a
/// failure, or finished with its result.
#[derive(Clone, Copy, Debug, PartialEq, Eq)]
pub enum Phase {
    Flow(Step),
    /// The guard prints the diagnostic of the failure.
    Report(Failure),
    /// The guard stops the containers.
    GuardStop(Failure),
    /// The guard reports that it could not stop them.
    WarnStopFailed(Failure),
    /// The guard leaves them running, in interactive mode.
    SkipStops(Failure),
    Finished(Result<(), Failure>),
}

impl Phase {
    /// The phases of the cleanup guard.
    pub open spec fn in_guard(self) -> bool {
        self is Report || self is GuardStop || self is WarnStopFailed || self is SkipStops
    }
}

/// An environment variable that a flow sets for the programs it runs.
#[derive(Clone, Debug, PartialEq, Eq)]
pub enum Variable {
    /// The path of this program's binary, for the compose configuration.
    BinaryPath(String),
    /// The marker of a scripted, non-interactive run.
    Scripted,
}

impl Variable {
    pub open spec fn spec_name(self) -> Seq<char> {
        match self {
            Variable::BinaryPath(_) => "POLKA_DOTS_BIN"@,
            Variable::Scripted => "SCRIPT"@,
        }
    }

    pub open spec fn spec_value(self) -> Seq<char> {
        match self {
            Variable::BinaryPath(p) => p@,
            Variable::Scripted => "true"@,
        }
    }

    pub fn name(&self) -> (r: String)
        ensures
            r@ == self.spec_name(),
    {
        match self {
            Variable::BinaryPath(_) => "POLKA_DOTS_BIN".to_owned(),
            Variable::Scripted => "SCRIPT".to_owned(),
        }
    }

    pub fn value(&self) -> (r: String)
        ensures
            r@ == self.spec_value(),
    {
        match self {
            Variable::BinaryPath(p) => p.clone(),
            Variable::Scripted => "true".to_owned(),
        }
    }
}

/// What the outside world reports after doing an action: success, with what
/// a capture read (empty for the other actions), or failure.
#[derive(Clone, Debug, PartialEq, Eq)]
pub enum Event {
    Completed(String),
    Failed,
}

/// What a session asks the outside world to do next.
#[derive(Debug, PartialEq, Eq)]
pub enum Action {
    /// Change the working directory.
    ChangeDir(String),
    /// Find the absolute path of this program's binary; a capture.
    FindExecutable,
    /// Set an environment variable.
    SetVar(Variable),
    /// Print a line.
    Say(Notice),
    /// Run a command and wait for its exit status.
    Invoke(Command),
    /// Run a command and read what it prints; a capture.
    Capture(Command),
    /// End the process with this result.
    Exit(Result<(), Failure>),
}

impl Action {
    /// Whether the action spawns an external process.
    pub open spec fn spawns(self) -> bool {
        self is Invoke || self is Capture
    }

    /// Whether the action stops the compose stack.
    pub open spec fn is_stop(self) -> bool {
        match self {
            Action::Invoke(c) => c is Stop,
            _ => false,
        }
    }

    /// Whether the action builds the compose stack's images.
    pub open spec fn is_build(self) -> bool {
        match self {
            Action::Invoke(c) => c is Build,
            _ => false,
        }
    }
}

/// One invocation, from its subcommand to its exit: the steps of the selected
/// flow, and on failure the cleanup guard.
#[derive(Clone, Debug)]
pub struct Session {
    pub mode: Option<Mode>,
    pub options: RunOptions,
    pub settings: Settings,
    /// The path of this program's binary, once found.
    pub exe: Option<String>,
    /// The id of the running container, once found.
    pub container: Option<String>,
    pub phase: Phase,
}

/// The options of a run in the container: no build, no interaction.
pub open spec fn plain_options() -> RunOptions {
    RunOptions { skip_build: false, interactive: false }
}

/// The directory that deploy works in: the repository root, else home.
pub open spec fn repo_dir(s: Settings) -> String {
    match s.repo_root {
        Some(p) => p,
        None => s.home->0,
    }
}

/// The session that a subcommand starts.
pub open spec fn spec_start(cmd: Option<Subcommand>, settings: Settings) -> Session {
    match cmd {
        None => Session {
            mode: None,
            options: plain_options(),
            settings,
            exe: None,
            container: None,
            phase: Phase::Finished(Err(Failure::NoCommand)),
        },
        Some(Subcommand::Deploy(o)) => Session {
            mode: Some(Mode::Deploy),
            options: o,
            settings,
            exe: None,
            container: None,
            phase: if settings.repo_root is Some || settings.home is Some {
                Phase::Flow(Step::EnterRepo)
            } else {
                Phase::Report(Failure::NoDirectory)
            },
        },
        Some(Subcommand::Run) => Session {
            mode: Some(Mode::Run),
            options: plain_options(),
            settings,
            exe: None,
            container: None,
            phase: if settings.home is Some {
                Phase::Flow(Step::EnterHome)
            } else {
                Phase::Report(Failure::NoDirectory)
            },
        },
    }
}

/// The phase that follows a step that succeeded.
pub open spec fn spec_successor(step: Step, o: RunOptions) -> Phase {
    match step {
        Step::EnterRepo => Phase::Flow(Step::FindExe),
        Step::FindExe => Phase::Flow(Step::PublishExe),
        Step::PublishExe => if o.skip_build {
            Phase::Flow(Step::AnnounceStart)
        } else {
            Phase::Flow(Step::Build)
        },
        Step::Build => Phase::Flow(Step::AnnounceStart),
        Step::AnnounceStart => Phase::Flow(Step::Start),
        Step::Start => Phase::Flow(Step::Locate),
        Step::Locate => Phase::Flow(Step::AnnounceTest),
        Step::AnnounceTest => Phase::Flow(Step::Test),
        Step::Test => if o.interactive {
            Phase::Flow(Step::KeepRunning)
        } else {
            Phase::Flow(Step::Teardown)
        },
        Step::Teardown => Phase::Finished(Ok(())),
        Step::KeepRunning => Phase::Finished(Ok(())),
        Step::EnterHome => Phase::Flow(Step::MarkScripted),
        Step::MarkScripted => Phase::Flow(Step::AnnounceRun),
        Step::AnnounceRun => Phase::Flow(Step::Preseed),
        Step::Preseed => Phase::Flow(Step::Bootstrap),
        Step::Bootstrap => Phase::Finished(Ok(())),
    }
}

fn successor(step: Step, o: RunOptions) -> (r: Phase)
    ensures
        r == spec_successor(step, o),
{
    match step {
        Step::EnterRepo => Phase::Flow(Step::FindExe),
        Step::FindExe => Phase::Flow(Step::PublishExe),
        Step::PublishExe => if o.skip_build {
            Phase::Flow(Step::AnnounceStart)
        } else {
            Phase::Flow(Step::Build)
        },
        Step::Build => Phase::Flow(Step::AnnounceStart),
        Step::AnnounceStart => Phase::Flow(Step::Start),
        Step::Start => Phase::Flow(Step::Locate),
        Step::Locate => Phase::Flow(Step::AnnounceTest),
        Step::AnnounceTest => Phase::Flow(Step::Test),
        Step::Test => if o.interactive {
            Phase::Flow(Step::KeepRunning)
        } else {
            Phase::Flow(Step::Teardown)
        },
        Step::Teardown => Phase::Finished(Ok(())),
        Step::KeepRunning => Phase::Finished(Ok(())),
        Step::EnterHome => Phase::Flow(Step::MarkScripted),
        Step::MarkScripted => Phase::Flow(Step::AnnounceRun),
        Step::AnnounceRun => Phase::Flow(Step::Preseed),
        Step::Preseed => Phase::Flow(Step::Bootstrap),
        Step::Bootstrap => Phase::Finished(Ok(())),
    }
}

impl Session {
    /// The session's invariant.
    pub open spec fn wf(self) -> bool {
        &&& self.mode is None ==> self.phase == Phase::Finished(Err(Failure::NoCommand))
        &&& !(self.phase is Finished) ==> self.mode is Some
        &&& self.phase is Flow ==> (self.mode == Some(Mode::Run) <==> (self.phase->Flow_0).is_run())
        &&& self.phase == Phase::Flow(Step::EnterRepo) ==> (self.settings.repo_root is Some
            || self.settings.home is Some)
        &&& self.phase == Phase::Flow(Step::EnterHome) ==> self.settings.home is Some
        &&& self.phase == Phase::Flow(Step::PublishExe) ==> self.exe is Some
        &&& (self.phase == Phase::Flow(Step::AnnounceTest) || self.phase == Phase::Flow(Step::Test))
            ==> self.container is Some
        &&& self.options.skip_build ==> self.phase != Phase::Flow(Step::Build)
        &&& self.options.interactive ==> self.phase != Phase::Flow(Step::Teardown)
        &&& !self.options.interactive ==> self.phase != Phase::Flow(Step::KeepRunning)
        &&& self.mode == Some(Mode::Run) ==> self.options == plain_options()
    }

    /// The session after the outside world reports an event.
    pub open spec fn spec_next(self, e: Event) -> Session {
        match self.phase {
            Phase::Flow(step) => match e {
                Event::Failed => Session {
                    phase: Phase::Report(Failure::StepFailed(step)),
                    ..self
                },
                Event::Completed(out) => if step is FindExe {
                    Session { exe: Some(out), phase: spec_successor(step, self.options), ..self }
                } else if step is Locate {
                    Session {
                        container: Some(out),
                        phase: spec_successor(step, self.options),
                        ..self
                    }
                } else {
                    Session { phase: spec_successor(step, self.options), ..self }
                },
            },
            Phase::Report(f) => Session {
                phase: if self.options.interactive {
                    Phase::SkipStops(f)
                } else {
                    Phase::GuardStop(f)
                },
                ..self
            },
            Phase::GuardStop(f) => Session {
                phase: match e {
                    Event::Failed => Phase::WarnStopFailed(f),
                    Event::Completed(_) => Phase::Finished(Err(f)),
                },
                ..self
            },
            Phase::WarnStopFailed(f) => Session { phase: Phase::Finished(Err(f)), ..self },
            Phase::SkipStops(f) => Session { phase: Phase::Finished(Err(f)), ..self },
            Phase::Finished(_) => self,
        }
    }

    /// What the session asks for in its present phase.
    pub open spec fn spec_action(self) -> Action {
        match self.phase {
            Phase::Flow(step) => match step {
                Step::EnterRepo => Action::ChangeDir(repo_dir(self.settings)),
                Step::FindExe => Action::FindExecutable,
                Step::PublishExe => Action::SetVar(Variable::BinaryPath(self.exe->0)),
                Step::Build => Action::Invoke(Command::Build(self.settings.git_relative)),
                Step::AnnounceStart => Action::Say(Notice::StartingContainer),
                Step::Start => Action::Invoke(Command::Start),
                Step::Locate => Action::Capture(Command::Locate),
                Step::AnnounceTest => Action::Say(Notice::RunningTests),
                Step::Test => Action::Invoke(
                    Command::Test(self.container->0, self.settings.bin_name),
                ),
                Step::Teardown => Action::Invoke(Command::Stop),
                Step::KeepRunning => Action::Say(Notice::KeptRunning),
                Step::EnterHome => Action::ChangeDir(self.settings.home->0),
                Step::MarkScripted => Action::SetVar(Variable::Scripted),
                Step::AnnounceRun => Action::Say(Notice::StartingTest),
                Step::Preseed => Action::Invoke(Command::Preseed),
                Step::Bootstrap => Action::Invoke(Command::Bootstrap),
            },
            Phase::Report(_) => Action::Say(Notice::TestingFailed(self.mode->0)),
            Phase::GuardStop(_) => Action::Invoke(Command::Stop),
            Phase::WarnStopFailed(_) => Action::Say(Notice::StopFailed),
            Phase::SkipStops(_) => Action::Say(Notice::SkippingStops),
            Phase::Finished(r) => Action::Exit(r),
        }
    }

    pub open spec fn is_finished(self) -> bool {
        self.phase is Finished
    }

    /// Selects the flow of a subcommand; with none, the session is finished
    /// at once with `NoCommand`.
    pub fn start(cmd: Option<Subcommand>, settings: Settings) -> (r: Session)
        ensures
            r == spec_start(cmd, settings),
            r.wf(),
    {
        match cmd {
            None => Session {
                mode: None,
                options: RunOptions { skip_build: false, interactive: false },
                settings,
                exe: None,
                container: None,
                phase: Phase::Finished(Err(Failure::NoCommand)),
            },
            Some(Subcommand::Deploy(o)) => {
                let phase = if settings.repo_root.is_some() || settings.home.is_some() {
                    Phase::Flow(Step::EnterRepo)
                } else {
                    Phase::Report(Failure::NoDirectory)
                };
                Session { mode: Some(Mode::Deploy), options: o, settings, exe: None, container: None, phase }
            },
            Some(Subcommand::Run) => {
                let phase = if settings.home.is_some() {
                    Phase::Flow(Step::EnterHome)
                } else {
                    Phase::Report(Failure::NoDirectory)
                };
                Session {
                    mode: Some(Mode::Run),
                    options: RunOptions { skip_build: false, interactive: false },
                    settings,
                    exe: None,
                    container: None,
                    phase,
                }
            },
        }
    }

    /// Takes in what the outside world reports of the last action.
    pub fn step(&mut self, e: Event)
        requires
            old(self).wf(),
        ensures
            *final(self) == old(self).spec_next(e),
            final(self).wf(),
    {
        match self.phase {
            Phase::Flow(step) => match e {
                Event::Failed => {
                    self.phase = Phase::Report(Failure::StepFailed(step));
                },
                Event::Completed(out) => {
                    match step {
                        Step::FindExe => {
                            self.exe = Some(out);
                        },
                        Step::Locate => {
                            self.container = Some(out);
                        },
                        _ => {},
                    }
                    self.phase = successor(step, self.options);
                },
            },
            Phase::Report(f) => {
                self.phase = if self.options.interactive {
                    Phase::SkipStops(f)
                } else {
                    Phase::GuardStop(f)
                };
            },
            Phase::GuardStop(f) => {
                self.phase = match e {
                    Event::Failed => Phase::WarnStopFailed(f),
                    Event::Completed(_) => Phase::Finished(Err(f)),
                };
            },
            Phase::WarnStopFailed(f) => {
                self.phase = Phase::Finished(Err(f));
            },
            Phase::SkipStops(f) => {
                self.phase = Phase::Finished(Err(f));
            },
            Phase::Finished(_) => {},
        }
    }

    /// What the session asks for now.
    pub fn action(&self) -> (r: Action)
        requires
            self.wf(),
        ensures
            r == self.spec_action(),
    {
        match self.phase {
            Phase::Flow(step) => match step {
                Step::EnterRepo => match &self.settings.repo_root {
                    Some(p) => Action::ChangeDir(p.clone()),
                    None => Action::ChangeDir(self.settings.home.as_ref().unwrap().clone()),
                },
                Step::FindExe => Action::FindExecutable,
                Step::PublishExe => Action::SetVar(
                    Variable::BinaryPath(self.exe.as_ref().unwrap().clone()),
                ),
                Step::Build => {
                    let rel = match &self.settings.git_relative {
                        Some(r) => Some(r.clone()),
                        None => None,
                    };
                    Action::Invoke(Command::Build(rel))
                },
                Step::AnnounceStart => Action::Say(Notice::StartingContainer),
                Step::Start => Action::Invoke(Command::Start),
                Step::Locate => Action::Capture(Command::Locate),
                Step::AnnounceTest => Action::Say(Notice::RunningTests),
                Step::Test => Action::Invoke(
                    Command::Test(
                        self.container.as_ref().unwrap().clone(),
                        self.settings.bin_name.clone(),
                    ),
                ),
                Step::Teardown => Action::Invoke(Command::Stop),
                Step::KeepRunning => Action::Say(Notice::KeptRunning),
                Step::EnterHome => Action::ChangeDir(self.settings.home.as_ref().unwrap().clone()),
                Step::MarkScripted => Action::SetVar(Variable::Scripted),
                Step::AnnounceRun => Action::Say(Notice::StartingTest),
                Step::Preseed => Action::Invoke(Command::Preseed),
                Step::Bootstrap => Action::Invoke(Command::Bootstrap),
            },
            Phase::Report(_) => Action::Say(Notice::TestingFailed(self.mode.unwrap())),
            Phase::GuardStop(_) => Action::Invoke(Command::Stop),
            Phase::WarnStopFailed(_) => Action::Say(Notice::StopFailed),
            Phase::SkipStops(_) => Action::Say(Notice::SkippingStops),
            Phase::Finished(r) => Action::Exit(r),
        }
    }

    pub fn is_done(&self) -> (r: bool)
        ensures
            r == self.is_finished(),
    {
        match self.phase {
            Phase::Finished(_) => true,
            _ => false,
        }
    }
}

} // verus!
