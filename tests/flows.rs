use polka_dots::command::{Command, Invocation};
use polka_dots::mode::{Mode, RunOptions, Subcommand};
use polka_dots::notice::Notice;
use polka_dots::session::{Action, Event, Failure, Session, Settings, Step, Variable};

fn settings() -> Settings {
    Settings {
        repo_root: Some("/srv/dotfiles".to_string()),
        home: Some("/home/tester".to_string()),
        git_relative: None,
        bin_name: "polka-dots".to_string(),
    }
}

fn ok() -> Event {
    Event::Completed(String::new())
}

/// Runs a session to its exit, feeding it the given events in order, and
/// returns every action it asked for.
fn drive(mut s: Session, events: Vec<Event>) -> Vec<Action> {
    let mut out = Vec::new();
    let mut events = events.into_iter();
    loop {
        let a = s.action();
        let done = s.is_done();
        out.push(a);
        if done {
            return out;
        }
        let e = events.next().expect("the session asked for more events");
        s.step(e);
    }
}

fn count(acts: &[Action], pred: impl Fn(&Action) -> bool) -> usize {
    acts.iter().filter(|a| pred(a)).count()
}

fn is_stop(a: &Action) -> bool {
    matches!(a, Action::Invoke(Command::Stop))
}

fn is_build(a: &Action) -> bool {
    matches!(a, Action::Invoke(Command::Build(_)))
}

fn deploy(skip_build: bool, interactive: bool) -> Session {
    Session::start(Some(Subcommand::Deploy(RunOptions { skip_build, interactive })), settings())
}

fn deploy_events_until(step: Step, skip_build: bool, outcome: Event) -> Vec<Event> {
    let mut order = vec![Step::EnterRepo, Step::FindExe, Step::PublishExe];
    if !skip_build {
        order.push(Step::Build);
    }
    order.extend([
        Step::AnnounceStart,
        Step::Start,
        Step::Locate,
        Step::AnnounceTest,
        Step::Test,
        Step::Teardown,
        Step::KeepRunning,
    ]);
    let mut evs = Vec::new();
    for s in order {
        if s == step {
            evs.push(outcome);
            return evs;
        }
        evs.push(match s {
            Step::FindExe => Event::Completed("/opt/bin/polka-dots".to_string()),
            Step::Locate => Event::Completed("c0ffee".to_string()),
            _ => ok(),
        });
    }
    evs
}

#[test]
fn no_subcommand_fails_without_processes() {
    let acts = drive(Session::start(None, settings()), vec![]);
    assert_eq!(acts, vec![Action::Exit(Err(Failure::NoCommand))]);
    assert_eq!(Failure::NoCommand.message(), "No command specified");
}

#[test]
fn skip_build_start_failure_scenario() {
    let mut evs = deploy_events_until(Step::Start, true, Event::Failed);
    evs.push(ok());
    evs.push(ok());
    let acts = drive(deploy(true, false), evs);
    assert_eq!(count(&acts, is_build), 0);
    assert_eq!(count(&acts, |a| matches!(a, Action::Invoke(Command::Start))), 1);
    assert_eq!(count(&acts, is_stop), 1);
    assert_eq!(acts.last(), Some(&Action::Exit(Err(Failure::StepFailed(Step::Start)))));
    let diag = acts.iter().find_map(|a| match a {
        Action::Say(n) if n.is_diagnostic() => Some(n.text()),
        _ => None,
    });
    assert_eq!(diag, Some("Testing failed! Current mode: Deploy".to_string()));
}

#[test]
fn interactive_test_failure_scenario() {
    let mut evs = deploy_events_until(Step::Test, false, Event::Failed);
    evs.push(ok());
    evs.push(ok());
    let acts = drive(deploy(false, true), evs);
    assert_eq!(count(&acts, is_stop), 0);
    assert!(acts.contains(&Action::Say(Notice::SkippingStops)));
    assert!(Notice::SkippingStops
        .text()
        .starts_with("Interactive mode enabled; skipping container stops"));
    assert_eq!(acts.last(), Some(&Action::Exit(Err(Failure::StepFailed(Step::Test)))));
}

#[test]
fn standalone_run_scenario() {
    let s = Session::start(Some(Subcommand::Run), settings());
    let acts = drive(s, vec![ok(), ok(), ok(), ok(), ok()]);
    assert_eq!(
        acts,
        vec![
            Action::ChangeDir("/home/tester".to_string()),
            Action::SetVar(Variable::Scripted),
            Action::Say(Notice::StartingTest),
            Action::Invoke(Command::Preseed),
            Action::Invoke(Command::Bootstrap),
            Action::Exit(Ok(())),
        ]
    );
    assert_eq!(Variable::Scripted.name(), "SCRIPT");
    assert_eq!(Variable::Scripted.value(), "true");
}

#[test]
fn non_interactive_failures_stop_once() {
    for step in [
        Step::EnterRepo,
        Step::FindExe,
        Step::PublishExe,
        Step::Build,
        Step::Start,
        Step::Locate,
        Step::Test,
        Step::Teardown,
    ] {
        let mut evs = deploy_events_until(step, false, Event::Failed);
        evs.push(ok());
        evs.push(ok());
        let acts = drive(deploy(false, false), evs);
        let failed_at = acts
            .iter()
            .position(|a| matches!(a, Action::Say(Notice::TestingFailed(Mode::Deploy))))
            .unwrap();
        assert_eq!(count(&acts[failed_at..], is_stop), 1);
        assert_eq!(acts.last(), Some(&Action::Exit(Err(Failure::StepFailed(step)))));
    }
}

#[test]
fn failed_guard_stop_keeps_first_error() {
    let mut evs = deploy_events_until(Step::Test, false, Event::Failed);
    evs.push(ok());
    evs.push(Event::Failed);
    evs.push(ok());
    let acts = drive(deploy(false, false), evs);
    assert!(acts.contains(&Action::Say(Notice::StopFailed)));
    assert_eq!(Notice::StopFailed.text(), "Failed to stop containers.");
    assert_eq!(acts.last(), Some(&Action::Exit(Err(Failure::StepFailed(Step::Test)))));
}

#[test]
fn interactive_failures_never_stop() {
    for step in [Step::EnterRepo, Step::Build, Step::Start, Step::Locate, Step::Test] {
        let mut evs = deploy_events_until(step, false, Event::Failed);
        evs.push(ok());
        evs.push(ok());
        let acts = drive(deploy(false, true), evs);
        assert_eq!(count(&acts, is_stop), 0);
        assert!(acts.contains(&Action::Say(Notice::SkippingStops)));
    }
}

#[test]
fn deploy_success_stops_once() {
    let evs = deploy_events_until(Step::KeepRunning, false, ok());
    let acts = drive(deploy(false, false), evs);
    assert_eq!(count(&acts, is_stop), 1);
    assert!(!acts.iter().any(|a| matches!(a, Action::Say(n) if n.is_diagnostic())));
    assert_eq!(acts.last(), Some(&Action::Exit(Ok(()))));
}

#[test]
fn interactive_success_keeps_container() {
    let evs = deploy_events_until(Step::Teardown, false, ok());
    let acts = drive(deploy(false, true), evs);
    assert_eq!(count(&acts, is_stop), 0);
    assert!(acts.contains(&Action::Say(Notice::KeptRunning)));
    assert_eq!(acts.last(), Some(&Action::Exit(Ok(()))));
}

#[test]
fn skip_build_never_builds() {
    for step in [Step::Start, Step::Test, Step::Teardown, Step::KeepRunning] {
        let mut evs = deploy_events_until(step, true, Event::Failed);
        evs.push(ok());
        evs.push(ok());
        let acts = drive(deploy(true, false), evs);
        assert_eq!(count(&acts, is_build), 0);
    }
    let acts = drive(deploy(false, false), deploy_events_until(Step::KeepRunning, false, ok()));
    assert_eq!(count(&acts, is_build), 1);
}

#[test]
fn deploy_actions_in_order() {
    let mut s = Session::start(
        Some(Subcommand::Deploy(RunOptions { skip_build: false, interactive: false })),
        Settings {
            repo_root: None,
            home: Some("/home/tester".to_string()),
            git_relative: Some("dots".to_string()),
            bin_name: "polka-dots".to_string(),
        },
    );
    assert_eq!(s.action(), Action::ChangeDir("/home/tester".to_string()));
    s.step(ok());
    assert_eq!(s.action(), Action::FindExecutable);
    s.step(Event::Completed("/opt/bin/polka-dots".to_string()));
    assert_eq!(
        s.action(),
        Action::SetVar(Variable::BinaryPath("/opt/bin/polka-dots".to_string()))
    );
    s.step(ok());
    assert_eq!(s.action(), Action::Invoke(Command::Build(Some("dots".to_string()))));
    s.step(ok());
    assert_eq!(s.action(), Action::Say(Notice::StartingContainer));
    s.step(ok());
    assert_eq!(s.action(), Action::Invoke(Command::Start));
    s.step(ok());
    assert_eq!(s.action(), Action::Capture(Command::Locate));
    s.step(Event::Completed("c0ffee".to_string()));
    assert_eq!(s.action(), Action::Say(Notice::RunningTests));
    s.step(ok());
    assert_eq!(
        s.action(),
        Action::Invoke(Command::Test("c0ffee".to_string(), "polka-dots".to_string()))
    );
    s.step(ok());
    assert_eq!(s.action(), Action::Invoke(Command::Stop));
    s.step(ok());
    assert_eq!(s.action(), Action::Exit(Ok(())));
    assert!(s.is_done());
}

#[test]
fn repo_root_preferred_over_home() {
    let s = deploy(false, false);
    assert_eq!(s.action(), Action::ChangeDir("/srv/dotfiles".to_string()));
}

#[test]
fn missing_directory_fails_through_guard() {
    let bare = Settings { repo_root: None, home: None, git_relative: None, bin_name: "p".to_string() };
    let acts = drive(
        Session::start(Some(Subcommand::Deploy(RunOptions { skip_build: false, interactive: false })), bare.clone()),
        vec![ok(), ok()],
    );
    assert_eq!(acts[0], Action::Say(Notice::TestingFailed(Mode::Deploy)));
    assert_eq!(count(&acts, is_stop), 1);
    assert_eq!(acts.last(), Some(&Action::Exit(Err(Failure::NoDirectory))));
    let acts = drive(Session::start(Some(Subcommand::Run), bare), vec![ok(), ok()]);
    assert_eq!(acts[0], Action::Say(Notice::TestingFailed(Mode::Run)));
    assert_eq!(acts.last(), Some(&Action::Exit(Err(Failure::NoDirectory))));
    assert_eq!(Failure::NoDirectory.message(), "No directory to work in");
}

#[test]
fn run_failure_reports_run_mode() {
    let acts = drive(
        Session::start(Some(Subcommand::Run), settings()),
        vec![ok(), ok(), ok(), Event::Failed, ok(), ok()],
    );
    assert_eq!(
        Notice::TestingFailed(Mode::Run).text(),
        "Testing failed! Current mode: Run"
    );
    assert!(acts.contains(&Action::Say(Notice::TestingFailed(Mode::Run))));
    assert_eq!(count(&acts, is_stop), 1);
    assert_eq!(acts.last(), Some(&Action::Exit(Err(Failure::StepFailed(Step::Preseed)))));
    assert_eq!(Failure::StepFailed(Step::Preseed).message(), "A step of the flow failed");
}

fn inv(program: &str, args: &[&str], input: Option<&str>) -> Invocation {
    Invocation {
        program: program.to_string(),
        args: args.iter().map(|a| a.to_string()).collect(),
        input: input.map(|i| i.to_string()),
    }
}

#[test]
fn command_lines() {
    assert_eq!(Command::Build(None).invocation(), inv("docker-compose", &["build"], None));
    assert_eq!(
        Command::Build(Some("sub/dots".to_string())).invocation(),
        inv("docker-compose", &["build", "--build-arg", "DOTS_REPO_GIT_RELATIVE=sub/dots"], None)
    );
    assert_eq!(Command::Start.invocation(), inv("docker-compose", &["up", "-d"], None));
    assert_eq!(Command::Locate.invocation(), inv("docker-compose", &["ps", "-q"], None));
    assert_eq!(
        Command::Test("abc123".to_string(), "polka-dots".to_string()).invocation(),
        inv("docker", &["exec", "-t", "abc123", "bash", "-c", "~/bin/polka-dots run"], None)
    );
    assert_eq!(Command::Stop.invocation(), inv("docker-compose", &["down"], None));
    assert_eq!(
        Command::Preseed.invocation(),
        inv(
            "sudo",
            &["-kS", "debconf-set-selections"],
            Some("hamu\ndebconf debconf/frontend select Noninteractive\n")
        )
    );
    assert_eq!(
        Command::Bootstrap.invocation(),
        inv("./bin/yadm", &["bootstrap"], Some("y\nhamu\nhamu\nhamu\nhamu\n"))
    );
}

#[test]
fn notice_texts() {
    assert_eq!(Mode::Deploy.label(), "Deploy");
    assert_eq!(Mode::Run.label(), "Run");
    assert_eq!(Notice::StartingContainer.text(), "Starting container...");
    assert_eq!(Notice::RunningTests.text(), "Running tests...");
    assert_eq!(Notice::StartingTest.text(), "Starting a test...");
    assert_eq!(
        Notice::KeptRunning.text(),
        "Interactive mode enabled; skipping container stops."
    );
    assert!(!Notice::RunningTests.is_diagnostic());
    assert!(Notice::StopFailed.is_diagnostic());
    let v = Variable::BinaryPath("/x/y".to_string());
    assert_eq!(v.name(), "POLKA_DOTS_BIN");
    assert_eq!(v.value(), "/x/y");
}

#[test]
fn finished_session_stays_finished() {
    let mut s = Session::start(None, settings());
    s.step(ok());
    s.step(Event::Failed);
    assert_eq!(s.action(), Action::Exit(Err(Failure::NoCommand)));
}
