use vstd::prelude::*;

use crate::mode::{Mode, RunOptions, Subcommand};
use crate::notice::Notice;
use crate::session::{spec_start, Action, Event, Failure, Phase, Session, Settings};

verus! {

/// The actions that a session asks for, from its present one on, as the
/// outside world reports the events `evs` one after another. It ends at the
/// session's exit, or where the events run out.
pub open spec fn trace(s: Session, evs: Seq<Event>) -> Seq<Action>
    decreases evs.len(),
{
    if s.is_finished() || evs.len() == 0 {
        seq![s.spec_action()]
    } else {
        seq![s.spec_action()] + trace(s.spec_next(evs[0]), evs.drop_first())
    }
}

/// The session that the events `evs` lead to.
pub open spec fn last(s: Session, evs: Seq<Event>) -> Session
    decreases evs.len(),
{
    if s.is_finished() || evs.len() == 0 {
        s
    } else {
        last(s.spec_next(evs[0]), evs.drop_first())
    }
}

/// How many of the actions stop the compose stack.
pub open spec fn stop_count(acts: Seq<Action>) -> nat {
    acts.filter(|a: Action| a.is_stop()).len()
}

impl Action {
    /// Whether the action prints a diagnostic of failure.
    pub open spec fn is_diagnostic(self) -> bool {
        match self {
            Action::Say(n) => n.spec_is_diagnostic(),
            _ => false,
        }
    }
}

/// The failure that a phase of the cleanup guard handles.
spec fn handled(p: Phase) -> Failure {
    match p {
        Phase::Report(f) => f,
        Phase::GuardStop(f) => f,
        Phase::WarnStopFailed(f) => f,
        Phase::SkipStops(f) => f,
        _ => Failure::NoCommand,
    }
}

/// The stops that the cleanup guard has yet to issue.
spec fn guard_stops(s: Session) -> nat {
    match s.phase {
        Phase::Report(_) => if s.options.interactive {
            0
        } else {
            1
        },
        Phase::GuardStop(_) => 1,
        _ => 0,
    }
}

/// The stops that a flow issues on its way to success.
spec fn flow_stops(s: Session) -> nat {
    match s.phase {
        Phase::Flow(step) => if step.is_run() || s.options.interactive {
            0
        } else {
            1
        },
        _ => 0,
    }
}

proof fn lemma_next_wf(s: Session, e: Event)
    requires
        s.wf(),
    ensures
        s.spec_next(e).wf(),
        s.spec_next(e).options == s.options,
        s.spec_next(e).mode == s.mode,
{
}

proof fn lemma_unfold(s: Session, evs: Seq<Event>)
    requires
        !s.is_finished(),
        evs.len() > 0,
    ensures
        trace(s, evs) == seq![s.spec_action()] + trace(s.spec_next(evs[0]), evs.drop_first()),
        last(s, evs) == last(s.spec_next(evs[0]), evs.drop_first()),
        stop_count(trace(s, evs)) == (if s.spec_action().is_stop() {
            1nat
        } else {
            0nat
        }) + stop_count(trace(s.spec_next(evs[0]), evs.drop_first())),
{
    let rest = trace(s.spec_next(evs[0]), evs.drop_first());
    rest.lemma_filter_prepend(s.spec_action(), |a: Action| a.is_stop());
}

proof fn lemma_guard(s: Session, evs: Seq<Event>)
    requires
        s.wf(),
        s.phase.in_guard(),
    ensures
        stop_count(trace(s, evs)) <= guard_stops(s),
        last(s, evs).is_finished() ==> stop_count(trace(s, evs)) == guard_stops(s)
            && last(s, evs).phase == Phase::Finished(Err(handled(s.phase))),
    decreases evs.len(),
{
    if evs.len() == 0 {
        seq![s.spec_action()].lemma_filter_prepend(s.spec_action(), |a: Action| a.is_stop());
        assert(seq![s.spec_action()] =~= seq![s.spec_action()] + Seq::<Action>::empty());
        assert(Seq::<Action>::empty().filter(|a: Action| a.is_stop()) =~= Seq::<Action>::empty());
        Seq::<Action>::empty().lemma_filter_prepend(s.spec_action(), |a: Action| a.is_stop());
    } else {
        let n = s.spec_next(evs[0]);
        let rest = evs.drop_first();
        lemma_unfold(s, evs);
        lemma_next_wf(s, evs[0]);
        if n.phase.in_guard() {
            lemma_guard(n, rest);
        } else {
            assert(trace(n, rest) == seq![n.spec_action()]);
            assert(seq![n.spec_action()] =~= seq![n.spec_action()] + Seq::<Action>::empty());
            Seq::<Action>::empty().lemma_filter_prepend(n.spec_action(), |a: Action| a.is_stop());
            assert(Seq::<Action>::empty().filter(|a: Action| a.is_stop()) =~= Seq::<Action>::empty());
        }
    }
}

/// With no subcommand, an invocation fails with `NoCommand` at once and runs
/// no external process, whatever the outside world reports.
pub proof fn law_no_command(settings: Settings, evs: Seq<Event>)
    ensures
        trace(spec_start(None, settings), evs) == seq![Action::Exit(Err(Failure::NoCommand))],
        forall|i: int|
            0 <= i < trace(spec_start(None, settings), evs).len() ==> !(#[trigger] trace(
                spec_start(None, settings),
                evs,
            )[i]).spawns(),
{
    let t = trace(spec_start(None, settings), evs);
    assert forall|i: int| 0 <= i < t.len() implies !(#[trigger] t[i]).spawns() by {
        assert(t[i] == Action::Exit(Err(Failure::NoCommand)));
    }
}

/// When a step of a deploy fails outside interactive mode, the containers
/// are stopped exactly once afterwards, by the cleanup guard, and the
/// invocation ends with that failure.
pub proof fn law_failed_deploy_stops_once(s: Session, evs: Seq<Event>)
    requires
        s.wf(),
        s.mode == Some(Mode::Deploy),
        s.phase is Flow,
        !s.options.interactive,
    ensures
        stop_count(trace(s.spec_next(Event::Failed), evs)) <= 1,
        last(s.spec_next(Event::Failed), evs).is_finished() ==> {
            &&& stop_count(trace(s.spec_next(Event::Failed), evs)) == 1
            &&& last(s.spec_next(Event::Failed), evs).phase == Phase::Finished(
                Err(Failure::StepFailed(s.phase->Flow_0)),
            )
        },
{
    lemma_next_wf(s, Event::Failed);
    lemma_guard(s.spec_next(Event::Failed), evs);
}

/// When a step of a deploy fails in interactive mode, the containers are
/// never stopped: the guard prints its diagnostic, then the notice that it
/// skips the stops, and the invocation ends with that failure.
pub proof fn law_interactive_failure_keeps_containers(s: Session, evs: Seq<Event>)
    requires
        s.wf(),
        s.mode == Some(Mode::Deploy),
        s.phase is Flow,
        s.options.interactive,
    ensures
        stop_count(trace(s.spec_next(Event::Failed), evs)) == 0,
        last(s.spec_next(Event::Failed), evs).is_finished() ==> {
            &&& trace(s.spec_next(Event::Failed), evs).len() >= 2
            &&& trace(s.spec_next(Event::Failed), evs)[1] == Action::Say(Notice::SkippingStops)
            &&& last(s.spec_next(Event::Failed), evs).phase == Phase::Finished(
                Err(Failure::StepFailed(s.phase->Flow_0)),
            )
        },
{
    let g = s.spec_next(Event::Failed);
    lemma_next_wf(s, Event::Failed);
    lemma_guard(g, evs);
    if last(g, evs).is_finished() {
        assert(evs.len() > 0);
        lemma_unfold(g, evs);
        let g1 = g.spec_next(evs[0]);
        assert(g1.phase is SkipStops);
        assert(evs.drop_first().len() > 0);
        lemma_unfold(g1, evs.drop_first());
    }
}

proof fn lemma_success(s: Session, evs: Seq<Event>)
    requires
        s.wf(),
        s.phase is Flow || s.phase == Phase::Finished(Ok::<(), Failure>(())),
        last(s, evs).phase == Phase::Finished(Ok::<(), Failure>(())),
    ensures
        stop_count(trace(s, evs)) == flow_stops(s),
        forall|i: int| 0 <= i < trace(s, evs).len() ==> !(#[trigger] trace(s, evs)[i]).is_diagnostic(),
    decreases evs.len(),
{
    let t = trace(s, evs);
    if s.is_finished() {
        assert(t == seq![s.spec_action()]);
        assert(seq![s.spec_action()] =~= seq![s.spec_action()] + Seq::<Action>::empty());
        Seq::<Action>::empty().lemma_filter_prepend(s.spec_action(), |a: Action| a.is_stop());
        assert(Seq::<Action>::empty().filter(|a: Action| a.is_stop()) =~= Seq::<Action>::empty());
    } else {
        assert(evs.len() > 0);
        let n = s.spec_next(evs[0]);
        let rest = evs.drop_first();
        lemma_unfold(s, evs);
        lemma_next_wf(s, evs[0]);
        if n.phase.in_guard() {
            lemma_guard(n, rest);
        } else {
            lemma_success(n, rest);
            let tn = trace(n, rest);
            assert forall|i: int| 0 <= i < t.len() implies !(#[trigger] t[i]).is_diagnostic() by {
                if i > 0 {
                    assert(t[i] == tn[i - 1]);
                }
            }
        }
    }
}

/// A deploy outside interactive mode that succeeds stops the containers
/// exactly once, on its own success path: the cleanup guard never runs, so
/// no diagnostic of failure is printed.
pub proof fn law_deploy_success_stops_once(o: RunOptions, settings: Settings, evs: Seq<Event>)
    requires
        !o.interactive,
        last(spec_start(Some(Subcommand::Deploy(o)), settings), evs).phase == Phase::Finished(
            Ok::<(), Failure>(()),
        ),
    ensures
        stop_count(trace(spec_start(Some(Subcommand::Deploy(o)), settings), evs)) == 1,
        forall|i: int|
            0 <= i < trace(spec_start(Some(Subcommand::Deploy(o)), settings), evs).len()
                ==> !(#[trigger] trace(spec_start(Some(Subcommand::Deploy(o)), settings), evs)[i]).is_diagnostic(),
{
    let s = spec_start(Some(Subcommand::Deploy(o)), settings);
    if s.phase.in_guard() {
        lemma_guard(s, evs);
    } else {
        lemma_success(s, evs);
    }
}

proof fn lemma_no_build(s: Session, evs: Seq<Event>)
    requires
        s.wf(),
        s.options.skip_build,
    ensures
        forall|i: int| 0 <= i < trace(s, evs).len() ==> !(#[trigger] trace(s, evs)[i]).is_build(),
    decreases evs.len(),
{
    let t = trace(s, evs);
    if s.is_finished() || evs.len() == 0 {
        assert(t == seq![s.spec_action()]);
    } else {
        let n = s.spec_next(evs[0]);
        let rest = evs.drop_first();
        lemma_unfold(s, evs);
        lemma_next_wf(s, evs[0]);
        lemma_no_build(n, rest);
        let tn = trace(n, rest);
        assert forall|i: int| 0 <= i < t.len() implies !(#[trigger] t[i]).is_build() by {
            if i > 0 {
                assert(t[i] == tn[i - 1]);
            }
        }
    }
}

/// A deploy with `skip_build` never builds the images, whatever the outside
/// world reports of the later steps.
pub proof fn law_skip_build_never_builds(o: RunOptions, settings: Settings, evs: Seq<Event>)
    requires
        o.skip_build,
    ensures
        forall|i: int|
            0 <= i < trace(spec_start(Some(Subcommand::Deploy(o)), settings), evs).len()
                ==> !(#[trigger] trace(spec_start(Some(Subcommand::Deploy(o)), settings), evs)[i]).is_build(),
{
    lemma_no_build(spec_start(Some(Subcommand::Deploy(o)), settings), evs);
}

} // verus!
