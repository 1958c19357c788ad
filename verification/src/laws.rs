//! What holds of every run of the installation pipeline.

use crate::detector::{StatusView, blockers, display_names, lemma_blockers_exact};
use crate::installer::{FINAL_LEVEL, FINAL_NOTE_CONFIGURED, FINAL_NOTE_INSTALLED, FINAL_STEP, InstallationView, MISSING_PREFIX, NAME_SEPARATOR, Phase, SUCCESS_TEXT, after_check, missing_dependencies, next_step, waiting};
use crate::executor::ProcessView;
use crate::platform::Platform;
use crate::progress::{EventView, ProgressStatus, ProgressView, RequestView, failure_is_last, never_falls, progress_event, within};
use crate::text::{contains_text, joined, lemma_contains_in_suffix, lemma_joined_contains};
use vstd::prelude::*;

verus! {

/// The events that a run emits while it takes `inputs` one after another.
pub open spec fn run_events(s: InstallationView, inputs: Seq<EventView>) -> Seq<ProgressView>
    decreases inputs.len(),
{
    if inputs.len() == 0 {
        Seq::empty()
    } else {
        let step = next_step(s, inputs[0]);
        step.events + run_events(step.state, inputs.drop_first())
    }
}

/// The run after it has taken `inputs` one after another.
pub open spec fn run_state(s: InstallationView, inputs: Seq<EventView>) -> InstallationView
    decreases inputs.len(),
{
    if inputs.len() == 0 {
        s
    } else {
        run_state(next_step(s, inputs[0]).state, inputs.drop_first())
    }
}

/// The requests that a run makes while it takes `inputs` one after another.
pub open spec fn run_requests(s: InstallationView, inputs: Seq<EventView>) -> Seq<RequestView>
    decreases inputs.len(),
{
    if inputs.len() == 0 {
        Seq::empty()
    } else {
        let step = next_step(s, inputs[0]);
        seq![step.request] + run_requests(step.state, inputs.drop_first())
    }
}

/// The event that closes a successful run.
pub open spec fn closing_event() -> ProgressView {
    progress_event(
        FINAL_STEP@,
        ProgressStatus::Success,
        FINAL_LEVEL,
        seq![FINAL_NOTE_INSTALLED@, FINAL_NOTE_CONFIGURED@],
    )
}

/// Some event of `events` reports a failure.
pub open spec fn has_failure(events: Seq<ProgressView>) -> bool {
    exists|i: int| 0 <= i < events.len() && (#[trigger] events[i]).status == ProgressStatus::Failed
}

/// One step never lowers the progress: its events lie between the level of
/// the stage before and the level of the stage after, in rising order. A
/// failed event is the step's last and leaves the run aborted. A run that is
/// over emits nothing more.
pub proof fn lemma_step_progress(s: InstallationView, e: EventView)
    ensures
        s.stage.level() <= next_step(s, e).state.stage.level(),
        within(next_step(s, e).events, s.stage.level(), next_step(s, e).state.stage.level()),
        never_falls(next_step(s, e).events),
        failure_is_last(next_step(s, e).events),
        has_failure(next_step(s, e).events) ==> next_step(s, e).state.stage is Aborted,
        s.stage.is_final() ==> next_step(s, e) == waiting(s),
        next_step(s, e).state.host == s.host,
        next_step(s, e).state.options == s.options,
{
}

/// Across a whole run the progress never falls, whatever the host reports:
/// every event lies between the level at which the run began and the level
/// at which it stands, each at least as high as the one before. A failed
/// event is the last of the run.
pub proof fn lemma_run_progress(s: InstallationView, inputs: Seq<EventView>)
    ensures
        s.stage.level() <= run_state(s, inputs).stage.level(),
        within(run_events(s, inputs), s.stage.level(), run_state(s, inputs).stage.level()),
        never_falls(run_events(s, inputs)),
        failure_is_last(run_events(s, inputs)),
        has_failure(run_events(s, inputs)) ==> run_state(s, inputs).stage is Aborted,
    decreases inputs.len(),
{
    if inputs.len() > 0 {
        let step = next_step(s, inputs[0]);
        let rest = inputs.drop_first();
        let tail = run_events(step.state, rest);
        let all = step.events + tail;
        lemma_step_progress(s, inputs[0]);
        lemma_run_progress(step.state, rest);
        if has_failure(step.events) {
            lemma_run_of_finished(step.state, rest);
        }
        assert forall|i: int, j: int| 0 <= i <= j < all.len() implies all[i].progress
            <= all[j].progress by {
            if j < step.events.len() {
                assert(all[i] == step.events[i] && all[j] == step.events[j]);
            } else if i < step.events.len() {
                assert(all[i] == step.events[i]);
                assert(all[j] == tail[j - step.events.len()]);
            } else {
                assert(all[i] == tail[i - step.events.len()]);
                assert(all[j] == tail[j - step.events.len()]);
            }
        }
        assert forall|i: int| 0 <= i < all.len() implies s.stage.level() <= (#[trigger] all[i]).progress
            <= run_state(s, inputs).stage.level() by {
            if i < step.events.len() {
                assert(all[i] == step.events[i]);
            } else {
                assert(all[i] == tail[i - step.events.len()]);
            }
        }
        assert forall|i: int|
            0 <= i < all.len() && (#[trigger] all[i]).status == ProgressStatus::Failed implies i
            == all.len() - 1 by {
            if i < step.events.len() {
                assert(all[i] == step.events[i]);
                assert(has_failure(step.events));
            } else {
                assert(all[i] == tail[i - step.events.len()]);
            }
        }
        if has_failure(all) {
            let i = choose|i: int| 0 <= i < all.len() && (#[trigger] all[i]).status
                == ProgressStatus::Failed;
            if i < step.events.len() {
                assert(all[i] == step.events[i]);
                assert(has_failure(step.events));
            } else {
                assert(all[i] == tail[i - step.events.len()]);
                assert(has_failure(tail));
            }
        }
    }
}

/// A run that is over stays as it is: it emits nothing, asks for nothing to
/// be run, and only repeats its result.
pub proof fn lemma_run_of_finished(s: InstallationView, inputs: Seq<EventView>)
    requires
        s.stage.is_final(),
    ensures
        run_state(s, inputs) == s,
        run_events(s, inputs) == Seq::<ProgressView>::empty(),
        forall|i: int|
            0 <= i < run_requests(s, inputs).len() ==> !(#[trigger] run_requests(s, inputs)[i]).acts(),
    decreases inputs.len(),
{
    if inputs.len() > 0 {
        lemma_step_progress(s, inputs[0]);
        lemma_run_of_finished(s, inputs.drop_first());
        assert(run_events(s, inputs) =~= Seq::<ProgressView>::empty());
        let rest = run_requests(s, inputs.drop_first());
        assert forall|i: int| 0 <= i < run_requests(s, inputs).len() implies !(
        #[trigger] run_requests(s, inputs)[i]).acts() by {
            if i > 0 {
                assert(run_requests(s, inputs)[i] == rest[i - 1]);
            }
        }
    }
}

/// A run that reaches `Done` has emitted the closing event as its last: full
/// progress, with success.
pub proof fn lemma_successful_run_closes(s: InstallationView, inputs: Seq<EventView>)
    requires
        !(s.stage is Done),
        run_state(s, inputs).stage is Done,
    ensures
        run_events(s, inputs).len() > 0,
        run_events(s, inputs).last() == closing_event(),
        run_events(s, inputs).last().progress == 100,
        run_events(s, inputs).last().status == ProgressStatus::Success,
        never_falls(run_events(s, inputs)),
    decreases inputs.len(),
{
    lemma_run_progress(s, inputs);
    if inputs.len() > 0 {
        let step = next_step(s, inputs[0]);
        let rest = inputs.drop_first();
        if step.state.stage is Done {
            lemma_run_of_finished(step.state, rest);
            assert(run_events(s, inputs) =~= step.events);
        } else {
            lemma_successful_run_closes(step.state, rest);
            let tail = run_events(step.state, rest);
            assert(run_events(s, inputs).last() == tail.last());
        }
    }
}

/// A run is aborted only while it checks, configures or installs.
pub proof fn lemma_abort_edges(s: InstallationView, e: EventView)
    requires
        !(s.stage is Aborted),
        next_step(s, e).state.stage is Aborted,
    ensures
        s.stage.phase() == Phase::Checking || s.stage.phase() == Phase::Configuring
            || s.stage.phase() == Phase::Installing,
{
}

/// Whether a run may pass from phase `from` to phase `to` in one step.
pub open spec fn may_follow(from: Phase, to: Phase) -> bool {
    ||| to == from
    ||| from == Phase::Idle && to == Phase::Checking
    ||| from == Phase::Checking && (to == Phase::Configuring || to == Phase::Installing || to
        == Phase::Aborted)
    ||| from == Phase::Configuring && (to == Phase::Installing || to == Phase::Aborted)
    ||| from == Phase::Installing && (to == Phase::Initializing || to == Phase::Aborted)
    ||| from == Phase::Initializing && to == Phase::Done
}

/// The phases follow one another in one order only: checking, configuring
/// where the platform asks for it, installing, initializing, done. No step
/// goes back, and none skips the installation or the setup. Only on Linux
/// does a run enter the configuration.
pub proof fn lemma_phase_order(s: InstallationView, e: EventView)
    ensures
        may_follow(s.stage.phase(), next_step(s, e).state.stage.phase()),
        s.stage.phase() != Phase::Configuring && next_step(s, e).state.stage.phase()
            == Phase::Configuring ==> s.host.platform == Platform::Linux,
{
}

/// The setup stage always completes the run. Where the setup failed, the
/// run still succeeds, and the setup's complaint stands in the logs of the
/// event that reports the setup.
pub proof fn lemma_setup_never_aborts(s: InstallationView, result: ProcessView)
    requires
        s.stage is Initializing,
    ensures
        next_step(s, EventView::Finished(result)).state.stage is Done,
        next_step(s, EventView::Finished(result)).request == RequestView::Done(Ok(SUCCESS_TEXT@)),
        next_step(s, EventView::Finished(result)).events.len() == 2,
        next_step(s, EventView::Finished(result)).events[0].status == ProgressStatus::Success,
        !result.succeeded() ==> next_step(s, EventView::Finished(result)).events[0].logs
            == seq![result.complaint()],
        next_step(s, EventView::Finished(result)).events[1] == closing_event(),
{
}

/// A report with a blocking dependency aborts the run at the check: the
/// failure names every blocking dependency by its display name, and from
/// then on the run asks for nothing to be run.
pub proof fn lemma_blocked_run_aborts(
    s: InstallationView,
    report: Seq<StatusView>,
    d: StatusView,
    later: Seq<EventView>,
)
    requires
        report.contains(d),
        d.is_blocking(),
    ensures
        after_check(s, report).state.stage is Aborted,
        after_check(s, report).request == RequestView::Done(
            Err(missing_dependencies(blockers(report))),
        ),
        contains_text(missing_dependencies(blockers(report)).message, d.display_name),
        !after_check(s, report).request.acts(),
        forall|i: int|
            0 <= i < run_requests(after_check(s, report).state, later).len() ==> !(
            #[trigger] run_requests(after_check(s, report).state, later)[i]).acts(),
        run_events(after_check(s, report).state, later) == Seq::<ProgressView>::empty(),
{
    let blocking = blockers(report);
    lemma_blockers_exact(report, d);
    let k = choose|k: int| 0 <= k < blocking.len() && blocking[k] == d;
    let names = display_names(blocking);
    assert(names[k] == d.display_name);
    lemma_joined_contains(names, NAME_SEPARATOR@, k);
    lemma_contains_in_suffix(MISSING_PREFIX@, joined(names, NAME_SEPARATOR@), d.display_name);
    lemma_run_of_finished(after_check(s, report).state, later);
}

} // verus!
