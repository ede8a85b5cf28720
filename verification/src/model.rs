//! The run as a transition system: which state follows a state and an event,
//! which action is asked for, and what holds of every sequence of events.

use crate::config::BenchmarkConfigView;
use crate::failure::FailureReasonView;
use crate::phase::{ActionView, EventView, PhaseView};
use crate::target::{first_match, lemma_first_match_characterised, occurs_in, NodeRecordView};
use crate::windows::windows_valid;
use vstd::prelude::*;

verus! {

/// The name under which the benchmark reports and logs.
pub const BENCHMARK_NAME: &'static str = "performance::performance-benchmark";

/// The state of a run: its phase, its configuration, and the node that was
/// chosen for profiling, once one is.
pub struct RunView {
    pub phase: PhaseView,
    pub config: BenchmarkConfigView,
    pub target: Option<NodeRecordView>,
}

/// The state in which every run starts.
pub open spec fn initial_run(config: BenchmarkConfigView) -> RunView {
    RunView { phase: PhaseView::Init, config, target: None }
}

/// The same run in another phase.
pub open spec fn in_phase(run: RunView, phase: PhaseView) -> RunView {
    RunView { phase, ..run }
}

/// The same run, abandoned for `reason`.
pub open spec fn abandoned(run: RunView, reason: FailureReasonView) -> RunView {
    RunView { phase: PhaseView::Failed(reason), ..run }
}

/// Whether a run in `phase` has been waiting for `event`. An event that the
/// run has not been waiting for changes nothing and asks for nothing.
pub open spec fn awaited<S>(phase: PhaseView, event: EventView<S>) -> bool {
    match phase {
        PhaseView::Init => event is NodesDiscovered || event is DiscoveryFailed,
        PhaseView::TargetSelected => event is CaptureSubmitted,
        PhaseView::ProfilingIssued => event is CaptureSucceeded || event is CaptureFailed,
        PhaseView::ProfilingAwaited => event is LoadSucceeded || event is LoadFailed,
        PhaseView::LoadRun => event is StatsReported,
        PhaseView::Reported => event is ArtifactAnnounced,
        PhaseView::Done => false,
        PhaseView::Failed(_) => false,
    }
}

/// The state that follows `run` when it is told `event`.
pub open spec fn next_run<S>(run: RunView, event: EventView<S>) -> RunView {
    if !awaited(run.phase, event) {
        run
    } else {
        match event {
            EventView::NodesDiscovered(nodes) => match first_match(nodes, run.config.role_marker) {
                Some(index) => RunView {
                    phase: PhaseView::TargetSelected,
                    config: run.config,
                    target: Some(nodes[index]),
                },
                None => abandoned(run, FailureReasonView::NoTarget),
            },
            EventView::DiscoveryFailed(cause) => abandoned(
                run,
                FailureReasonView::DiscoveryFailed(cause),
            ),
            EventView::CaptureSubmitted => in_phase(run, PhaseView::ProfilingIssued),
            EventView::CaptureSucceeded => in_phase(run, PhaseView::ProfilingAwaited),
            EventView::CaptureFailed(cause) => abandoned(
                run,
                FailureReasonView::ProfilingFailed(cause),
            ),
            EventView::LoadSucceeded(_) => in_phase(run, PhaseView::LoadRun),
            EventView::LoadFailed(cause) => abandoned(
                run,
                FailureReasonView::LoadGenerationFailed(cause),
            ),
            EventView::StatsReported => in_phase(run, PhaseView::Reported),
            EventView::ArtifactAnnounced => in_phase(run, PhaseView::Done),
        }
    }
}

/// What `run` asks for when it is told `event`: the work of the phase that it
/// enters, `Halt` when it enters a final phase, and nothing when the event
/// was not awaited.
pub open spec fn next_action<S>(run: RunView, event: EventView<S>) -> Option<ActionView<S>> {
    if !awaited(run.phase, event) {
        None
    } else {
        match event {
            EventView::NodesDiscovered(nodes) => match first_match(nodes, run.config.role_marker) {
                Some(index) => Some(
                    ActionView::SubmitCapture {
                        node_name: nodes[index].node_name,
                        command: run.config.capture.script(),
                        label: run.config.capture_label,
                    },
                ),
                None => Some(ActionView::Halt),
            },
            EventView::CaptureSubmitted => Some(
                ActionView::AwaitCapture { buffer_secs: run.config.buffer_secs },
            ),
            EventView::CaptureSucceeded => Some(
                ActionView::GenerateLoad { duration_secs: run.config.total_load_secs, rate: 0 },
            ),
            EventView::LoadSucceeded(stats) => Some(
                ActionView::ReportStats {
                    benchmark_name: BENCHMARK_NAME@,
                    stats,
                    total_load_secs: run.config.total_load_secs,
                },
            ),
            EventView::StatsReported => Some(
                ActionView::Announce { line: run.config.capture.announcement() },
            ),
            EventView::DiscoveryFailed(_) => Some(ActionView::Halt),
            EventView::CaptureFailed(_) => Some(ActionView::Halt),
            EventView::LoadFailed(_) => Some(ActionView::Halt),
            EventView::ArtifactAnnounced => Some(ActionView::Halt),
        }
    }
}

/// The state of a run that started in `start` and was told `events` in order.
pub open spec fn run_after<S>(start: RunView, events: Seq<EventView<S>>) -> RunView
    decreases events.len(),
{
    if events.len() == 0 {
        start
    } else {
        next_run(run_after(start, events.drop_last()), events.last())
    }
}

/// What a run that started in `start` asked for when it was told the event at
/// position `at` of `events`.
pub open spec fn action_at<S>(start: RunView, events: Seq<EventView<S>>, at: int) -> Option<
    ActionView<S>,
>
    recommends
        0 <= at < events.len(),
{
    next_action(run_after(start, events.take(at)), events[at])
}

/// What holds of a run in every state that it can reach: its windows are
/// valid; before a target is selected there is none; and from then on, while
/// the run has not failed, there is one, and its name carries the marker.
pub open spec fn run_consistent(run: RunView) -> bool {
    &&& windows_valid(run.config.buffer_secs, run.config.total_load_secs)
    &&& run.phase is Init ==> run.target is None
    &&& !(run.phase is Init) && !(run.phase is Failed) ==> (run.target matches Some(target)
        && occurs_in(run.config.role_marker, target.name))
}

/// A final phase is never left, and a run in one asks for nothing more.
pub proof fn lemma_final_phases_absorb<S>(run: RunView, event: EventView<S>)
    requires
        run.phase.is_final(),
    ensures
        next_run(run, event) == run,
        next_action(run, event) is None,
{
}

/// An event moves a run to the phase that follows its own, or into failure,
/// or not at all; and the run asks for something exactly when the event was
/// awaited.
pub proof fn lemma_one_phase_at_a_time<S>(run: RunView, event: EventView<S>)
    ensures
        awaited(run.phase, event) ==> (next_run(run, event).phase is Failed || next_run(
            run,
            event,
        ).phase.rank() == run.phase.rank() + 1),
        !awaited(run.phase, event) ==> next_run(run, event) == run,
        next_action(run, event) is Some <==> awaited(run.phase, event),
        next_action(run, event) == Some(ActionView::<S>::Halt) <==> awaited(run.phase, event)
            && next_run(run, event).phase.is_final(),
{
}

/// The configuration of a run never changes, and neither does its target once
/// it has one.
pub proof fn lemma_step_keeps_config_and_target<S>(run: RunView, event: EventView<S>)
    ensures
        next_run(run, event).config == run.config,
        !(run.phase is Init) ==> next_run(run, event).target == run.target,
{
}

/// Each kind of work is asked for in one situation only: a capture is
/// submitted when nodes are discovered and one carries the marker; the capture
/// is awaited when it was submitted; load is generated when the capture ended
/// well; statistics are reported when the load ended well; and the artifact
/// is announced when the statistics were reported.
pub proof fn lemma_work_has_one_cause<S>(run: RunView, event: EventView<S>)
    ensures
        next_action(run, event) matches Some(ActionView::SubmitCapture { .. }) <==> run.phase
            is Init && (event matches EventView::NodesDiscovered(nodes) && first_match(
            nodes,
            run.config.role_marker,
        ) is Some),
        next_action(run, event) matches Some(ActionView::AwaitCapture { .. }) <==> run.phase
            is TargetSelected && event is CaptureSubmitted,
        next_action(run, event) matches Some(ActionView::GenerateLoad { .. }) <==> run.phase
            is ProfilingIssued && event is CaptureSucceeded,
        next_action(run, event) matches Some(ActionView::ReportStats { .. }) <==> run.phase
            is ProfilingAwaited && event is LoadSucceeded,
        next_action(run, event) matches Some(ActionView::Announce { .. }) <==> run.phase
            is LoadRun && event is StatsReported,
{
}

/// A step keeps a consistent run consistent, and the first state is
/// consistent when its windows are valid.
pub proof fn lemma_step_keeps_consistency<S>(run: RunView, event: EventView<S>)
    requires
        run_consistent(run),
    ensures
        run_consistent(next_run(run, event)),
{
    if let EventView::NodesDiscovered(nodes) = event {
        lemma_first_match_characterised(nodes, run.config.role_marker);
    }
}

/// Every run starts consistent.
pub proof fn lemma_initial_run_is_consistent(config: BenchmarkConfigView)
    requires
        windows_valid(config.buffer_secs, config.total_load_secs),
    ensures
        run_consistent(initial_run(config)),
{
}

} // verus!
