//! The run itself: it is told what happened and answers with what to do next.

use crate::config::BenchmarkConfig;
use crate::failure::FailureReason;
use crate::model::{
    abandoned, initial_run, lemma_step_keeps_consistency, next_action, next_run, run_consistent,
    RunView, BENCHMARK_NAME,
};
use crate::phase::{action_view, Action, ActionView, BenchmarkResult, Event, Phase};
use crate::target::{select_target, NodeRecord, NodeRecordView};
use vstd::prelude::*;
use vstd::string::*;

verus! {

/// The view of a target that may not be chosen yet.
pub open spec fn target_view(target: Option<NodeRecord>) -> Option<NodeRecordView> {
    match target {
        Some(target) => Some(target@),
        None => None,
    }
}

/// One run of the benchmark. It does no work itself: the caller performs each
/// action that the run asks for and tells it the outcome.
///
/// A caller discovers the cluster's nodes first and tells the run, which then
/// asks, in this order, for the capture to be submitted, for the buffer to be
/// waited out and the capture to be awaited, for load to be generated, for
/// the statistics to be reported, and for the artifact to be announced. Any
/// failure on the way ends the run at once.
#[derive(Debug)]
pub struct Run {
    phase: Phase,
    config: BenchmarkConfig,
    target: Option<NodeRecord>,
}

impl View for Run {
    type V = RunView;

    closed spec fn view(&self) -> RunView {
        RunView { phase: self.phase@, config: self.config@, target: target_view(self.target) }
    }
}

impl Run {
    /// Starts a run with the given configuration.
    pub fn new(config: BenchmarkConfig) -> (run: Run)
        ensures
            run@ == initial_run(config@),
            run_consistent(run@),
    {
        // The getter's contract brings the validity of the windows along.
        let _ = config.windows.buffer_secs();
        Run { phase: Phase::Init, config, target: None }
    }

    /// The phase that the run is in.
    pub fn phase(&self) -> (phase: &Phase)
        ensures
            phase@ == self@.phase,
    {
        &self.phase
    }

    /// The configuration that the run was started with.
    pub fn config(&self) -> (config: &BenchmarkConfig)
        ensures
            config@ == self@.config,
    {
        &self.config
    }

    /// The node that was chosen for profiling, once one is.
    pub fn target(&self) -> (target: &Option<NodeRecord>)
        ensures
            target_view(*target) == self@.target,
    {
        &self.target
    }

    /// Whether the run is over, well or not.
    pub fn is_over(&self) -> (over: bool)
        ensures
            over == self@.phase.is_final(),
    {
        match self.phase {
            Phase::Done => true,
            Phase::Failed(_) => true,
            _ => false,
        }
    }

    /// Whether the run ended well.
    pub fn succeeded(&self) -> (well: bool)
        ensures
            well == (self@.phase is Done),
    {
        match self.phase {
            Phase::Done => true,
            _ => false,
        }
    }

    /// Abandons the run and asks the caller to stop.
    fn abandon<S>(&mut self, reason: FailureReason) -> (action: Option<Action<S>>)
        ensures
            final(self)@ == abandoned(old(self)@, reason@),
            action_view(action) == Some(ActionView::<S>::Halt),
    {
        self.phase = Phase::Failed(reason);
        Some(Action::Halt)
    }

    /// Takes the list of discovered nodes: selects the target and asks for
    /// the capture to be submitted to it, or abandons the run if no node
    /// carries the marker.
    fn on_nodes<S>(&mut self, nodes: Vec<NodeRecord>) -> (action: Option<Action<S>>)
        requires
            old(self)@.phase is Init,
        ensures
            final(self)@ == next_run(old(self)@, Event::<S>::NodesDiscovered(nodes)@),
            action_view(action) == next_action(old(self)@, Event::<S>::NodesDiscovered(nodes)@),
    {
        match select_target(&nodes, self.config.role_marker.as_str()) {
            Ok(target) => {
                let action = Action::SubmitCapture {
                    node_name: target.node_name.clone(),
                    command: self.config.capture.command(),
                    label: self.config.capture_label.clone(),
                };
                self.target = Some(target);
                self.phase = Phase::TargetSelected;
                Some(action)
            },
            Err(reason) => self.abandon(reason),
        }
    }

    /// Tells the run what happened and returns what it asks for next.
    ///
    /// An event that the run has not been waiting for, among them every
    /// event after the run is over, leaves the run as it is and is answered
    /// with `None`.
    pub fn step<S>(&mut self, event: Event<S>) -> (action: Option<Action<S>>)
        ensures
            final(self)@ == next_run(old(self)@, event@),
            action_view(action) == next_action(old(self)@, event@),
            run_consistent(old(self)@) ==> run_consistent(final(self)@),
    {
        proof {
            if run_consistent(self@) {
                lemma_step_keeps_consistency(self@, event@);
            }
        }
        match event {
            Event::NodesDiscovered(nodes) => match self.phase {
                Phase::Init => self.on_nodes(nodes),
                _ => None,
            },
            Event::DiscoveryFailed(cause) => match self.phase {
                Phase::Init => self.abandon(FailureReason::DiscoveryFailed(cause)),
                _ => None,
            },
            Event::CaptureSubmitted => match self.phase {
                Phase::TargetSelected => {
                    self.phase = Phase::ProfilingIssued;
                    Some(Action::AwaitCapture { buffer_secs: self.config.windows.buffer_secs() })
                },
                _ => None,
            },
            Event::CaptureSucceeded => match self.phase {
                Phase::ProfilingIssued => {
                    self.phase = Phase::ProfilingAwaited;
                    Some(
                        Action::GenerateLoad {
                            duration_secs: self.config.windows.total_load_secs(),
                            rate: 0,
                        },
                    )
                },
                _ => None,
            },
            Event::CaptureFailed(cause) => match self.phase {
                Phase::ProfilingIssued => self.abandon(FailureReason::ProfilingFailed(cause)),
                _ => None,
            },
            Event::LoadSucceeded(stats) => match self.phase {
                Phase::ProfilingAwaited => {
                    self.phase = Phase::LoadRun;
                    Some(
                        Action::ReportStats(
                            BenchmarkResult {
                                benchmark_name: String::from_str(BENCHMARK_NAME),
                                stats,
                                total_load_secs: self.config.windows.total_load_secs(),
                            },
                        ),
                    )
                },
                _ => None,
            },
            Event::LoadFailed(cause) => match self.phase {
                Phase::ProfilingAwaited => self.abandon(FailureReason::LoadGenerationFailed(cause)),
                _ => None,
            },
            Event::StatsReported => match self.phase {
                Phase::LoadRun => {
                    self.phase = Phase::Reported;
                    Some(Action::Announce { line: self.config.capture.announcement() })
                },
                _ => None,
            },
            Event::ArtifactAnnounced => match self.phase {
                Phase::Reported => {
                    self.phase = Phase::Done;
                    Some(Action::Halt)
                },
                _ => None,
            },
        }
    }
}

} // verus!
