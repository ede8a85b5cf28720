//! The phases of a run, what a run is told, and what it asks for.

use crate::failure::{FailureReason, FailureReasonView};
use crate::target::{node_views, NodeRecord, NodeRecordView};
use vstd::prelude::*;

verus! {

/// How far a run has come. `Done` and `Failed` are final.
#[derive(Clone, Debug, PartialEq, Eq)]
pub enum Phase {
    /// Nothing has happened yet.
    Init,
    /// The node to profile is chosen.
    TargetSelected,
    /// The capture is submitted and running on the target.
    ProfilingIssued,
    /// The capture has finished.
    ProfilingAwaited,
    /// Load has been generated and its statistics collected.
    LoadRun,
    /// The statistics are handed to the reporter.
    Reported,
    /// The artifact's address is announced; the run succeeded.
    Done,
    /// The run was abandoned.
    Failed(FailureReason),
}

/// A phase with the text of its failure as a sequence of characters.
pub enum PhaseView {
    Init,
    TargetSelected,
    ProfilingIssued,
    ProfilingAwaited,
    LoadRun,
    Reported,
    Done,
    Failed(FailureReasonView),
}

impl View for Phase {
    type V = PhaseView;

    open spec fn view(&self) -> PhaseView {
        match self {
            Phase::Init => PhaseView::Init,
            Phase::TargetSelected => PhaseView::TargetSelected,
            Phase::ProfilingIssued => PhaseView::ProfilingIssued,
            Phase::ProfilingAwaited => PhaseView::ProfilingAwaited,
            Phase::LoadRun => PhaseView::LoadRun,
            Phase::Reported => PhaseView::Reported,
            Phase::Done => PhaseView::Done,
            Phase::Failed(reason) => PhaseView::Failed(reason@),
        }
    }
}

impl PhaseView {
    /// Whether nothing can follow this phase.
    pub open spec fn is_final(self) -> bool {
        self is Done || self is Failed
    }

    /// How many phases of a successful run lie before this one; a failed run
    /// counts as beyond all of them.
    pub open spec fn rank(self) -> nat {
        match self {
            PhaseView::Init => 0,
            PhaseView::TargetSelected => 1,
            PhaseView::ProfilingIssued => 2,
            PhaseView::ProfilingAwaited => 3,
            PhaseView::LoadRun => 4,
            PhaseView::Reported => 5,
            PhaseView::Done => 6,
            PhaseView::Failed(_) => 7,
        }
    }
}

/// What the caller tells a run: the outcome of the work that the run asked
/// for last. `S` is the type of the load generator's statistics, which the
/// run passes on unread.
#[derive(Debug, PartialEq, Eq)]
pub enum Event<S> {
    /// The cluster listed its nodes.
    NodesDiscovered(Vec<NodeRecord>),
    /// The cluster could not be asked; the cause is attached.
    DiscoveryFailed(String),
    /// The capture was submitted to the target and is running.
    CaptureSubmitted,
    /// The buffer was waited out and the capture then ended well.
    CaptureSucceeded,
    /// The buffer was waited out and the capture then ended with an error.
    CaptureFailed(String),
    /// The load generator ran for the whole duration.
    LoadSucceeded(S),
    /// The load generator ended with an error.
    LoadFailed(String),
    /// The reporter has taken the statistics.
    StatsReported,
    /// The artifact's address was shown to the reader.
    ArtifactAnnounced,
}

/// An event with its texts as sequences of characters.
pub enum EventView<S> {
    NodesDiscovered(Seq<NodeRecordView>),
    DiscoveryFailed(Seq<char>),
    CaptureSubmitted,
    CaptureSucceeded,
    CaptureFailed(Seq<char>),
    LoadSucceeded(S),
    LoadFailed(Seq<char>),
    StatsReported,
    ArtifactAnnounced,
}

impl<S> View for Event<S> {
    type V = EventView<S>;

    open spec fn view(&self) -> EventView<S> {
        match self {
            Event::NodesDiscovered(nodes) => EventView::NodesDiscovered(node_views(nodes@)),
            Event::DiscoveryFailed(cause) => EventView::DiscoveryFailed(cause@),
            Event::CaptureSubmitted => EventView::CaptureSubmitted,
            Event::CaptureSucceeded => EventView::CaptureSucceeded,
            Event::CaptureFailed(cause) => EventView::CaptureFailed(cause@),
            Event::LoadSucceeded(stats) => EventView::LoadSucceeded(*stats),
            Event::LoadFailed(cause) => EventView::LoadFailed(cause@),
            Event::StatsReported => EventView::StatsReported,
            Event::ArtifactAnnounced => EventView::ArtifactAnnounced,
        }
    }
}

/// What is handed to the reporter: the statistics of the load, under the
/// benchmark's name, with the duration over which they were gathered.
#[derive(Debug, PartialEq, Eq)]
pub struct BenchmarkResult<S> {
    pub benchmark_name: String,
    pub stats: S,
    pub total_load_secs: u64,
}

/// What a run asks its caller to do next.
#[derive(Debug, PartialEq, Eq)]
pub enum Action<S> {
    /// Submit `command` to the host `node_name` under `label`, without
    /// waiting for it to end.
    SubmitCapture { node_name: String, command: String, label: String },
    /// Sleep for `buffer_secs` seconds, then wait for the capture to end.
    AwaitCapture { buffer_secs: u64 },
    /// Generate load against every validator for `duration_secs` seconds. A
    /// `rate` of zero leaves the rate to the generator.
    GenerateLoad { duration_secs: u64, rate: u64 },
    /// Hand the result to the reporter.
    ReportStats(BenchmarkResult<S>),
    /// Show `line` to the reader.
    Announce { line: String },
    /// Stop: the run is over.
    Halt,
}

/// An action with its texts as sequences of characters and its durations as
/// natural numbers of seconds.
pub enum ActionView<S> {
    SubmitCapture { node_name: Seq<char>, command: Seq<char>, label: Seq<char> },
    AwaitCapture { buffer_secs: nat },
    GenerateLoad { duration_secs: nat, rate: nat },
    ReportStats { benchmark_name: Seq<char>, stats: S, total_load_secs: nat },
    Announce { line: Seq<char> },
    Halt,
}

impl<S> View for Action<S> {
    type V = ActionView<S>;

    open spec fn view(&self) -> ActionView<S> {
        match self {
            Action::SubmitCapture { node_name, command, label } => ActionView::SubmitCapture {
                node_name: node_name@,
                command: command@,
                label: label@,
            },
            Action::AwaitCapture { buffer_secs } => ActionView::AwaitCapture {
                buffer_secs: *buffer_secs as nat,
            },
            Action::GenerateLoad { duration_secs, rate } => ActionView::GenerateLoad {
                duration_secs: *duration_secs as nat,
                rate: *rate as nat,
            },
            Action::ReportStats(result) => ActionView::ReportStats {
                benchmark_name: result.benchmark_name@,
                stats: result.stats,
                total_load_secs: result.total_load_secs as nat,
            },
            Action::Announce { line } => ActionView::Announce { line: line@ },
            Action::Halt => ActionView::Halt,
        }
    }
}

/// The view of an action that may be absent.
pub open spec fn action_view<S>(action: Option<Action<S>>) -> Option<ActionView<S>> {
    match action {
        Some(action) => Some(action@),
        None => None,
    }
}

} // verus!
