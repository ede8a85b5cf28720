//! Why a benchmark run ended without a result.

use vstd::prelude::*;
use vstd::string::*;

verus! {

/// The reason for which a run was abandoned. Every reason is final: nothing
/// is retried, and no later phase runs.
#[derive(Clone, Debug, PartialEq, Eq)]
pub enum FailureReason {
    /// The cluster could not be asked for its nodes; the cause is attached.
    DiscoveryFailed(String),
    /// No discovered node carries the role marker.
    NoTarget,
    /// The remote capture ended with an error; the cause is attached.
    ProfilingFailed(String),
    /// The load generator ended with an error; the cause is attached.
    LoadGenerationFailed(String),
}

/// A failure reason with its text as a sequence of characters.
pub enum FailureReasonView {
    DiscoveryFailed(Seq<char>),
    NoTarget,
    ProfilingFailed(Seq<char>),
    LoadGenerationFailed(Seq<char>),
}

impl View for FailureReason {
    type V = FailureReasonView;

    open spec fn view(&self) -> FailureReasonView {
        match self {
            FailureReason::DiscoveryFailed(cause) => FailureReasonView::DiscoveryFailed(cause@),
            FailureReason::NoTarget => FailureReasonView::NoTarget,
            FailureReason::ProfilingFailed(cause) => FailureReasonView::ProfilingFailed(cause@),
            FailureReason::LoadGenerationFailed(cause) => FailureReasonView::LoadGenerationFailed(
                cause@,
            ),
        }
    }
}

/// What the message of a failed discovery starts with.
pub const DISCOVERY_LEAD: &'static str = "Failed to discover nodes: ";

/// The whole message of a run without a target.
pub const NO_TARGET_TEXT: &'static str = "Failed to select a target: no node carries the role marker";

/// What the message of a failed capture starts with.
pub const PROFILING_LEAD: &'static str = "Failed to generate flamegraph: ";

/// What the message of a failed load generation starts with.
pub const LOAD_LEAD: &'static str = "Failed to generate load: ";

/// The message of a failure: the phase that failed, then the cause as it was
/// reported.
pub open spec fn failure_text(reason: FailureReasonView) -> Seq<char> {
    match reason {
        FailureReasonView::DiscoveryFailed(cause) => DISCOVERY_LEAD@ + cause,
        FailureReasonView::NoTarget => NO_TARGET_TEXT@,
        FailureReasonView::ProfilingFailed(cause) => PROFILING_LEAD@ + cause,
        FailureReasonView::LoadGenerationFailed(cause) => LOAD_LEAD@ + cause,
    }
}

impl FailureReason {
    /// The message that a reader of the run's outcome sees.
    pub fn describe(&self) -> (text: String)
        ensures
            text@ == failure_text(self@),
    {
        match self {
            FailureReason::DiscoveryFailed(cause) => {
                let mut text = String::from_str(DISCOVERY_LEAD);
                text.append(cause.as_str());
                text
            },
            FailureReason::NoTarget => String::from_str(NO_TARGET_TEXT),
            FailureReason::ProfilingFailed(cause) => {
                let mut text = String::from_str(PROFILING_LEAD);
                text.append(cause.as_str());
                text
            },
            FailureReason::LoadGenerationFailed(cause) => {
                let mut text = String::from_str(LOAD_LEAD);
                text.append(cause.as_str());
                text
            },
        }
    }
}

} // verus!
