//! What a run is configured with.

use crate::command::{
    announcement, artifact_address, artifact_announcement, artifact_url, capture_script,
    generate_perf_flamegraph_command,
};
use crate::windows::TimeWindows;
use vstd::prelude::*;
use vstd::string::*;

verus! {

/// The file name of the standard run's artifact.
pub const STANDARD_FILENAME: &'static str = "diem-node-perf.svg";

/// The run identifier of the standard run.
pub const STANDARD_RUN_ID: &'static str = "ct-0-cluster-test-circleci-1636057";

/// For how many seconds the standard run samples.
pub const STANDARD_CAPTURE_SECS: usize = 60;

/// What the name of a validator's workload contains.
pub const VALIDATOR_MARKER: &'static str = "diem-validator-validator";

/// The label under which the capture is submitted.
pub const CAPTURE_LABEL: &'static str = "generate-flamegraph";

/// What determines a capture: the artifact's file name, the identifier of the
/// run, and for how long the profiler samples. File name and run identifier
/// go into a shell script as they are, so they must come from the caller
/// itself and never from an untrusted source.
#[derive(Clone, Debug, PartialEq, Eq)]
pub struct CaptureSpec {
    pub filename: String,
    pub run_id: String,
    pub duration_secs: usize,
}

/// A capture specification with its texts as sequences of characters.
pub struct CaptureSpecView {
    pub filename: Seq<char>,
    pub run_id: Seq<char>,
    pub duration_secs: nat,
}

impl View for CaptureSpec {
    type V = CaptureSpecView;

    open spec fn view(&self) -> CaptureSpecView {
        CaptureSpecView {
            filename: self.filename@,
            run_id: self.run_id@,
            duration_secs: self.duration_secs as nat,
        }
    }
}

impl CaptureSpecView {
    /// The script that performs this capture.
    pub open spec fn script(self) -> Seq<char> {
        capture_script(self.filename, self.run_id, self.duration_secs)
    }

    /// The address at which this capture's artifact can be read.
    pub open spec fn address(self) -> Seq<char> {
        artifact_address(self.run_id, self.filename)
    }

    /// The line that tells a reader where this capture's artifact is.
    pub open spec fn announcement(self) -> Seq<char> {
        announcement(self.run_id, self.filename)
    }
}

/// The capture of the standard run.
pub open spec fn standard_capture() -> CaptureSpecView {
    CaptureSpecView {
        filename: STANDARD_FILENAME@,
        run_id: STANDARD_RUN_ID@,
        duration_secs: STANDARD_CAPTURE_SECS as nat,
    }
}

impl CaptureSpec {
    /// The capture of the standard run.
    pub fn standard() -> (spec: CaptureSpec)
        ensures
            spec@ == standard_capture(),
    {
        CaptureSpec {
            filename: String::from_str(STANDARD_FILENAME),
            run_id: String::from_str(STANDARD_RUN_ID),
            duration_secs: STANDARD_CAPTURE_SECS,
        }
    }

    /// Builds the script that performs this capture.
    pub fn command(&self) -> (command: String)
        ensures
            command@ == self@.script(),
    {
        generate_perf_flamegraph_command(
            self.filename.as_str(),
            self.run_id.as_str(),
            self.duration_secs,
        )
    }

    /// Builds the address at which this capture's artifact can be read.
    pub fn artifact_url(&self) -> (url: String)
        ensures
            url@ == self@.address(),
    {
        artifact_url(self.run_id.as_str(), self.filename.as_str())
    }

    /// Builds the line that tells a reader where this capture's artifact is.
    pub fn announcement(&self) -> (line: String)
        ensures
            line@ == self@.announcement(),
    {
        artifact_announcement(self.run_id.as_str(), self.filename.as_str())
    }
}

/// Everything that is fixed when a run starts.
#[derive(Clone, Debug, PartialEq, Eq)]
pub struct BenchmarkConfig {
    /// The startup buffer and the load duration.
    pub windows: TimeWindows,
    /// What is captured on the target.
    pub capture: CaptureSpec,
    /// What the name of a node must contain to be profiled.
    pub role_marker: String,
    /// The label under which the capture is submitted.
    pub capture_label: String,
}

/// A configuration with its texts as sequences of characters and its
/// durations as natural numbers of seconds.
pub struct BenchmarkConfigView {
    pub buffer_secs: nat,
    pub total_load_secs: nat,
    pub capture: CaptureSpecView,
    pub role_marker: Seq<char>,
    pub capture_label: Seq<char>,
}

impl View for BenchmarkConfig {
    type V = BenchmarkConfigView;

    open spec fn view(&self) -> BenchmarkConfigView {
        BenchmarkConfigView {
            buffer_secs: self.windows.buffer(),
            total_load_secs: self.windows.total_load(),
            capture: self.capture@,
            role_marker: self.role_marker@,
            capture_label: self.capture_label@,
        }
    }
}

/// The configuration of the standard run: one minute of buffer, four
/// minutes of load, one minute of sampling on a validator.
pub open spec fn standard_config() -> BenchmarkConfigView {
    BenchmarkConfigView {
        buffer_secs: 60,
        total_load_secs: 240,
        capture: standard_capture(),
        role_marker: VALIDATOR_MARKER@,
        capture_label: CAPTURE_LABEL@,
    }
}

impl BenchmarkConfig {
    /// The configuration of the standard run.
    pub fn standard() -> (config: BenchmarkConfig)
        ensures
            config@ == standard_config(),
    {
        BenchmarkConfig {
            windows: TimeWindows::standard(),
            capture: CaptureSpec::standard(),
            role_marker: String::from_str(VALIDATOR_MARKER),
            capture_label: String::from_str(CAPTURE_LABEL),
        }
    }
}

} // verus!
