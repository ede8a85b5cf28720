//! The remote capture script and the address under which its artifact is
//! published.
//!
//! The file name and the run identifier are written into the script exactly as
//! given: they are trusted identifiers that the caller generates itself, and
//! nothing here quotes or escapes them.

use crate::decimal::{decimal_text, render_decimal};
use vstd::prelude::*;
use vstd::string::*;

verus! {

/// Clears and enters the capture directory.
pub const PREPARE_STAGE: &'static str =
    "\n        set -xe;\n        rm -rf /tmp/perf-data;\n        mkdir /tmp/perf-data;\n        cd /tmp/perf-data;";

/// Attaches the sampling profiler to the running node process; the capture
/// length in seconds follows.
pub const RECORD_STAGE: &'static str =
    "\n        perf record -F 99 -p $(ps aux | grep diem-node | grep -v grep | awk '{print $2}') --output=perf.data --call-graph dwarf -- sleep ";

/// Folds the raw profile and renders the flame graph; the artifact's file name
/// follows.
pub const CONVERT_STAGE: &'static str =
    ";\n        perf script --input=perf.data | /usr/local/etc/FlameGraph/stackcollapse-perf.pl > out.perf-folded;\n        /usr/local/etc/FlameGraph/flamegraph.pl out.perf-folded > ";

/// Starts the upload; the artifact's file name follows.
pub const UPLOAD_STAGE: &'static str = ";\n        aws s3 cp ";

/// The bucket that artifacts are uploaded to, as the upload tool addresses it.
pub const UPLOAD_ROOT: &'static str = " s3://toro-cluster-test-flamegraphs/";

/// The same bucket, as a reader addresses it.
pub const PUBLIC_ROOT: &'static str =
    "https://toro-cluster-test-flamegraphs.s3-us-west-2.amazonaws.com/";

/// The folder of the bucket that holds all flame graphs.
pub const ARTIFACT_FOLDER: &'static str = "flamegraphs/";

/// Separates the run identifier from the file name.
pub const KEY_SEPARATOR: &'static str = "/";

/// Ends the script.
pub const SCRIPT_END: &'static str = ";";

/// What the announcement of a finished run starts with.
pub const ANNOUNCEMENT_LEAD: &'static str = "perf flamegraph : ";

/// Where in the bucket the artifact of a run lies.
pub open spec fn storage_key(run_id: Seq<char>, filename: Seq<char>) -> Seq<char> {
    ARTIFACT_FOLDER@ + run_id + KEY_SEPARATOR@ + filename
}

/// The capture script: prepare the directory, record for `duration_secs`
/// seconds, render the flame graph into `filename`, upload it under the key of
/// the run.
pub open spec fn capture_script(filename: Seq<char>, run_id: Seq<char>, duration_secs: nat) -> Seq<
    char,
> {
    PREPARE_STAGE@ + RECORD_STAGE@ + decimal_text(duration_secs) + CONVERT_STAGE@ + filename
        + UPLOAD_STAGE@ + filename + UPLOAD_ROOT@ + storage_key(run_id, filename) + SCRIPT_END@
}

/// The address at which the uploaded artifact can be read.
pub open spec fn artifact_address(run_id: Seq<char>, filename: Seq<char>) -> Seq<char> {
    PUBLIC_ROOT@ + storage_key(run_id, filename)
}

/// The line that tells a reader where the artifact is.
pub open spec fn announcement(run_id: Seq<char>, filename: Seq<char>) -> Seq<char> {
    ANNOUNCEMENT_LEAD@ + artifact_address(run_id, filename)
}

/// Where each given part stands in the capture script. Everything between
/// the parts is fixed text: the capture length follows the record stage, the
/// file name follows the convert stage and again the start of the upload, and
/// the storage key, which holds the run identifier and the file name once
/// more, follows the bucket.
pub proof fn lemma_script_layout(filename: Seq<char>, run_id: Seq<char>, duration_secs: nat)
    ensures
        ({
            let script = capture_script(filename, run_id, duration_secs);
            let seconds = decimal_text(duration_secs);
            let key = storage_key(run_id, filename);
            let at_seconds: int = PREPARE_STAGE@.len() as int + RECORD_STAGE@.len();
            let at_artifact: int = at_seconds + seconds.len() + CONVERT_STAGE@.len();
            let at_source: int = at_artifact + filename.len() + UPLOAD_STAGE@.len();
            let at_key: int = at_source + filename.len() + UPLOAD_ROOT@.len();
            let at_end: int = at_key + key.len();
            &&& script.len() == at_end + SCRIPT_END@.len()
            &&& script.subrange(0, at_seconds) == PREPARE_STAGE@ + RECORD_STAGE@
            &&& script.subrange(at_seconds, at_seconds + seconds.len()) == seconds
            &&& script.subrange(at_artifact, at_artifact + filename.len()) == filename
            &&& script.subrange(at_source, at_source + filename.len()) == filename
            &&& script.subrange(at_key, at_end) == key
            &&& script.subrange(at_end, script.len() as int) == SCRIPT_END@
        }),
{
    let script = capture_script(filename, run_id, duration_secs);
    let seconds = decimal_text(duration_secs);
    let key = storage_key(run_id, filename);
    let at_seconds: int = PREPARE_STAGE@.len() as int + RECORD_STAGE@.len();
    let at_artifact: int = at_seconds + seconds.len() + CONVERT_STAGE@.len();
    let at_source: int = at_artifact + filename.len() + UPLOAD_STAGE@.len();
    let at_key: int = at_source + filename.len() + UPLOAD_ROOT@.len();
    let at_end: int = at_key + key.len();
    assert(script.subrange(0, at_seconds) =~= PREPARE_STAGE@ + RECORD_STAGE@);
    assert(script.subrange(at_seconds, at_seconds + seconds.len()) =~= seconds);
    assert(script.subrange(at_artifact, at_artifact + filename.len()) =~= filename);
    assert(script.subrange(at_source, at_source + filename.len()) =~= filename);
    assert(script.subrange(at_key, at_end) =~= key);
    assert(script.subrange(at_end, script.len() as int) =~= SCRIPT_END@);
}

/// Where the parts stand in a storage key, and that the artifact is read
/// under the key under which the script uploads it.
pub proof fn lemma_key_layout(run_id: Seq<char>, filename: Seq<char>)
    ensures
        ({
            let key = storage_key(run_id, filename);
            let address = artifact_address(run_id, filename);
            let at_run: int = ARTIFACT_FOLDER@.len() as int;
            let at_file: int = at_run + run_id.len() + KEY_SEPARATOR@.len();
            let at_root: int = PUBLIC_ROOT@.len() as int;
            &&& key.len() == at_file + filename.len()
            &&& key.subrange(0, at_run) == ARTIFACT_FOLDER@
            &&& key.subrange(at_run, at_run + run_id.len()) == run_id
            &&& key.subrange(at_file, key.len() as int) == filename
            &&& address.subrange(at_root, address.len() as int) == key
        }),
{
    let key = storage_key(run_id, filename);
    let address = artifact_address(run_id, filename);
    let at_run: int = ARTIFACT_FOLDER@.len() as int;
    let at_file: int = at_run + run_id.len() + KEY_SEPARATOR@.len();
    let at_root: int = PUBLIC_ROOT@.len() as int;
    assert(key.subrange(0, at_run) =~= ARTIFACT_FOLDER@);
    assert(key.subrange(at_run, at_run + run_id.len()) =~= run_id);
    assert(key.subrange(at_file, key.len() as int) =~= filename);
    assert(address.subrange(at_root, address.len() as int) =~= key);
}

/// Building the script is a function of its three arguments: two scripts that
/// both meet the builder's contract for the same arguments are the same text.
pub proof fn lemma_script_is_determined(
    filename: Seq<char>,
    run_id: Seq<char>,
    duration_secs: nat,
    once: Seq<char>,
    again: Seq<char>,
)
    requires
        once == capture_script(filename, run_id, duration_secs),
        again == capture_script(filename, run_id, duration_secs),
    ensures
        once == again,
{
}

/// Appends the storage key of a run to `text`.
fn append_storage_key(text: &mut String, run_id: &str, filename: &str)
    ensures
        final(text)@ == old(text)@ + storage_key(run_id@, filename@),
{
    text.append(ARTIFACT_FOLDER);
    text.append(run_id);
    text.append(KEY_SEPARATOR);
    text.append(filename);
    assert(text@ =~= old(text)@ + storage_key(run_id@, filename@));
}

/// Builds the script that captures a profile of the node process for
/// `duration_secs` seconds, renders it as a flame graph named `filename` and
/// uploads that under `run_id`.
pub fn generate_perf_flamegraph_command(filename: &str, run_id: &str, duration_secs: usize) -> (command:
    String)
    ensures
        command@ == capture_script(filename@, run_id@, duration_secs as nat),
{
    let mut command = String::from_str(PREPARE_STAGE);
    command.append(RECORD_STAGE);
    let seconds = render_decimal(duration_secs);
    command.append(seconds.as_str());
    command.append(CONVERT_STAGE);
    command.append(filename);
    command.append(UPLOAD_STAGE);
    command.append(filename);
    command.append(UPLOAD_ROOT);
    append_storage_key(&mut command, run_id, filename);
    command.append(SCRIPT_END);
    assert(command@ =~= capture_script(filename@, run_id@, duration_secs as nat));
    command
}

/// Builds the address at which the artifact of a run can be read.
pub fn artifact_url(run_id: &str, filename: &str) -> (url: String)
    ensures
        url@ == artifact_address(run_id@, filename@),
{
    let mut url = String::from_str(PUBLIC_ROOT);
    append_storage_key(&mut url, run_id, filename);
    url
}

/// Builds the line that tells a reader where the artifact of a run is.
pub fn artifact_announcement(run_id: &str, filename: &str) -> (line: String)
    ensures
        line@ == announcement(run_id@, filename@),
{
    let mut line = String::from_str(ANNOUNCEMENT_LEAD);
    line.append(PUBLIC_ROOT);
    append_storage_key(&mut line, run_id, filename);
    assert(line@ =~= announcement(run_id@, filename@));
    line
}

} // verus!
