use perf_benchmark::failure::FailureReason;
use perf_benchmark::target::{find_target, select_target, NodeRecord};
use perf_benchmark::windows::{TimeWindows, WindowError};

fn node(name: &str, host: &str) -> NodeRecord {
    NodeRecord { name: String::from(name), node_name: String::from(host) }
}

#[test]
fn selects_the_only_validator() {
    let nodes = vec![node("diem-validator-validator-3", "host-3")];
    let target = select_target(&nodes, "diem-validator-validator");
    assert_eq!(target, Ok(node("diem-validator-validator-3", "host-3")));
}

#[test]
fn selects_the_first_of_several_validators() {
    let nodes = vec![
        node("diem-fullnode-0", "host-a"),
        node("diem-validator-validator-1", "host-b"),
        node("diem-validator-validator-0", "host-c"),
    ];
    assert_eq!(find_target(&nodes, "diem-validator-validator"), Some(1));
    let target = select_target(&nodes, "diem-validator-validator").unwrap();
    assert_eq!(target.name, "diem-validator-validator-1");
    assert_eq!(target.node_name, "host-b");
    assert!(target.name.contains("diem-validator-validator"));
}

#[test]
fn selects_by_the_name_and_not_by_the_host() {
    let nodes = vec![
        node("monitoring", "diem-validator-validator-host"),
        node("x-diem-validator-validator", "host-2"),
    ];
    assert_eq!(find_target(&nodes, "diem-validator-validator"), Some(1));
}

#[test]
fn marker_may_stand_anywhere_in_the_name() {
    let nodes = vec![node("abc", "h0"), node("xxabcxx", "h1"), node("ab", "h2")];
    assert_eq!(find_target(&nodes, "bcx"), Some(1));
    assert_eq!(find_target(&nodes, "ab"), Some(0));
    assert_eq!(find_target(&nodes, "xx"), Some(1));
    assert_eq!(find_target(&nodes, "abcd"), None);
}

#[test]
fn no_target_among_no_nodes() {
    let nodes: Vec<NodeRecord> = Vec::new();
    assert_eq!(find_target(&nodes, "diem-validator-validator"), None);
    assert_eq!(select_target(&nodes, "diem-validator-validator"), Err(FailureReason::NoTarget));
}

#[test]
fn no_target_among_other_nodes() {
    let nodes = vec![node("diem-fullnode-0", "h0"), node("diem-validator", "h1")];
    assert_eq!(select_target(&nodes, "diem-validator-validator"), Err(FailureReason::NoTarget));
}

#[test]
fn empty_marker_selects_the_first_node() {
    let nodes = vec![node("", "h0"), node("b", "h1")];
    assert_eq!(find_target(&nodes, ""), Some(0));
}

#[test]
fn selection_is_the_same_on_every_call() {
    let nodes = vec![node("a", "h0"), node("diem-validator-validator-5", "h1")];
    let before = nodes.clone();
    let once = select_target(&nodes, "diem-validator-validator");
    let again = select_target(&nodes, "diem-validator-validator");
    assert_eq!(once, again);
    assert_eq!(nodes, before);
}

#[test]
fn marker_with_characters_beyond_ascii() {
    let nodes = vec![node("nœud-a", "h0"), node("nœud-é-b", "h1")];
    assert_eq!(find_target(&nodes, "é-b"), Some(1));
    assert_eq!(find_target(&nodes, "œ"), Some(0));
}

#[test]
fn windows_of_the_standard_run() {
    let windows = TimeWindows::new(60, 240).unwrap();
    assert_eq!(windows.buffer_secs(), 60);
    assert_eq!(windows.total_load_secs(), 240);
    assert_eq!(windows, TimeWindows::standard());
}

#[test]
fn windows_may_be_equal() {
    let windows = TimeWindows::new(5, 5).unwrap();
    assert_eq!(windows.buffer_secs(), 5);
    assert_eq!(windows.total_load_secs(), 5);
}

#[test]
fn windows_reject_a_buffer_longer_than_the_load() {
    assert_eq!(TimeWindows::new(241, 240), Err(WindowError::BufferExceedsLoad));
    assert_eq!(TimeWindows::new(u64::MAX, 1), Err(WindowError::BufferExceedsLoad));
}

#[test]
fn windows_reject_a_zero_buffer() {
    assert_eq!(TimeWindows::new(0, 240), Err(WindowError::ZeroBuffer));
    assert_eq!(TimeWindows::new(0, 0), Err(WindowError::ZeroBuffer));
}

#[test]
fn windows_reject_a_zero_load() {
    assert_eq!(TimeWindows::new(60, 0), Err(WindowError::ZeroLoad));
}

#[test]
fn windows_accept_the_largest_durations() {
    let windows = TimeWindows::new(1, u64::MAX).unwrap();
    assert_eq!(windows.buffer_secs(), 1);
    assert_eq!(windows.total_load_secs(), u64::MAX);
}

#[test]
fn failures_name_their_phase_and_cause() {
    assert_eq!(
        FailureReason::ProfilingFailed(String::from("exit 1")).describe(),
        "Failed to generate flamegraph: exit 1"
    );
    assert_eq!(
        FailureReason::LoadGenerationFailed(String::from("timeout")).describe(),
        "Failed to generate load: timeout"
    );
    assert_eq!(
        FailureReason::DiscoveryFailed(String::from("no route")).describe(),
        "Failed to discover nodes: no route"
    );
    assert_eq!(
        FailureReason::NoTarget.describe(),
        "Failed to select a target: no node carries the role marker"
    );
}
