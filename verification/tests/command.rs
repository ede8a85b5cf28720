use perf_benchmark::command::{artifact_announcement, artifact_url};
use perf_benchmark::config::CaptureSpec;
use perf_benchmark::decimal::render_decimal;
use perf_benchmark::generate_perf_flamegraph_command;

const STANDARD_SCRIPT: &str = "\n        set -xe;\n        rm -rf /tmp/perf-data;\n        mkdir /tmp/perf-data;\n        cd /tmp/perf-data;\n        perf record -F 99 -p $(ps aux | grep diem-node | grep -v grep | awk '{print $2}') --output=perf.data --call-graph dwarf -- sleep 60;\n        perf script --input=perf.data | /usr/local/etc/FlameGraph/stackcollapse-perf.pl > out.perf-folded;\n        /usr/local/etc/FlameGraph/flamegraph.pl out.perf-folded > diem-node-perf.svg;\n        aws s3 cp diem-node-perf.svg s3://toro-cluster-test-flamegraphs/flamegraphs/ct-0-cluster-test-circleci-1636057/diem-node-perf.svg;";

#[test]
fn standard_script_is_exact() {
    let script = generate_perf_flamegraph_command(
        "diem-node-perf.svg",
        "ct-0-cluster-test-circleci-1636057",
        60,
    );
    assert_eq!(script, STANDARD_SCRIPT);
}

#[test]
fn script_is_the_same_on_every_call() {
    let once = generate_perf_flamegraph_command("a.svg", "run-1", 15);
    let again = generate_perf_flamegraph_command("a.svg", "run-1", 15);
    assert_eq!(once.as_bytes(), again.as_bytes());
}

#[test]
fn script_holds_each_part_in_its_place() {
    let script = generate_perf_flamegraph_command("out.svg", "run-7", 125);
    assert!(script.contains("--call-graph dwarf -- sleep 125;\n"));
    assert!(script.contains("flamegraph.pl out.perf-folded > out.svg;\n"));
    assert!(script.ends_with(
        "aws s3 cp out.svg s3://toro-cluster-test-flamegraphs/flamegraphs/run-7/out.svg;"
    ));
    assert!(script.starts_with("\n        set -xe;\n        rm -rf /tmp/perf-data;\n"));
}

#[test]
fn script_of_benign_parts_has_eight_statements() {
    let script = generate_perf_flamegraph_command("graph-1.svg", "ct_0.run", 60);
    assert_eq!(script.matches(';').count(), 8);
    assert_eq!(script.matches('\n').count(), 8);
    assert_eq!(script.matches('\'').count(), 2);
    assert_eq!(script.matches('$').count(), 2);
    assert!(script.ends_with(';'));
}

#[test]
fn script_takes_its_parts_as_they_are() {
    let script = generate_perf_flamegraph_command("a b", "x;y", 1);
    assert!(script.contains("> a b;\n"));
    assert!(script.ends_with("aws s3 cp a b s3://toro-cluster-test-flamegraphs/flamegraphs/x;y/a b;"));
}

#[test]
fn script_with_a_zero_duration_sleeps_zero() {
    let script = generate_perf_flamegraph_command("f", "r", 0);
    assert!(script.contains("-- sleep 0;\n"));
}

#[test]
fn script_with_empty_parts_keeps_the_fixed_text() {
    let script = generate_perf_flamegraph_command("", "", 3);
    assert!(script.contains("out.perf-folded > ;\n"));
    assert!(script.ends_with("aws s3 cp  s3://toro-cluster-test-flamegraphs/flamegraphs//;"));
}

#[test]
fn decimal_of_small_numbers() {
    assert_eq!(render_decimal(0), "0");
    assert_eq!(render_decimal(7), "7");
    assert_eq!(render_decimal(9), "9");
    assert_eq!(render_decimal(10), "10");
    assert_eq!(render_decimal(60), "60");
    assert_eq!(render_decimal(240), "240");
    assert_eq!(render_decimal(1005), "1005");
}

#[test]
fn decimal_of_the_largest_number() {
    assert_eq!(render_decimal(usize::MAX), format!("{}", usize::MAX));
}

#[test]
fn decimal_agrees_with_the_standard_notation() {
    let mut n: usize = 1;
    while n < 1_000_000_000 {
        assert_eq!(render_decimal(n), format!("{}", n));
        assert_eq!(render_decimal(n - 1), format!("{}", n - 1));
        n = n * 7 + 3;
    }
}

#[test]
fn artifact_url_of_the_standard_run() {
    assert_eq!(
        artifact_url("ct-0-cluster-test-circleci-1636057", "diem-node-perf.svg"),
        "https://toro-cluster-test-flamegraphs.s3-us-west-2.amazonaws.com/flamegraphs/ct-0-cluster-test-circleci-1636057/diem-node-perf.svg"
    );
}

#[test]
fn announcement_of_the_standard_run() {
    assert_eq!(
        artifact_announcement("ct-0-cluster-test-circleci-1636057", "diem-node-perf.svg"),
        "perf flamegraph : https://toro-cluster-test-flamegraphs.s3-us-west-2.amazonaws.com/flamegraphs/ct-0-cluster-test-circleci-1636057/diem-node-perf.svg"
    );
}

#[test]
fn url_and_script_share_the_storage_key() {
    let script = generate_perf_flamegraph_command("p.svg", "id-9", 5);
    let url = artifact_url("id-9", "p.svg");
    assert!(script.contains("/flamegraphs/id-9/p.svg;"));
    assert!(url.ends_with("/flamegraphs/id-9/p.svg"));
}

#[test]
fn capture_spec_builds_what_the_free_functions_build() {
    let spec = CaptureSpec {
        filename: String::from("g.svg"),
        run_id: String::from("r-2"),
        duration_secs: 30,
    };
    assert_eq!(spec.command(), generate_perf_flamegraph_command("g.svg", "r-2", 30));
    assert_eq!(spec.artifact_url(), artifact_url("r-2", "g.svg"));
    assert_eq!(spec.announcement(), artifact_announcement("r-2", "g.svg"));
}

#[test]
fn standard_capture_is_the_standard_script() {
    let spec = CaptureSpec::standard();
    assert_eq!(spec.filename, "diem-node-perf.svg");
    assert_eq!(spec.run_id, "ct-0-cluster-test-circleci-1636057");
    assert_eq!(spec.duration_secs, 60);
    assert_eq!(spec.command(), STANDARD_SCRIPT);
}
