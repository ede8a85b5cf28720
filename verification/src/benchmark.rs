//! The benchmark as its callers name it.

use crate::config::{standard_config, BenchmarkConfig};
use crate::model::{initial_run, run_consistent, BENCHMARK_NAME};
use crate::orchestrator::Run;
use vstd::prelude::*;

verus! {

/// The performance benchmark: profile one validator for a minute, then load
/// the whole validator set for four, and report the statistics of the load.
#[derive(Clone, Copy, Debug, PartialEq, Eq, Default)]
pub struct PerformanceBenchmark;

impl PerformanceBenchmark {
    /// The name under which the benchmark reports and logs.
    pub fn name(&self) -> (name: &'static str)
        ensures
            name@ == BENCHMARK_NAME@,
    {
        BENCHMARK_NAME
    }

    /// Starts a run of the benchmark with the standard configuration.
    pub fn start(&self) -> (run: Run)
        ensures
            run@ == initial_run(standard_config()),
            run_consistent(run@),
    {
        Run::new(BenchmarkConfig::standard())
    }
}

} // verus!
