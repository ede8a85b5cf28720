//! Decision logic of a performance benchmark that profiles one validator of a
//! running network and then drives load against the whole validator set.
//!
//! The crate holds what the benchmark decides: how a duration is written into
//! the capture script, which node is profiled, which time windows are valid,
//! and in which order the phases of a run follow each other. Talking to the
//! cluster, sleeping and generating load are left to the caller, which feeds
//! the outcomes back as events.

pub mod benchmark;
pub mod command;
pub mod config;
pub mod decimal;
pub mod failure;
pub mod history;
pub mod model;
pub mod orchestrator;
pub mod phase;
pub mod target;
pub mod windows;

pub use benchmark::PerformanceBenchmark;
pub use command::generate_perf_flamegraph_command;
