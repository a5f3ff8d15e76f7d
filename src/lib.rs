//! A benchmark of ways to watch a directory that grows while it is watched.
//!
//! The library holds the decisions of the benchmark, each as a state machine
//! whose steps are verified: when a strategy has seen enough, what the
//! producer of files does next, how observations are kept in time order,
//! whether the benchmark may start, and what it reports.
pub mod decimal;
pub mod producer;
pub mod report;
pub mod startup;
pub mod tally;
pub mod timeline;
