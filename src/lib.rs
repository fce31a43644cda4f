//! Verified core of a small exporter that republishes verification-attempt
//! statistics of a remote provider as three gauges.
pub mod handlers;
pub mod metrics;
pub mod twillo;
