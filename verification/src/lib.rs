//! Exports S.M.A.R.T. drive statistics, as reported by `smartctl`, in the
//! Prometheus / OpenMetrics text format.
//!
//! The library holds the decisions of the exporter: how `smartctl` is
//! invoked, how its replies are checked, when devices are re-scanned and which
//! metrics are published. The binary around it performs the process, file,
//! clock and network work.

pub mod text;
pub mod smartctl;
pub mod collector;
pub mod server;
