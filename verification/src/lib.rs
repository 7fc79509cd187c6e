//! Storage capacity and utilization metrics for a fleet of managed database
//! instances.
//!
//! The crate holds the decision logic of a pull-based metrics exporter: it
//! classifies volumes by storage class, derives per-class throughput
//! ceilings, interprets the provider's describe/telemetry responses, joins
//! the four per-instance fetch results into one atomic set of gauge values,
//! and applies such sets to an in-process gauge registry with per-instance
//! failure isolation. The surrounding process (HTTP trigger, remote calls,
//! exposition encoding) hands this crate plain values and takes plain
//! values back.

pub mod config;
pub mod constants;
pub mod limits;
pub mod rds_metric;
pub mod registry;
