//! Per-service provider configurations, grouped by the remote service
//! that serves them.

pub mod rcsb;
