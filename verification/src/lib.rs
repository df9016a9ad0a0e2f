//! A minimal concurrent HTTP load generator.
//!
//! A total iteration count is split evenly across a fixed number of
//! workers; each worker repeats a single HTTP request for its share and
//! reports its elapsed wall-clock time; the coordinator sums the worker
//! times into an aggregate latency report.
//!
//! This crate holds the verified core: work distribution, the request
//! plan each worker follows, timing arithmetic, and result aggregation.
//! Argument handling, thread spawning and the HTTP client itself live in
//! the unverified binary around it.

pub mod cli;
pub mod load;
pub mod timing;
pub mod worker;
