//! Supervisor library for health-check pings around a child command.
//!
//! The crate verifies the logic of a cron-style supervisor: a validating
//! job-identifier type, the URL and retry policy of the reporter that pings
//! a health-check HTTP service, the line-buffered tee that copies a child's
//! output to a sink while retaining a bounded tail, and the composition of
//! the terminal status report.

pub mod num;
pub mod protocol;
pub mod report;
pub mod supervisor;
pub mod tee;
pub mod uuid;
