//! Measuring what one more OS thread costs a process in memory.
//!
//! A measurement samples the process-wide virtual and resident memory before
//! any worker exists, again while every worker is parked at a rendezvous
//! barrier, and a last time once every worker has been joined. The growth
//! since the first sample, divided by the number of workers, is the estimate
//! per thread.
//!
//! - [`snapshot`]: memory samples and the per-thread difference of two of them.
//! - [`workload`]: what a worker thread runs, and how the barrier is sized.
//! - [`harness`]: the order in which a measurement samples, spawns, waits and
//!   joins, as a state machine that a driver steps through.
//! - [`report`]: the rows of the table in which the estimates are shown.

pub mod harness;
pub mod report;
pub mod snapshot;
pub mod workload;
