//! Verified core of a command watcher that keeps a history of every run.
//!
//! The crate holds the decisions of the watcher: how two output snapshots are
//! compared, what a history record contains, and the scheduler that turns the
//! answers of its host (clock, store, subprocess, event channel) into the next
//! thing to do. All waiting and all input and output are left to the host.

pub mod config;
pub mod diff;
pub mod record;
pub mod timing;
pub mod protocol;
pub mod model;
pub mod scheduler;
pub mod history;
pub mod laws;
