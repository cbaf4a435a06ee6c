//! What a watcher is started with, and the interval that governs a pause.

use vstd::prelude::*;

verus! {

/// What the watcher is started with: the command, an optional shell to run
/// it in (program and extra arguments), and the interval in milliseconds.
/// Only the interval can change while the watcher runs.
#[derive(Clone, Debug, PartialEq, Eq)]
pub struct RuntimeConfig {
    pub command: Vec<String>,
    pub shell: Option<(String, Vec<String>)>,
    pub interval_ms: u64,
}

/// The interval that governs the coming pause: the store's live override
/// when there is one, else the interval the watcher was started with.
pub open spec fn effective_interval_ms(live: Option<u64>, configured: u64) -> u64 {
    match live {
        Some(ms) => ms,
        None => configured,
    }
}

/// Picks the interval for the coming pause.
pub fn effective_interval(live: Option<u64>, configured: u64) -> (ms: u64)
    ensures
        ms == effective_interval_ms(live, configured),
        live is Some ==> ms == live->0,
        live is None ==> ms == configured,
{
    match live {
        Some(ms) => ms,
        None => configured,
    }
}

} // verus!
