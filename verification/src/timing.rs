//! The two timing disciplines and the pause each one takes between cycles.

use vstd::prelude::*;
use crate::record::Timestamp;

verus! {

/// How the pause between two cycles is chosen.
#[derive(Clone, Copy, Debug, PartialEq, Eq, Structural)]
pub enum Timing {
    /// Pause for the whole interval after every cycle, however long it took.
    FixedDelay,
    /// Pause only for what is left of the interval once the cycle is done.
    Precise,
}

/// Nanoseconds in one millisecond.
pub const NANOS_PER_MILLI: u128 = 1_000_000;

/// How long the scheduler waits before it looks at the suspend gate again.
pub const POLL_TICK_NANOS: u128 = 1_000_000_000;

/// Nanoseconds that passed between two clock readings; negative when the
/// clock was set back in between.
pub open spec fn elapsed_nanos(start: Timestamp, now: Timestamp) -> int {
    now.epoch_nanos() - start.epoch_nanos()
}

/// Pause of the fixed-delay discipline: the whole interval.
pub open spec fn fixed_pause_nanos(interval_ms: u64) -> int {
    interval_ms * NANOS_PER_MILLI
}

/// Pause of the precise discipline: what is left of the interval after
/// `elapsed` nanoseconds, and nothing once the interval is used up.
pub open spec fn precise_pause_nanos(interval_ms: u64, elapsed: int) -> int {
    if elapsed < interval_ms * NANOS_PER_MILLI {
        interval_ms * NANOS_PER_MILLI - elapsed
    } else {
        0
    }
}

/// Measures the time from `start` to `now` in nanoseconds.
pub fn elapsed_between(start: Timestamp, now: Timestamp) -> (elapsed: i128)
    ensures
        elapsed == elapsed_nanos(start, now),
{
    let secs: i128 = now.secs as i128 - start.secs as i128;
    let nanos: i128 = now.nanos as i128 - start.nanos as i128;
    secs * 1_000_000_000 + nanos
}

/// The fixed-delay pause in nanoseconds.
pub fn fixed_pause(interval_ms: u64) -> (nanos: u128)
    ensures
        nanos == fixed_pause_nanos(interval_ms),
{
    interval_ms as u128 * NANOS_PER_MILLI
}

/// The precise pause in nanoseconds: the rest of the interval, never less
/// than nothing.
pub fn precise_pause(interval_ms: u64, elapsed: i128) -> (nanos: u128)
    ensures
        nanos == precise_pause_nanos(interval_ms, elapsed as int),
        elapsed < fixed_pause_nanos(interval_ms) ==> nanos == fixed_pause_nanos(interval_ms) - elapsed,
        elapsed >= fixed_pause_nanos(interval_ms) ==> nanos == 0,
{
    let interval: u128 = interval_ms as u128 * NANOS_PER_MILLI;
    if elapsed < 0 {
        let behind: u128 = (-(elapsed + 1)) as u128 + 1;
        interval + behind
    } else if (elapsed as u128) < interval {
        interval - elapsed as u128
    } else {
        0
    }
}

} // verus!
