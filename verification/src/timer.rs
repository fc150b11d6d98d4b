//! The time since a moment that the user can set anew.

use vstd::prelude::*;

verus! {

/// Milliseconds in a second.
pub const TICKS_PER_SECOND: u32 = 1000;

/// Whole seconds between two readings of a millisecond counter.
pub fn seconds_since(start_time: u32, now: u32) -> (seconds: u32)
    requires
        start_time <= now,
    ensures
        seconds == (now - start_time) / 1000,
{
    (now - start_time) / TICKS_PER_SECOND
}

/// Whole seconds in a number of milliseconds.
pub fn whole_seconds(ticks: u32) -> (seconds: u32)
    ensures
        seconds == ticks / 1000,
{
    ticks / TICKS_PER_SECOND
}

} // verus!
