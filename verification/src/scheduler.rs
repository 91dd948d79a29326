//! Waiting for a planned instant in bounded slices.
//!
//! Instants and durations are whole nanoseconds on a monotonic clock.

use vstd::prelude::*;

verus! {

/// Length of one sleep slice while the planned instant is still far away.
pub const SLICE_NANOS: u64 = 100_000_000;

/// A remaining time below this is slept in one piece.
pub const THRESHOLD_NANOS: u64 = 150_000_000;

/// What the waiter does after one look at the clock and the cancellation flag.
#[derive(Clone, Copy, Debug, PartialEq, Eq, Structural)]
pub enum Wait {
    /// The cancellation flag was set: give up waiting.
    Cancelled,
    /// The planned instant has been reached.
    Fire,
    /// Sleep for this many nanoseconds, then look again.
    Sleep(u64),
}

/// The decision for a planned instant `until`, a clock reading `now` and the
/// state of the cancellation flag.
pub open spec fn wait_decision(until: int, now: int, cancelled: bool) -> Wait {
    if cancelled {
        Wait::Cancelled
    } else if now >= until {
        Wait::Fire
    } else if until - now >= THRESHOLD_NANOS {
        Wait::Sleep(SLICE_NANOS)
    } else {
        Wait::Sleep((until - now) as u64)
    }
}

/// One round of waiting for `until`: cancellation is looked at first, then
/// the clock; a sleep never passes the planned instant.
pub fn sleep_until(until: u128, now: u64, cancelled: bool) -> (w: Wait)
    ensures
        w == wait_decision(until as int, now as int, cancelled),
        w matches Wait::Sleep(nap) ==> 0 < nap < THRESHOLD_NANOS && now + nap <= until,
{
    if cancelled {
        return Wait::Cancelled;
    }
    let now_wide: u128 = now as u128;
    if now_wide >= until {
        return Wait::Fire;
    }
    let remaining: u128 = until - now_wide;
    if remaining >= THRESHOLD_NANOS as u128 {
        Wait::Sleep(SLICE_NANOS)
    } else {
        Wait::Sleep(remaining as u64)
    }
}

/// A cancellation requested at `asked`, while a sleep that began at `slept`
/// is under way for a planned instant more than 200 ms after `asked`, is
/// seen at most one slice after `asked`: the sleep under way is one slice
/// long, so it ends by `asked` plus one slice, and the look that follows it
/// gives up whatever the clock says.
pub proof fn cancellation_is_seen_within_one_slice(until: int, slept: int, asked: int, woke: int)
    requires
        0 <= slept <= asked,
        until > asked + 2 * SLICE_NANOS,
    ensures
        wait_decision(until, slept, false) == Wait::Sleep(SLICE_NANOS),
        slept + SLICE_NANOS <= asked + SLICE_NANOS,
        wait_decision(until, woke, true) == Wait::Cancelled,
{
}

} // verus!
