//! The polling backoff schedule: a delay that starts at one second,
//! doubles after every non-terminal observation, and is capped at
//! thirty seconds.

use vstd::prelude::*;

verus! {

/// The delay before the first re-poll, in seconds.
pub const INITIAL_POLL_DELAY_SECS: u64 = 1;

/// The ceiling the doubling delay never exceeds, in seconds.
pub const MAX_POLL_DELAY_SECS: u64 = 30;

/// The delay that follows `d` in the schedule: doubled, capped at the ceiling.
pub open spec fn next_delay_spec(d: nat) -> nat {
    if 2 * d <= MAX_POLL_DELAY_SECS { 2 * d } else { MAX_POLL_DELAY_SECS as nat }
}

/// The delay used before the `k`-th re-poll when the schedule starts
/// at `INITIAL_POLL_DELAY_SECS`.
pub open spec fn delay_at(k: nat) -> nat
    decreases k,
{
    if k == 0 {
        INITIAL_POLL_DELAY_SECS as nat
    } else {
        next_delay_spec(delay_at((k - 1) as nat))
    }
}

/// Advance the backoff delay by one step.
pub fn next_delay(d: u64) -> (r: u64)
    requires
        1 <= d <= MAX_POLL_DELAY_SECS,
    ensures
        r == next_delay_spec(d as nat),
        1 <= r <= MAX_POLL_DELAY_SECS,
{
    let doubled = d * 2;
    if doubled <= MAX_POLL_DELAY_SECS {
        doubled
    } else {
        MAX_POLL_DELAY_SECS
    }
}

/// Law: every delay in the schedule stays within `[1, MAX_POLL_DELAY_SECS]`;
/// the cap is never exceeded, and from the sixth observation on the delay
/// sits exactly at the cap.
pub proof fn lemma_backoff_capped(k: nat)
    ensures
        1 <= delay_at(k) <= MAX_POLL_DELAY_SECS,
        k == 1 ==> delay_at(k) == 2,
        k == 2 ==> delay_at(k) == 4,
        k == 3 ==> delay_at(k) == 8,
        k == 4 ==> delay_at(k) == 16,
        k >= 5 ==> delay_at(k) == MAX_POLL_DELAY_SECS,
    decreases k,
{
    if k > 0 {
        lemma_backoff_capped((k - 1) as nat);
    }
}

/// Law: the schedule generated from the initial delay is exactly
/// 1, 2, 4, 8, 16, 30, 30, ... — doubling until the cap takes over.
pub proof fn lemma_backoff_sequence(k: nat)
    ensures
        delay_at(0) == 1,
        delay_at(1) == 2,
        delay_at(2) == 4,
        delay_at(3) == 8,
        delay_at(4) == 16,
        k >= 5 ==> delay_at(k) == MAX_POLL_DELAY_SECS,
{
    lemma_backoff_capped(1);
    lemma_backoff_capped(2);
    lemma_backoff_capped(3);
    lemma_backoff_capped(4);
    lemma_backoff_capped(k);
}

} // verus!
