//! Exponential backoff with a capped maximum delay.
//!
//! Both the supervisor's restart policy and the client's transport retry
//! policy space their attempts by a base delay that doubles per attempt
//! and never exceeds a fixed cap.

use vstd::prelude::*;

verus! {

/// The delay before attempt number `attempt` (the first attempt is
/// number 0): `base` doubled `attempt` times, saturated at `cap`.
pub open spec fn spec_backoff_delay(base: u64, cap: u64, attempt: nat) -> u64
    decreases attempt,
{
    if attempt == 0 {
        if base < cap {
            base
        } else {
            cap
        }
    } else {
        let prev = spec_backoff_delay(base, cap, (attempt - 1) as nat);
        if prev < cap && 2 * prev < cap {
            (2 * prev) as u64
        } else {
            cap
        }
    }
}

/// The delay never exceeds the cap.
pub proof fn lemma_backoff_delay_le_cap(base: u64, cap: u64, attempt: nat)
    ensures
        spec_backoff_delay(base, cap, attempt) <= cap,
    decreases attempt,
{
    if attempt > 0 {
        lemma_backoff_delay_le_cap(base, cap, (attempt - 1) as nat);
    }
}

/// The delay before the given attempt, computed by repeated doubling
/// saturated at `cap`.
pub fn backoff_delay(base: u64, cap: u64, attempt: u64) -> (r: u64)
    ensures
        r == spec_backoff_delay(base, cap, attempt as nat),
        r <= cap,
{
    proof {
        lemma_backoff_delay_le_cap(base, cap, attempt as nat);
    }
    let mut d: u64 = if base < cap {
        base
    } else {
        cap
    };
    let mut i: u64 = 0;
    while i < attempt
        invariant
            i <= attempt,
            d == spec_backoff_delay(base, cap, i as nat),
            d <= cap,
        decreases attempt - i,
    {
        if d < cap && d < cap - d {
            d = 2 * d;
        } else {
            d = cap;
        }
        i = i + 1;
    }
    d
}

} // verus!
