//! Progress reporting arithmetic for the render: the percentage shown while
//! workers drain the schedule, and the time-left estimate. Both are exact
//! integer computations; the progress thread only formats what they return.

use vstd::prelude::*;
use vstd::arithmetic::div_mod::{lemma_div_is_ordered, lemma_div_multiples_vanish};
use vstd::arithmetic::mul::lemma_mul_upper_bound;

verus! {

/// The whole-number percentage of pixels done, rounded down.
pub fn percent_done(completed: u64, total: u64) -> (r: u64)
    requires
        0 < total,
        completed <= total,
    ensures
        r == completed as int * 100 / (total as int),
        r <= 100,
{
    proof {
        lemma_div_is_ordered(completed as int * 100, total as int * 100, total as int);
        lemma_div_multiples_vanish(100, total as int);
    }
    let r = (completed as u128) * 100 / (total as u128);
    r as u64
}

/// The exact time-left estimate, in seconds: the elapsed milliseconds scaled
/// by the ratio of remaining to completed pixels, then brought to seconds,
/// rounding down.
pub open spec fn eta_spec(elapsed_ms: int, completed: int, total: int) -> int {
    elapsed_ms * (total - completed) / completed / 1000
}

/// The estimated seconds left: [`eta_spec`], saturated at `u64::MAX`.
pub fn eta_seconds(elapsed_ms: u64, completed: u64, total: u64) -> (r: u64)
    requires
        1 <= completed,
        completed <= total,
    ensures
        r == if eta_spec(elapsed_ms as int, completed as int, total as int) <= u64::MAX {
            eta_spec(elapsed_ms as int, completed as int, total as int)
        } else {
            u64::MAX as int
        },
{
    proof {
        lemma_mul_upper_bound(
            elapsed_ms as int,
            u64::MAX as int,
            (total - completed) as int,
            u64::MAX as int,
        );
    }
    let scaled = (elapsed_ms as u128) * ((total - completed) as u128);
    let q = scaled / (completed as u128) / 1000;
    if q > u64::MAX as u128 {
        u64::MAX
    } else {
        q as u64
    }
}

} // verus!
