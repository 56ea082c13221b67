//! Core engine of an interactive terminal dashboard that tracks a website
//! audit performed by an external tool: the lifecycle state machine, the
//! update-message protocol between the background worker and the UI, the
//! navigation model over the result view, and the pure render logic.

pub mod app;
pub mod model;
pub mod render;
pub mod worker;

use vstd::prelude::*;

verus! {

/// Percentage of work done, truncated integer division, with the divisor
/// floored at one and the result clamped to one hundred.
pub open spec fn spec_percent(current: nat, total: nat) -> nat {
    let t: nat = if total < 1 { 1 } else { total };
    let p: nat = current * 100 / t;
    if p > 100 {
        100
    } else {
        p
    }
}

/// Progress percentage of `current` steps out of `total`: `current*100/total`
/// truncated, guarding against a zero `total` and clamping to `[0, 100]`.
pub fn progress_percent(current: usize, total: usize) -> (r: usize)
    ensures
        r == spec_percent(current as nat, total as nat),
        r <= 100,
{
    let t: u128 = if total < 1 {
        1
    } else {
        total as u128
    };
    let p: u128 = (current as u128) * 100 / t;
    if p > 100 {
        100
    } else {
        p as usize
    }
}

/// Whenever `1 <= total` and `current <= total`, the percentage is exactly
/// `current*100/total` with no clamping, and lies in `[0, 100]`.
pub proof fn lemma_percent_exact_in_range(current: nat, total: nat)
    requires
        1 <= total,
        current <= total,
    ensures
        spec_percent(current, total) == current * 100 / total,
        spec_percent(current, total) <= 100,
{
    assert(current * 100 <= total * 100) by (nonlinear_arith)
        requires
            current <= total,
    ;
    assert(total * 100 / total == 100) by (nonlinear_arith)
        requires
            1 <= total,
    ;
    assert(current * 100 / total <= total * 100 / total) by (nonlinear_arith)
        requires
            current * 100 <= total * 100,
            1 <= total,
    ;
}

} // verus!
