//! Easing functions over fixed-point progress.
//!
//! Progress runs from 0 to `SCALE` (representing 0.0 to 1.0 in
//! thousandths). Each variant maps progress to eased progress; inputs
//! outside the range are clamped. All four variants fix both endpoints
//! and are monotonic non-decreasing.

use vstd::prelude::*;
use vstd::arithmetic::div_mod::lemma_div_is_ordered;

verus! {

/// One unit of normalized progress, in thousandths.
pub const SCALE: i64 = 1000;

/// How interpolation into a keyframe is shaped.
#[derive(Debug, Clone, Copy, PartialEq, Eq, Structural)]
pub enum Easing {
    Linear,
    EaseIn,
    EaseOut,
    EaseInOut,
}

/// Progress clamped into `[0, SCALE]`.
pub open spec fn clamped(t: int) -> int {
    if t < 0 {
        0
    } else if t > SCALE {
        SCALE as int
    } else {
        t
    }
}

/// The eased progress for easing `e` at raw progress `t`.
pub open spec fn eased(e: Easing, t: int) -> int {
    let c = clamped(t);
    match e {
        Easing::Linear => c,
        Easing::EaseIn => c * c / (SCALE as int),
        Easing::EaseOut => SCALE - (SCALE - c) * (SCALE - c) / (SCALE as int),
        Easing::EaseInOut => if c <= SCALE / 2 {
            2 * c * c / (SCALE as int)
        } else {
            SCALE - 2 * (SCALE - c) * (SCALE - c) / (SCALE as int)
        },
    }
}

/// Eased progress stays within `[0, SCALE]`.
pub proof fn lemma_eased_bounds(e: Easing, t: int)
    ensures
        0 <= eased(e, t) <= SCALE,
{
    let c = clamped(t);
    assert(0 <= c <= SCALE);
    assert(0 <= c * c <= SCALE * SCALE) by (nonlinear_arith)
        requires 0 <= c <= SCALE;
    lemma_div_is_ordered(0, c * c, SCALE as int);
    lemma_div_is_ordered(c * c, SCALE * SCALE, SCALE as int);
    let d = SCALE - c;
    assert(0 <= d * d <= SCALE * SCALE) by (nonlinear_arith)
        requires 0 <= d <= SCALE;
    lemma_div_is_ordered(0, d * d, SCALE as int);
    lemma_div_is_ordered(d * d, SCALE * SCALE, SCALE as int);
    if c <= SCALE / 2 {
        assert(0 <= 2 * c * c <= SCALE * SCALE) by (nonlinear_arith)
            requires 0 <= c <= SCALE / 2;
        lemma_div_is_ordered(0, 2 * c * c, SCALE as int);
        lemma_div_is_ordered(2 * c * c, SCALE * SCALE, SCALE as int);
    } else {
        assert(0 <= 2 * d * d <= SCALE * SCALE) by (nonlinear_arith)
            requires 0 <= d < SCALE / 2;
        lemma_div_is_ordered(0, 2 * d * d, SCALE as int);
        lemma_div_is_ordered(2 * d * d, SCALE * SCALE, SCALE as int);
    }
}

/// Every easing maps progress 0 to 0 and progress `SCALE` to `SCALE`
/// (boundary conditions of all four variants).
pub proof fn lemma_eased_endpoints(e: Easing)
    ensures
        eased(e, 0) == 0,
        eased(e, SCALE as int) == SCALE,
{
    assert(clamped(0) == 0);
    assert(clamped(SCALE as int) == SCALE);
    assert(0int * 0 / (SCALE as int) == 0);
    assert(SCALE * SCALE / (SCALE as int) == SCALE);
    assert(2int * 0 * 0 / (SCALE as int) == 0);
    assert(2 * (SCALE - SCALE) * (SCALE - SCALE) / (SCALE as int) == 0);
}

/// Every easing is monotonic non-decreasing.
pub proof fn lemma_eased_monotonic(e: Easing, t1: int, t2: int)
    requires
        t1 <= t2,
    ensures
        eased(e, t1) <= eased(e, t2),
{
    let c1 = clamped(t1);
    let c2 = clamped(t2);
    assert(0 <= c1 <= c2 <= SCALE);
    let d1 = SCALE - c1;
    let d2 = SCALE - c2;
    assert(c1 * c1 <= c2 * c2) by (nonlinear_arith)
        requires 0 <= c1 <= c2;
    lemma_div_is_ordered(c1 * c1, c2 * c2, SCALE as int);
    assert(d2 * d2 <= d1 * d1) by (nonlinear_arith)
        requires 0 <= d2 <= d1;
    lemma_div_is_ordered(d2 * d2, d1 * d1, SCALE as int);
    assert(2 * c1 * c1 <= 2 * c2 * c2) by (nonlinear_arith)
        requires 0 <= c1 <= c2;
    lemma_div_is_ordered(2 * c1 * c1, 2 * c2 * c2, SCALE as int);
    assert(2 * d2 * d2 <= 2 * d1 * d1) by (nonlinear_arith)
        requires 0 <= d2 <= d1;
    lemma_div_is_ordered(2 * d2 * d2, 2 * d1 * d1, SCALE as int);
    if c1 <= SCALE / 2 && c2 > SCALE / 2 {
        // Across the midpoint: the first half tops out at SCALE / 2 and
        // the second half starts there.
        assert(2 * c1 * c1 <= 2 * (SCALE / 2) * (SCALE / 2)) by (nonlinear_arith)
            requires 0 <= c1 <= SCALE / 2;
        lemma_div_is_ordered(2 * c1 * c1, 2 * (SCALE / 2) * (SCALE / 2), SCALE as int);
        assert(2 * d2 * d2 <= 2 * (SCALE / 2) * (SCALE / 2)) by (nonlinear_arith)
            requires 0 <= d2 <= SCALE / 2;
        lemma_div_is_ordered(2 * d2 * d2, 2 * (SCALE / 2) * (SCALE / 2), SCALE as int);
    }
}

/// Applies easing `e` to progress `t`, clamping into `[0, SCALE]`.
pub fn apply(e: Easing, t: i64) -> (r: i64)
    ensures
        r == eased(e, t as int),
        0 <= r <= SCALE,
{
    let c: i64 = if t < 0 {
        0
    } else if t > SCALE {
        SCALE
    } else {
        t
    };
    proof {
        lemma_eased_bounds(e, t as int);
    }
    match e {
        Easing::Linear => c,
        Easing::EaseIn => c * c / SCALE,
        Easing::EaseOut => SCALE - (SCALE - c) * (SCALE - c) / SCALE,
        Easing::EaseInOut => if c <= SCALE / 2 {
            2 * c * c / SCALE
        } else {
            SCALE - 2 * (SCALE - c) * (SCALE - c) / SCALE
        },
    }
}

} // verus!
