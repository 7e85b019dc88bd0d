//! Zoom levels and the fixed-point scale they stand for.
//!
//! Wheel deltas are counted in thousandths of a wheel unit. A whole wheel
//! unit multiplies the scale by 1.001, a thousandth by 1.001 to the power
//! 1/1000. The scale at a zoom is computed from the zoom alone: first one
//! step of 1.001 per whole unit, then one fine step per leftover thousandth,
//! each rounded to the nearest fixed-point step. So zooming in and back out
//! by the same amount returns exactly the same scale, and two wheels give
//! the scale of one wheel by their sum.
//!
//! The scale is held within `[MIN_SCALE, MAX_SCALE]`: it never reaches
//! zero, and at most it is two million, where a drag of one pixel still
//! moves the center by one world step (see `WORLD_ONE`).
use vstd::prelude::*;
use crate::units::{clamp, SCALE_ONE};

verus! {

/// Numerator of the zoom factor per wheel unit (1.001).
pub const ZOOM_NUM: u64 = 1001;

/// Denominator of the zoom factor per wheel unit.
pub const ZOOM_DEN: u64 = 1000;

/// Numerator of the zoom factor per thousandth of a wheel unit: 1.001 to
/// the power 1/1000 is 1.0000009995008..., taken here to twelve places.
pub const FINE_NUM: u64 = 1_000_000_999_501;

/// Denominator of the zoom factor per thousandth of a wheel unit.
pub const FINE_DEN: u64 = 1_000_000_000_000;

/// Wheel deltas are given in these fractions of a wheel unit.
pub const WHEEL_STEPS: i64 = 1000;

/// Smallest fixed-point scale.
pub const MIN_SCALE: u64 = 1;

/// Largest fixed-point scale: a scale of two million, about 1.001 to the
/// power 14500.
pub const MAX_SCALE: u64 = 2_000_000_000_000_000;

/// The factor of one step, as (numerator, denominator): 1.001 for a whole
/// wheel unit, or its thousandth root for a `fine` step.
pub open spec fn step_factor(fine: bool) -> (int, int) {
    if fine {
        (FINE_NUM as int, FINE_DEN as int)
    } else {
        (ZOOM_NUM as int, ZOOM_DEN as int)
    }
}

/// One zoom step from `s`: times the step factor when `inward`, divided by
/// it otherwise, rounded to nearest and held within the scale bounds.
pub open spec fn zoom_step(s: int, inward: bool, fine: bool) -> int {
    let (n, d) = step_factor(fine);
    if inward {
        clamp((s * n + d / 2) / d, MIN_SCALE as int, MAX_SCALE as int)
    } else {
        clamp((s * d + n / 2) / n, MIN_SCALE as int, MAX_SCALE as int)
    }
}

/// `n` zoom steps from `s`.
pub open spec fn repeat_zoom(s: int, n: nat, inward: bool, fine: bool) -> int
    decreases n,
{
    if n == 0 {
        s
    } else {
        zoom_step(repeat_zoom(s, (n - 1) as nat, inward, fine), inward, fine)
    }
}

/// The fixed-point scale at `k` whole wheel units: 1.001 to the power `k`,
/// one rounded step at a time away from 1.
pub open spec fn zoom_scale(k: int) -> int {
    if k >= 0 {
        repeat_zoom(SCALE_ONE as int, k as nat, true, false)
    } else {
        repeat_zoom(SCALE_ONE as int, (-k) as nat, false, false)
    }
}

/// The whole wheel units in `z` thousandths, rounded toward zero.
pub open spec fn whole_units(z: int) -> int {
    if z >= 0 {
        z / (WHEEL_STEPS as int)
    } else {
        -((-z) / (WHEEL_STEPS as int))
    }
}

/// The thousandths of `z` beyond its whole units, away from zero.
pub open spec fn leftover(z: int) -> nat {
    if z >= 0 {
        (z % (WHEEL_STEPS as int)) as nat
    } else {
        ((-z) % (WHEEL_STEPS as int)) as nat
    }
}

/// The fixed-point scale at a zoom of `z` thousandths of a wheel unit:
/// 1.001 to the power `z / 1000`.
pub open spec fn level_scale(z: int) -> int {
    repeat_zoom(zoom_scale(whole_units(z)), leftover(z), z >= 0, true)
}

/// Scales stay within `[MIN_SCALE, MAX_SCALE]` whatever the number of steps.
proof fn lemma_repeat_zoom_bounds(s: int, n: nat, inward: bool, fine: bool)
    requires
        MIN_SCALE <= s <= MAX_SCALE,
    ensures
        MIN_SCALE <= repeat_zoom(s, n, inward, fine) <= MAX_SCALE,
    decreases n,
{
    if n > 0 {
        lemma_repeat_zoom_bounds(s, (n - 1) as nat, inward, fine);
    }
}

pub proof fn lemma_level_scale_bounds(z: int)
    ensures
        MIN_SCALE <= zoom_scale(whole_units(z)) <= MAX_SCALE,
        MIN_SCALE <= level_scale(z) <= MAX_SCALE,
{
    let k = whole_units(z);
    if k >= 0 {
        lemma_repeat_zoom_bounds(SCALE_ONE as int, k as nat, true, false);
    } else {
        lemma_repeat_zoom_bounds(SCALE_ONE as int, (-k) as nat, false, false);
    }
    lemma_repeat_zoom_bounds(zoom_scale(k), leftover(z), z >= 0, true);
}

/// Once a step leaves the scale as it is, so do all further steps.
proof fn lemma_repeat_zoom_settles(s: int, i: nat, n: nat, inward: bool, fine: bool)
    requires
        i <= n,
        zoom_step(repeat_zoom(s, i, inward, fine), inward, fine) == repeat_zoom(s, i, inward, fine),
    ensures
        repeat_zoom(s, n, inward, fine) == repeat_zoom(s, i, inward, fine),
    decreases n - i,
{
    if i < n {
        lemma_repeat_zoom_settles(s, i, (n - 1) as nat, inward, fine);
    }
}

fn zoom_step_exec(s: u64, inward: bool, fine: bool) -> (r: u64)
    requires
        s <= MAX_SCALE,
    ensures
        r == zoom_step(s as int, inward, fine),
{
    let (n, d): (u128, u128) = if fine {
        (FINE_NUM as u128, FINE_DEN as u128)
    } else {
        (ZOOM_NUM as u128, ZOOM_DEN as u128)
    };
    let t: u128 = if inward {
        ((s as u128) * n + d / 2) / d
    } else {
        ((s as u128) * d + n / 2) / n
    };
    if t < MIN_SCALE as u128 {
        MIN_SCALE
    } else if t > MAX_SCALE as u128 {
        MAX_SCALE
    } else {
        t as u64
    }
}

/// `n` zoom steps from `s`; stops early once a step changes nothing.
fn repeat_zoom_exec(s0: u64, n: u64, inward: bool, fine: bool) -> (r: u64)
    requires
        MIN_SCALE <= s0 <= MAX_SCALE,
    ensures
        r == repeat_zoom(s0 as int, n as nat, inward, fine),
        MIN_SCALE <= r <= MAX_SCALE,
{
    let mut s: u64 = s0;
    let mut i: u64 = 0;
    while i < n
        invariant
            i <= n,
            MIN_SCALE <= s0 <= MAX_SCALE,
            s == repeat_zoom(s0 as int, i as nat, inward, fine),
            MIN_SCALE <= s <= MAX_SCALE,
        decreases n - i,
    {
        proof {
            lemma_repeat_zoom_bounds(s0 as int, (i + 1) as nat, inward, fine);
        }
        let t = zoom_step_exec(s, inward, fine);
        if t == s {
            proof {
                lemma_repeat_zoom_settles(s0 as int, i as nat, n as nat, inward, fine);
            }
            return s;
        }
        s = t;
        i = i + 1;
    }
    s
}

/// Whole wheel units in `z` thousandths, rounded toward zero.
pub fn whole_units_exec(z: i64) -> (r: i64)
    ensures
        r == whole_units(z as int),
{
    if z >= 0 {
        z / WHEEL_STEPS
    } else {
        let m: u128 = (-(z as i128)) as u128;
        -((m / (WHEEL_STEPS as u128)) as i128) as i64
    }
}

/// The fixed-point scale at a zoom of `zoom` thousandths of a wheel unit.
pub fn scale_at_zoom(zoom: i64) -> (r: u64)
    ensures
        r == level_scale(zoom as int),
        MIN_SCALE <= r <= MAX_SCALE,
{
    let k = whole_units_exec(zoom);
    let whole: u64 = if k >= 0 {
        k as u64
    } else {
        (-(k as i128)) as u64
    };
    let base = repeat_zoom_exec(SCALE_ONE, whole, k >= 0, false);
    let rest: u64 = if zoom >= 0 {
        (zoom % WHEEL_STEPS) as u64
    } else {
        (((-(zoom as i128)) as u128) % (WHEEL_STEPS as u128)) as u64
    };
    repeat_zoom_exec(base, rest, zoom >= 0, true)
}

} // verus!
