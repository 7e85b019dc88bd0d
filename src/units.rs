//! Plain integer quantities shared by the camera and the shape layers.
//!
//! World coordinates are fixed-point numbers: a world unit is `WORLD_ONE`
//! steps. Scale factors are fixed-point numbers with `SCALE_ONE` steps per
//! unit. Window positions and sizes are whole pixels.
use vstd::prelude::*;

verus! {

/// Fixed-point steps per world unit.
pub const WORLD_ONE: i64 = 1_000_000;

/// Fixed-point steps per unit of zoom scale.
pub const SCALE_ONE: u64 = 1_000_000_000;

/// A pointer position in window pixels, origin at the upper-left corner.
#[derive(Clone, Copy, Debug, PartialEq, Eq)]
pub struct PixelPosition {
    pub x: i32,
    pub y: i32,
}

/// The inner size of the window in pixels.
#[derive(Clone, Copy, Debug, PartialEq, Eq)]
pub struct WindowSize {
    pub width: u32,
    pub height: u32,
}

/// A point of the world plane in fixed-point steps (see `WORLD_ONE`).
#[derive(Clone, Copy, Debug, PartialEq, Eq)]
pub struct WorldPoint {
    pub x: i64,
    pub y: i64,
}

/// The exact rational number `num / den`; well formed when `den > 0`.
#[derive(Clone, Copy, Debug, PartialEq, Eq)]
pub struct Fraction {
    pub num: i128,
    pub den: i128,
}

impl Fraction {
    pub open spec fn wf(self) -> bool {
        self.den > 0
    }

    pub open spec fn pair(self) -> (int, int) {
        (self.num as int, self.den as int)
    }

    /// `-1 <= self <= 1`.
    pub open spec fn in_unit_range(self) -> bool {
        -self.den <= self.num <= self.den
    }

    /// Tells whether the value lies in `[-1, 1]`.
    pub fn within_unit(&self) -> (r: bool)
        requires
            self.wf(),
        ensures
            r == self.in_unit_range(),
    {
        -self.den <= self.num && self.num <= self.den
    }
}

/// `a * p + b` for rationals given as (numerator, denominator): the image of
/// `p` under the one-dimensional affine map with slope `a` and offset `b`,
/// unreduced.
pub open spec fn affine_apply(a: (int, int), b: (int, int), p: (int, int)) -> (int, int) {
    (a.0 * p.0 * b.1 + b.0 * a.1 * p.1, a.1 * p.1 * b.1)
}

/// `a / b` rounded toward zero, for `b > 0`.
pub open spec fn trunc_div(a: int, b: int) -> int {
    if a >= 0 {
        a / b
    } else {
        -((-a) / b)
    }
}

/// `a / b` rounded toward zero.
pub fn trunc_div_exec(a: i128, b: i128) -> (r: i128)
    requires
        b > 0,
        a > i128::MIN,
    ensures
        r == trunc_div(a as int, b as int),
        a >= 0 ==> 0 <= r <= a,
        a < 0 ==> a <= r <= 0,
{
    let m: u128 = if a >= 0 {
        a as u128
    } else {
        (-a) as u128
    };
    let q: u128 = m / (b as u128);
    assert(q <= m) by (nonlinear_arith)
        requires
            q == m / (b as u128),
            b >= 1,
    ;
    if a >= 0 {
        q as i128
    } else {
        -(q as i128)
    }
}

/// `v` held within the range of `i64`.
pub open spec fn clamp_i64(v: int) -> int {
    clamp(v, i64::MIN as int, i64::MAX as int)
}

pub fn clamp_i64_exec(v: i128) -> (r: i64)
    ensures
        r == clamp_i64(v as int),
{
    if v < i64::MIN as i128 {
        i64::MIN
    } else if v > i64::MAX as i128 {
        i64::MAX
    } else {
        v as i64
    }
}

/// `v` held within `[lo, hi]`.
pub open spec fn clamp(v: int, lo: int, hi: int) -> int {
    if v < lo {
        lo
    } else if v > hi {
        hi
    } else {
        v
    }
}

} // verus!
