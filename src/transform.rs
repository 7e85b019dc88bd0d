//! The world-to-device transform of the camera, in exact rational terms,
//! and what it does to points.
use vstd::prelude::*;
use crate::camera::{at_least_one, at_least_one_exec, CameraModel};
use crate::units::{affine_apply, Fraction, PixelPosition, WindowSize, SCALE_ONE, WORLD_ONE};

verus! {

/// The map `x' = a * x + b` on one axis.
#[derive(Clone, Copy, Debug, PartialEq, Eq)]
pub struct AxisMap {
    pub slope: Fraction,
    pub offset: Fraction,
}

/// The world-to-device transform, axis by axis.
#[derive(Clone, Copy, Debug, PartialEq, Eq)]
pub struct Transform2 {
    pub x: AxisMap,
    pub y: AxisMap,
}

/// A point in normalized device coordinates; `[-1, 1]` on both axes is on screen.
#[derive(Clone, Copy, Debug, PartialEq, Eq)]
pub struct NdcPoint {
    pub x: Fraction,
    pub y: Fraction,
}

impl CameraModel {
    /// The center's x coordinate in world units, as (numerator, denominator).
    pub open spec fn center_x_units(self) -> (int, int) {
        (self.center_x, WORLD_ONE as int)
    }

    pub open spec fn center_y_units(self) -> (int, int) {
        (self.center_y, WORLD_ONE as int)
    }

    /// The transform from world units to normalized device coordinates:
    /// `x' = (sx / w) * x - (sx / w) * cx` and `y' = -(sy / h) * y + (sy / h) * cy`,
    /// where the scale is `self.scale / SCALE_ONE`.
    pub open spec fn x_slope(self) -> (int, int) {
        (self.scale, SCALE_ONE * self.width)
    }

    pub open spec fn x_offset(self) -> (int, int) {
        (-(self.scale * self.center_x), SCALE_ONE * WORLD_ONE * self.width)
    }

    pub open spec fn y_slope(self) -> (int, int) {
        (-self.scale, SCALE_ONE * self.height)
    }

    pub open spec fn y_offset(self) -> (int, int) {
        (self.scale * self.center_y, SCALE_ONE * WORLD_ONE * self.height)
    }

    /// Entry `i` of the column-major 4x4 matrix of the transform, acting on
    /// `(x, y, z, 1)`: the translation stands in the last column.
    pub open spec fn matrix_entry(self, i: int) -> (int, int) {
        if i == 0 {
            self.x_slope()
        } else if i == 5 {
            self.y_slope()
        } else if i == 12 {
            self.x_offset()
        } else if i == 13 {
            self.y_offset()
        } else if i == 10 || i == 15 {
            (1, 1)
        } else {
            (0, 1)
        }
    }

    /// The normalized device x coordinate of the world point `x / WORLD_ONE`.
    pub open spec fn ndc_x(self, x: int) -> (int, int) {
        (self.scale * (x - self.center_x), SCALE_ONE * WORLD_ONE * self.width)
    }

    pub open spec fn ndc_y(self, y: int) -> (int, int) {
        (self.scale * (self.center_y - y), SCALE_ONE * WORLD_ONE * self.height)
    }
}

/// The device point under the pixel `p` of a window of `size`: `-1` at the
/// left and bottom edges, `1` at the right and top edges. A zero width or
/// height is taken as 1.
pub fn to_gpu_coordinate(p: PixelPosition, size: WindowSize) -> (r: NdcPoint)
    ensures
        r.x.pair() == (2 * p.x - at_least_one(size.width as int), at_least_one(size.width as int)),
        r.y.pair() == (at_least_one(size.height as int) - 2 * p.y, at_least_one(size.height as int)),
        r.x.wf(),
        r.y.wf(),
{
    let w = at_least_one_exec(size.width) as i128;
    let h = at_least_one_exec(size.height) as i128;
    NdcPoint {
        x: Fraction { num: 2 * (p.x as i128) - w, den: w },
        y: Fraction { num: h - 2 * (p.y as i128), den: h },
    }
}

/// The matrix that maps window pixels, shifted by `(x_offset, y_offset)`
/// pixels, to device coordinates: `x' = 2x / w - 1 + x_offset / w` and
/// `y' = -2y / h + 1 - y_offset / h`, column-major with the translation in
/// the last column. A zero width or height is taken as 1.
pub fn transformation_matrix(width: u32, height: u32, x_offset: i64, y_offset: i64) -> (r: [Fraction; 16])
    ensures
        ({
            let w = at_least_one(width as int);
            let h = at_least_one(height as int);
            forall|i: int| 0 <= i < 16 ==> #[trigger] r@[i].pair() == if i == 0 {
                (2, w)
            } else if i == 5 {
                (-2, h)
            } else if i == 12 {
                (x_offset - w, w)
            } else if i == 13 {
                (h - y_offset, h)
            } else if i == 10 || i == 15 {
                (1int, 1int)
            } else {
                (0int, 1int)
            }
        }),
{
    let w = at_least_one_exec(width) as i128;
    let h = at_least_one_exec(height) as i128;
    let o = Fraction { num: 0, den: 1 };
    let l = Fraction { num: 1, den: 1 };
    [
        Fraction { num: 2, den: w }, o, o, o,
        o, Fraction { num: -2, den: h }, o, o,
        o, o, l, o,
        Fraction { num: x_offset as i128 - w, den: w }, Fraction { num: h - y_offset as i128, den: h }, o, l,
    ]
}

/// With slope `a / n`, offset `-a * c / (n * d)` and the point `x / d`,
/// the image is `a * (x - c) / (n * d)`.
proof fn lemma_axis_image(a: int, c: int, n: int, x: int, d: int)
    ensures
        affine_apply((a, n), (-(a * c), n * d), (x, d)).0 * (n * d) == (a * (x - c))
            * affine_apply((a, n), (-(a * c), n * d), (x, d)).1,
        affine_apply((a, n), (-(a * c), n * d), (c, d)).0 == 0,
{
    assert(a * x * (n * d) + (-(a * c)) * n * d == (n * d) * (a * (x - c))) by (nonlinear_arith);
    assert((n * d) * (a * (x - c)) * (n * d) == (a * (x - c)) * (n * d * (n * d)))
        by (nonlinear_arith);
    assert(a * c * (n * d) + (-(a * c)) * n * d == 0) by (nonlinear_arith);
}

proof fn lemma_units(w: int)
    ensures
        SCALE_ONE * WORLD_ONE * w == (SCALE_ONE * w) * WORLD_ONE,
{
    assert(SCALE_ONE * WORLD_ONE * w == (SCALE_ONE * w) * WORLD_ONE) by (nonlinear_arith);
}

/// `to_ndc` is the transform applied to the point: `ndc_x(x)` and
/// `ndc_y(y)` are the images of `x / WORLD_ONE` and `y / WORLD_ONE`.
pub proof fn lemma_ndc_is_transform(m: CameraModel, x: int, y: int)
    requires
        m.wf(),
    ensures
        m.ndc_x(x).0 * affine_apply(m.x_slope(), m.x_offset(), (x, WORLD_ONE as int)).1
            == affine_apply(m.x_slope(), m.x_offset(), (x, WORLD_ONE as int)).0 * m.ndc_x(x).1,
        m.ndc_y(y).0 * affine_apply(m.y_slope(), m.y_offset(), (y, WORLD_ONE as int)).1
            == affine_apply(m.y_slope(), m.y_offset(), (y, WORLD_ONE as int)).0 * m.ndc_y(y).1,
{
    let d = WORLD_ONE as int;
    lemma_units(m.width);
    lemma_units(m.height);
    lemma_axis_image(m.scale, m.center_x, SCALE_ONE * m.width, x, d);
    lemma_axis_image(-m.scale, m.center_y, SCALE_ONE * m.height, y, d);
    assert(-((-m.scale) * m.center_y) == m.scale * m.center_y) by (nonlinear_arith);
    assert((-m.scale) * (y - m.center_y) == m.scale * (m.center_y - y)) by (nonlinear_arith);
}

/// The transform maps the camera center to the device origin, for every
/// zoom and window size.
pub proof fn lemma_center_maps_to_origin(m: CameraModel)
    requires
        m.wf(),
    ensures
        affine_apply(m.x_slope(), m.x_offset(), m.center_x_units()).0 == 0,
        affine_apply(m.y_slope(), m.y_offset(), m.center_y_units()).0 == 0,
        affine_apply(m.x_slope(), m.x_offset(), m.center_x_units()).1 > 0,
        affine_apply(m.y_slope(), m.y_offset(), m.center_y_units()).1 > 0,
{
    let d = WORLD_ONE as int;
    lemma_units(m.width);
    lemma_units(m.height);
    lemma_axis_image(m.scale, m.center_x, SCALE_ONE * m.width, m.center_x, d);
    lemma_axis_image(-m.scale, m.center_y, SCALE_ONE * m.height, m.center_y, d);
    assert(-((-m.scale) * m.center_y) == m.scale * m.center_y) by (nonlinear_arith);
    let dw = SCALE_ONE * m.width;
    let dh = SCALE_ONE * m.height;
    assert(dw * d * (dw * d) > 0) by (nonlinear_arith)
        requires
            dw > 0,
            d > 0,
    ;
    assert(dh * d * (dh * d) > 0) by (nonlinear_arith)
        requires
            dh > 0,
            d > 0,
    ;
}

} // verus!
