//! Shape instances and the layers that hold them, one layer per shape kind.
//!
//! Coordinates, radii and widths are world fixed-point values (see
//! `WORLD_ONE`); color channels run from 0 to `COLOR_ONE`, full intensity.
use vstd::prelude::*;
use crate::layout::{fields_components, VertexFormat};
use crate::units::{Fraction, WorldPoint, WORLD_ONE};

verus! {

/// Full intensity of a color channel.
pub const COLOR_ONE: u16 = 65535;

#[derive(Clone, Copy, Debug, PartialEq, Eq)]
pub struct Rgba {
    pub r: u16,
    pub g: u16,
    pub b: u16,
    pub a: u16,
}

#[derive(Clone, Copy, Debug, PartialEq, Eq)]
pub struct Circle {
    pub position: WorldPoint,
    pub radius: u64,
    pub color: Rgba,
}

#[derive(Clone, Copy, Debug, PartialEq, Eq)]
pub struct Rectangle {
    pub upper_left: WorldPoint,
    pub bottom_right: WorldPoint,
    pub color: Rgba,
}

#[derive(Clone, Copy, Debug, PartialEq, Eq)]
pub struct Line {
    pub start: WorldPoint,
    pub end: WorldPoint,
    pub color: Rgba,
    pub width: u64,
}

#[derive(Clone, Copy, Debug, PartialEq, Eq)]
pub enum ShapeKind {
    Circle,
    Rectangle,
    Line,
}

/// The attribute fields of one instance of `kind`: geometry, then color,
/// then the extra scalar (radius of a circle, width of a line).
pub open spec fn kind_fields(kind: ShapeKind) -> Seq<VertexFormat> {
    match kind {
        ShapeKind::Circle => seq![VertexFormat::Float32x2, VertexFormat::Float32x4, VertexFormat::Float32],
        ShapeKind::Rectangle => seq![
            VertexFormat::Float32x2,
            VertexFormat::Float32x2,
            VertexFormat::Float32x4,
        ],
        ShapeKind::Line => seq![
            VertexFormat::Float32x2,
            VertexFormat::Float32x2,
            VertexFormat::Float32x4,
            VertexFormat::Float32,
        ],
    }
}

impl ShapeKind {
    /// The attribute fields of one instance of this kind.
    pub fn fields(&self) -> (r: Vec<VertexFormat>)
        ensures
            r@ == kind_fields(*self),
    {
        match self {
            ShapeKind::Circle => vec![VertexFormat::Float32x2, VertexFormat::Float32x4, VertexFormat::Float32],
            ShapeKind::Rectangle => vec![
                VertexFormat::Float32x2,
                VertexFormat::Float32x2,
                VertexFormat::Float32x4,
            ],
            ShapeKind::Line => vec![
                VertexFormat::Float32x2,
                VertexFormat::Float32x2,
                VertexFormat::Float32x4,
                VertexFormat::Float32,
            ],
        }
    }
}

/// A world coordinate as a rational number of world units.
pub open spec fn coord(v: int) -> (int, int) {
    (v, WORLD_ONE as int)
}

pub open spec fn color_record(c: Rgba) -> Seq<(int, int)> {
    seq![
        (c.r as int, COLOR_ONE as int),
        (c.g as int, COLOR_ONE as int),
        (c.b as int, COLOR_ONE as int),
        (c.a as int, COLOR_ONE as int),
    ]
}

pub open spec fn circle_record(c: Circle) -> Seq<(int, int)> {
    seq![coord(c.position.x as int), coord(c.position.y as int)] + color_record(c.color) + seq![
        coord(c.radius as int),
    ]
}

pub open spec fn rectangle_record(r: Rectangle) -> Seq<(int, int)> {
    seq![
        coord(r.upper_left.x as int),
        coord(r.upper_left.y as int),
        coord(r.bottom_right.x as int),
        coord(r.bottom_right.y as int),
    ] + color_record(r.color)
}

pub open spec fn line_record(l: Line) -> Seq<(int, int)> {
    seq![
        coord(l.start.x as int),
        coord(l.start.y as int),
        coord(l.end.x as int),
        coord(l.end.y as int),
    ] + color_record(l.color) + seq![coord(l.width as int)]
}

/// The values of a sequence of fractions.
pub open spec fn pairs(s: Seq<Fraction>) -> Seq<(int, int)> {
    s.map_values(|f: Fraction| f.pair())
}

proof fn lemma_pairs_push(s: Seq<Fraction>, f: Fraction)
    ensures
        pairs(s.push(f)) == pairs(s).push(f.pair()),
{
    assert(pairs(s.push(f)) =~= pairs(s).push(f.pair()));
}

fn push_length(out: &mut Vec<Fraction>, v: u64)
    ensures
        pairs(final(out)@) == pairs(old(out)@).push(coord(v as int)),
{
    proof {
        lemma_pairs_push(old(out)@, Fraction { num: v as i128, den: WORLD_ONE as i128 });
    }
    out.push(Fraction { num: v as i128, den: WORLD_ONE as i128 });
}

fn push_coord(out: &mut Vec<Fraction>, v: i64)
    ensures
        pairs(final(out)@) == pairs(old(out)@).push(coord(v as int)),
{
    proof {
        lemma_pairs_push(old(out)@, Fraction { num: v as i128, den: WORLD_ONE as i128 });
    }
    out.push(Fraction { num: v as i128, den: WORLD_ONE as i128 });
}

fn push_color(out: &mut Vec<Fraction>, c: Rgba)
    ensures
        pairs(final(out)@) == pairs(old(out)@) + color_record(c),
{
    let ghost start = pairs(out@);
    proof {
        lemma_pairs_push(out@, Fraction { num: c.r as i128, den: COLOR_ONE as i128 });
    }
    out.push(Fraction { num: c.r as i128, den: COLOR_ONE as i128 });
    proof {
        lemma_pairs_push(out@, Fraction { num: c.g as i128, den: COLOR_ONE as i128 });
    }
    out.push(Fraction { num: c.g as i128, den: COLOR_ONE as i128 });
    proof {
        lemma_pairs_push(out@, Fraction { num: c.b as i128, den: COLOR_ONE as i128 });
    }
    out.push(Fraction { num: c.b as i128, den: COLOR_ONE as i128 });
    proof {
        lemma_pairs_push(out@, Fraction { num: c.a as i128, den: COLOR_ONE as i128 });
    }
    out.push(Fraction { num: c.a as i128, den: COLOR_ONE as i128 });
    assert(pairs(out@) =~= start + color_record(c));
}

impl Circle {
    /// Appends this circle's attribute record.
    pub fn push_record(&self, out: &mut Vec<Fraction>)
        ensures
            pairs(final(out)@) == pairs(old(out)@) + circle_record(*self),
    {
        let ghost start = pairs(out@);
        push_coord(out, self.position.x);
        push_coord(out, self.position.y);
        push_color(out, self.color);
        push_length(out, self.radius);
        assert(pairs(out@) =~= start + circle_record(*self));
    }
}

impl Rectangle {
    /// Appends this rectangle's attribute record.
    pub fn push_record(&self, out: &mut Vec<Fraction>)
        ensures
            pairs(final(out)@) == pairs(old(out)@) + rectangle_record(*self),
    {
        let ghost start = pairs(out@);
        push_coord(out, self.upper_left.x);
        push_coord(out, self.upper_left.y);
        push_coord(out, self.bottom_right.x);
        push_coord(out, self.bottom_right.y);
        push_color(out, self.color);
        assert(pairs(out@) =~= start + rectangle_record(*self));
    }
}

impl Line {
    /// Appends this line's attribute record.
    pub fn push_record(&self, out: &mut Vec<Fraction>)
        ensures
            pairs(final(out)@) == pairs(old(out)@) + line_record(*self),
    {
        let ghost start = pairs(out@);
        push_coord(out, self.start.x);
        push_coord(out, self.start.y);
        push_coord(out, self.end.x);
        push_coord(out, self.end.y);
        push_color(out, self.color);
        push_length(out, self.width);
        assert(pairs(out@) =~= start + line_record(*self));
    }
}

/// The number of scalars in one record of `kind`.
pub open spec fn record_len(kind: ShapeKind) -> int {
    match kind {
        ShapeKind::Circle => 7,
        ShapeKind::Rectangle => 8,
        ShapeKind::Line => 9,
    }
}

/// The records of the first `n` instances hold `n` records' worth of scalars.
pub proof fn lemma_records_len(layer: Layer, n: nat)
    requires
        n <= layer.len_spec(),
    ensures
        layer.records(n).len() == n * record_len(layer.kind_spec()),
    decreases n,
{
    if n > 0 {
        lemma_records_len(layer, (n - 1) as nat);
        assert(layer.record(n - 1).len() == record_len(layer.kind_spec()));
        assert((n - 1) * record_len(layer.kind_spec()) + record_len(layer.kind_spec()) == n
            * record_len(layer.kind_spec())) by (nonlinear_arith);
    }
}

/// A record holds one scalar per component of its kind's fields.
pub proof fn lemma_record_len_matches_fields(kind: ShapeKind)
    ensures
        record_len(kind) == fields_components(kind_fields(kind)),
{
    reveal_with_fuel(fields_components, 5);
    let fs = kind_fields(kind);
    match kind {
        ShapeKind::Circle => {
            assert(fs.drop_last() =~= seq![VertexFormat::Float32x2, VertexFormat::Float32x4]);
            assert(fs.drop_last().drop_last() =~= seq![VertexFormat::Float32x2]);
            assert(fs.drop_last().drop_last().drop_last() =~= Seq::<VertexFormat>::empty());
        },
        ShapeKind::Rectangle => {
            assert(fs.drop_last() =~= seq![VertexFormat::Float32x2, VertexFormat::Float32x2]);
            assert(fs.drop_last().drop_last() =~= seq![VertexFormat::Float32x2]);
            assert(fs.drop_last().drop_last().drop_last() =~= Seq::<VertexFormat>::empty());
        },
        ShapeKind::Line => {
            assert(fs.drop_last() =~= seq![
                VertexFormat::Float32x2,
                VertexFormat::Float32x2,
                VertexFormat::Float32x4,
            ]);
            assert(fs.drop_last().drop_last() =~= seq![VertexFormat::Float32x2, VertexFormat::Float32x2]);
            assert(fs.drop_last().drop_last().drop_last() =~= seq![VertexFormat::Float32x2]);
            assert(fs.drop_last().drop_last().drop_last().drop_last() =~= Seq::<VertexFormat>::empty());
        },
    }
}

/// An axis-aligned box of world fixed-point coordinates.
#[derive(Clone, Copy, Debug, PartialEq, Eq)]
pub struct Bounds {
    pub min_x: i128,
    pub min_y: i128,
    pub max_x: i128,
    pub max_y: i128,
}

pub open spec fn min(a: int, b: int) -> int {
    if a <= b {
        a
    } else {
        b
    }
}

pub open spec fn max(a: int, b: int) -> int {
    if a >= b {
        a
    } else {
        b
    }
}

impl Bounds {
    pub open spec fn is(self, min_x: int, min_y: int, max_x: int, max_y: int) -> bool {
        self.min_x == min_x && self.min_y == min_y && self.max_x == max_x && self.max_y == max_y
    }
}

fn min_i128(a: i128, b: i128) -> (r: i128)
    ensures
        r == min(a as int, b as int),
{
    if a <= b {
        a
    } else {
        b
    }
}

fn max_i128(a: i128, b: i128) -> (r: i128)
    ensures
        r == max(a as int, b as int),
{
    if a >= b {
        a
    } else {
        b
    }
}

impl Circle {
    /// The smallest box holding the disc.
    pub fn bounds(&self) -> (r: Bounds)
        ensures
            r.is(
                self.position.x - self.radius,
                self.position.y - self.radius,
                self.position.x + self.radius,
                self.position.y + self.radius,
            ),
    {
        let x = self.position.x as i128;
        let y = self.position.y as i128;
        let rad = self.radius as i128;
        Bounds { min_x: x - rad, min_y: y - rad, max_x: x + rad, max_y: y + rad }
    }
}

impl Rectangle {
    /// The box spanned by the two corners.
    pub fn bounds(&self) -> (r: Bounds)
        ensures
            r.is(
                min(self.upper_left.x as int, self.bottom_right.x as int),
                min(self.upper_left.y as int, self.bottom_right.y as int),
                max(self.upper_left.x as int, self.bottom_right.x as int),
                max(self.upper_left.y as int, self.bottom_right.y as int),
            ),
    {
        let (ax, ay) = (self.upper_left.x as i128, self.upper_left.y as i128);
        let (bx, by) = (self.bottom_right.x as i128, self.bottom_right.y as i128);
        Bounds { min_x: min_i128(ax, bx), min_y: min_i128(ay, by), max_x: max_i128(ax, bx), max_y: max_i128(ay, by) }
    }
}

impl Line {
    /// The box spanned by the end points, widened by half the stroke width
    /// (rounded up) on every side.
    pub fn bounds(&self) -> (r: Bounds)
        ensures
            r.is(
                min(self.start.x as int, self.end.x as int) - (self.width + 1) / 2,
                min(self.start.y as int, self.end.y as int) - (self.width + 1) / 2,
                max(self.start.x as int, self.end.x as int) + (self.width + 1) / 2,
                max(self.start.y as int, self.end.y as int) + (self.width + 1) / 2,
            ),
    {
        let (ax, ay) = (self.start.x as i128, self.start.y as i128);
        let (bx, by) = (self.end.x as i128, self.end.y as i128);
        let h = (self.width as i128 + 1) / 2;
        Bounds {
            min_x: min_i128(ax, bx) - h,
            min_y: min_i128(ay, by) - h,
            max_x: max_i128(ax, bx) + h,
            max_y: max_i128(ay, by) + h,
        }
    }
}

pub struct CirclesLayer {
    pub data: Vec<Circle>,
}

pub struct RectanglesLayer {
    pub data: Vec<Rectangle>,
}

pub struct LinesLayer {
    pub data: Vec<Line>,
}

impl CirclesLayer {
    pub fn new(data: Vec<Circle>) -> (r: Self)
        ensures
            r.data@ == data@,
    {
        CirclesLayer { data }
    }
}

impl RectanglesLayer {
    pub fn new(data: Vec<Rectangle>) -> (r: Self)
        ensures
            r.data@ == data@,
    {
        RectanglesLayer { data }
    }
}

impl LinesLayer {
    pub fn new(data: Vec<Line>) -> (r: Self)
        ensures
            r.data@ == data@,
    {
        LinesLayer { data }
    }
}

/// One homogeneous group of shape instances.
pub enum Layer {
    Circles(CirclesLayer),
    Rectangles(RectanglesLayer),
    Lines(LinesLayer),
}

impl Layer {
    pub open spec fn kind_spec(&self) -> ShapeKind {
        match self {
            Layer::Circles(_) => ShapeKind::Circle,
            Layer::Rectangles(_) => ShapeKind::Rectangle,
            Layer::Lines(_) => ShapeKind::Line,
        }
    }

    pub open spec fn len_spec(&self) -> int {
        match self {
            Layer::Circles(l) => l.data@.len() as int,
            Layer::Rectangles(l) => l.data@.len() as int,
            Layer::Lines(l) => l.data@.len() as int,
        }
    }

    /// The record of instance `i`.
    pub open spec fn record(&self, i: int) -> Seq<(int, int)> {
        match self {
            Layer::Circles(l) => circle_record(l.data@[i]),
            Layer::Rectangles(l) => rectangle_record(l.data@[i]),
            Layer::Lines(l) => line_record(l.data@[i]),
        }
    }

    /// The records of the first `n` instances, in order.
    pub open spec fn records(&self, n: nat) -> Seq<(int, int)>
        decreases n,
    {
        if n == 0 {
            Seq::empty()
        } else {
            self.records((n - 1) as nat) + self.record(n - 1)
        }
    }

    pub fn kind(&self) -> (r: ShapeKind)
        ensures
            r == self.kind_spec(),
    {
        match self {
            Layer::Circles(_) => ShapeKind::Circle,
            Layer::Rectangles(_) => ShapeKind::Rectangle,
            Layer::Lines(_) => ShapeKind::Line,
        }
    }

    /// The number of instances.
    pub fn len(&self) -> (r: usize)
        ensures
            r == self.len_spec(),
    {
        match self {
            Layer::Circles(l) => l.data.len(),
            Layer::Rectangles(l) => l.data.len(),
            Layer::Lines(l) => l.data.len(),
        }
    }

    /// The contents of the instance buffer: every instance's record, in
    /// order, each scalar as an exact fraction.
    pub fn instance_data(&self) -> (r: Vec<Fraction>)
        ensures
            pairs(r@) == self.records(self.len_spec() as nat),
    {
        let n = self.len();
        let mut out: Vec<Fraction> = Vec::new();
        let mut i: usize = 0;
        assert(pairs(out@) =~= self.records(0));
        while i < n
            invariant
                n == self.len_spec(),
                i <= n,
                pairs(out@) == self.records(i as nat),
            decreases n - i,
        {
            match self {
                Layer::Circles(l) => l.data[i].push_record(&mut out),
                Layer::Rectangles(l) => l.data[i].push_record(&mut out),
                Layer::Lines(l) => l.data[i].push_record(&mut out),
            }
            i = i + 1;
        }
        out
    }
}

} // verus!
