//! The viewport transform: camera center, zoom and drag state, driven by
//! pointer and wheel input.
//!
//! The center is a world point in fixed-point steps; zooming never moves
//! it. A drag is measured from where the pointer was when the drag began
//! (or when the scale last changed during it), so where it ends depends on
//! the first and last pointer positions only, whatever the moves between.
//!
//! Conventions: dragging moves the world with the pointer, so the center
//! moves by `-2 * (p' - p) / scale` world units on both axes; world `y`
//! grows down the screen, as window pixels do, because the transform turns
//! the vertical axis over. Zooming keeps the center fixed; it does not
//! follow the cursor.
use vstd::prelude::*;
use crate::transform::{AxisMap, NdcPoint, Transform2};
use crate::units::{
    clamp_i64, clamp_i64_exec, trunc_div, trunc_div_exec, Fraction, PixelPosition, WindowSize,
    WorldPoint, SCALE_ONE, WORLD_ONE,
};
use crate::zoom::{
    level_scale, scale_at_zoom, MAX_SCALE, MIN_SCALE,
};

verus! {

#[derive(Clone, Copy, Debug, PartialEq, Eq)]
pub enum PointerButton {
    Left,
    Right,
    Middle,
    Other,
}

/// Where a drag with the left button stands.
#[derive(Clone, Copy, Debug, PartialEq, Eq)]
pub enum DragState {
    Idle,
    PointerDown,
    /// Dragging; the pointer was last seen at this position.
    DraggedFrom(PixelPosition),
}

/// Pointer input that the camera reacts to.
#[derive(Clone, Copy, Debug, PartialEq, Eq)]
pub enum InputEvent {
    PointerPressed(PointerButton),
    PointerReleased(PointerButton),
    PointerMoved(PixelPosition),
    /// A vertical wheel scroll, in thousandths of a wheel unit.
    Wheel(i64),
}

#[derive(Clone, Copy, Debug, PartialEq, Eq)]
pub enum CursorShape {
    Arrow,
    Grabbing,
}

/// What the window should do after an input event.
#[derive(Clone, Copy, Debug, PartialEq, Eq)]
pub struct InputResponse {
    /// The camera took the event.
    pub consumed: bool,
    /// A frame should be drawn.
    pub redraw: bool,
    /// The cursor icon to show, if it changes.
    pub cursor: Option<CursorShape>,
}

/// The exact move of the center, in world steps times the scale, for a
/// pointer move from `from` to `to` along one axis: `-2 * (to - from)` world
/// units at scale 1.
pub open spec fn exact_step(from: int, to: int) -> int {
    -2 * (SCALE_ONE as int) * (WORLD_ONE as int) * (to - from)
}

/// The move of the center, in world steps, for a pointer travel from
/// `from` to `to` at scale `s`, rounded toward zero.
pub open spec fn drag_offset(from: int, to: int, s: int) -> int {
    trunc_div(exact_step(from, to), s)
}

/// The camera in mathematical terms.
pub struct CameraModel {
    /// The center, in world fixed-point steps.
    pub center_x: int,
    pub center_y: int,
    /// The zoom, in thousandths of a wheel unit.
    pub zoom: int,
    /// The fixed-point scale (see `SCALE_ONE`), the same on both axes.
    pub scale: int,
    pub width: int,
    pub height: int,
    pub drag: DragState,
    /// The pointer position and the center from which the drag in progress
    /// is measured.
    pub anchor: PixelPosition,
    pub anchor_x: int,
    pub anchor_y: int,
}

pub open spec fn in_i64(v: int) -> bool {
    i64::MIN <= v <= i64::MAX
}

impl CameraModel {
    pub open spec fn wf(self) -> bool {
        &&& in_i64(self.zoom)
        &&& self.scale == level_scale(self.zoom)
        &&& MIN_SCALE <= self.scale <= MAX_SCALE
        &&& in_i64(self.center_x) && in_i64(self.center_y)
        &&& in_i64(self.anchor_x) && in_i64(self.anchor_y)
        &&& 1 <= self.width <= u32::MAX
        &&& 1 <= self.height <= u32::MAX
    }

    /// The camera after `ev`.
    pub open spec fn next(self, ev: InputEvent) -> CameraModel {
        match ev {
            InputEvent::PointerPressed(PointerButton::Left) => CameraModel {
                drag: DragState::PointerDown,
                ..self
            },
            InputEvent::PointerReleased(PointerButton::Left) => CameraModel {
                drag: DragState::Idle,
                ..self
            },
            InputEvent::PointerPressed(_) => self,
            InputEvent::PointerReleased(_) => self,
            InputEvent::PointerMoved(p) => match self.drag {
                DragState::Idle => self,
                DragState::PointerDown => CameraModel {
                    drag: DragState::DraggedFrom(p),
                    anchor: p,
                    anchor_x: self.center_x,
                    anchor_y: self.center_y,
                    ..self
                },
                DragState::DraggedFrom(_) => CameraModel {
                    center_x: clamp_i64(
                        self.anchor_x + drag_offset(self.anchor.x as int, p.x as int, self.scale),
                    ),
                    center_y: clamp_i64(
                        self.anchor_y + drag_offset(self.anchor.y as int, p.y as int, self.scale),
                    ),
                    drag: DragState::DraggedFrom(p),
                    ..self
                },
            },
            InputEvent::Wheel(y) => {
                let z = clamp_i64(self.zoom + y);
                let zoomed = CameraModel { zoom: z, scale: level_scale(z), ..self };
                match self.drag {
                    DragState::DraggedFrom(q) => CameraModel {
                        anchor: q,
                        anchor_x: self.center_x,
                        anchor_y: self.center_y,
                        ..zoomed
                    },
                    _ => zoomed,
                }
            },
        }
    }

    /// What the window is told after `ev`.
    pub open spec fn response(self, ev: InputEvent) -> InputResponse {
        match ev {
            InputEvent::PointerPressed(PointerButton::Left) => InputResponse {
                consumed: true,
                redraw: false,
                cursor: Some(CursorShape::Grabbing),
            },
            InputEvent::PointerReleased(PointerButton::Left) => InputResponse {
                consumed: true,
                redraw: false,
                cursor: Some(CursorShape::Arrow),
            },
            InputEvent::PointerPressed(_) => InputResponse {
                consumed: false,
                redraw: false,
                cursor: None,
            },
            InputEvent::PointerReleased(_) => InputResponse {
                consumed: false,
                redraw: false,
                cursor: None,
            },
            InputEvent::PointerMoved(_) => InputResponse {
                consumed: true,
                redraw: !(self.drag is Idle),
                cursor: None,
            },
            InputEvent::Wheel(_) => InputResponse { consumed: true, redraw: true, cursor: None },
        }
    }

    /// The camera after each event of `evs` in turn.
    pub open spec fn run(self, evs: Seq<InputEvent>) -> CameraModel
        decreases evs.len(),
    {
        if evs.len() == 0 {
            self
        } else {
            self.next(evs[0]).run(evs.drop_first())
        }
    }
}

proof fn lemma_step_bound(d: int)
    requires
        -4_294_967_296 <= d <= 4_294_967_296,
    ensures
        -8_589_934_592_000_000_000_000_000 <= exact_step(0, d) <= 8_589_934_592_000_000_000_000_000,
        exact_step(0, d) == -2 * (SCALE_ONE as int) * (WORLD_ONE as int) * d,
{
    assert(-8_589_934_592_000_000_000_000_000 <= -2_000_000_000_000_000 * d
        <= 8_589_934_592_000_000_000_000_000) by (nonlinear_arith)
        requires
            -4_294_967_296 <= d <= 4_294_967_296,
    ;
}

/// The move of the center for a pointer travel from `from` to `to`.
fn drag_offset_exec(from: i32, to: i32, s: u64) -> (r: i128)
    requires
        MIN_SCALE <= s,
    ensures
        r == drag_offset(from as int, to as int, s as int),
        -8_589_934_592_000_000_000_000_000 <= r <= 8_589_934_592_000_000_000_000_000,
{
    let d: i128 = to as i128 - from as i128;
    proof {
        lemma_step_bound(d as int);
    }
    let e: i128 = -2_000_000_000_000_000 * d;
    assert(exact_step(from as int, to as int) == e);
    trunc_div_exec(e, s as i128)
}

/// The camera: center, zoom and window size, with the drag in progress.
pub struct ZoomState {
    center_x: i64,
    center_y: i64,
    zoom: i64,
    scale: u64,
    size: WindowSize,
    drag: DragState,
    anchor: PixelPosition,
    anchor_x: i64,
    anchor_y: i64,
}

impl View for ZoomState {
    type V = CameraModel;

    closed spec fn view(&self) -> CameraModel {
        CameraModel {
            center_x: self.center_x as int,
            center_y: self.center_y as int,
            zoom: self.zoom as int,
            scale: self.scale as int,
            width: self.size.width as int,
            height: self.size.height as int,
            drag: self.drag,
            anchor: self.anchor,
            anchor_x: self.anchor_x as int,
            anchor_y: self.anchor_y as int,
        }
    }
}

/// `v`, or 1 where `v` is 0.
pub open spec fn at_least_one(v: int) -> int {
    if v < 1 {
        1
    } else {
        v
    }
}

pub(crate) fn at_least_one_exec(v: u32) -> (r: u32)
    ensures
        r == at_least_one(v as int),
{
    if v < 1 {
        1
    } else {
        v
    }
}

impl ZoomState {
    /// A camera centered on the world origin at scale 1, with no drag; a
    /// zero width or height is taken as 1.
    pub fn new(size: WindowSize) -> (r: ZoomState)
        ensures
            r@.wf(),
            r@ == (CameraModel {
                center_x: 0,
                center_y: 0,
                zoom: 0,
                scale: SCALE_ONE as int,
                width: at_least_one(size.width as int),
                height: at_least_one(size.height as int),
                drag: DragState::Idle,
                anchor: PixelPosition { x: 0, y: 0 },
                anchor_x: 0,
                anchor_y: 0,
            }),
    {
        ZoomState {
            center_x: 0,
            center_y: 0,
            zoom: 0,
            scale: SCALE_ONE,
            size: WindowSize {
                width: at_least_one_exec(size.width),
                height: at_least_one_exec(size.height),
            },
            drag: DragState::Idle,
            anchor: PixelPosition { x: 0, y: 0 },
            anchor_x: 0,
            anchor_y: 0,
        }
    }

    /// Takes the new window size; a zero width or height is taken as 1.
    /// Center, zoom and drag are left as they are.
    pub fn set_size(&mut self, size: WindowSize)
        requires
            old(self)@.wf(),
        ensures
            final(self)@.wf(),
            final(self)@ == (CameraModel {
                width: at_least_one(size.width as int),
                height: at_least_one(size.height as int),
                ..old(self)@
            }),
    {
        self.size = WindowSize {
            width: at_least_one_exec(size.width),
            height: at_least_one_exec(size.height),
        };
    }

    /// Applies one input event and says what the window should do.
    pub fn handle_event(&mut self, event: InputEvent) -> (r: InputResponse)
        requires
            old(self)@.wf(),
        ensures
            final(self)@.wf(),
            final(self)@ == old(self)@.next(event),
            r == old(self)@.response(event),
    {
        match event {
            InputEvent::PointerPressed(PointerButton::Left) => {
                self.drag = DragState::PointerDown;
                InputResponse { consumed: true, redraw: false, cursor: Some(CursorShape::Grabbing) }
            },
            InputEvent::PointerReleased(PointerButton::Left) => {
                self.drag = DragState::Idle;
                InputResponse { consumed: true, redraw: false, cursor: Some(CursorShape::Arrow) }
            },
            InputEvent::PointerPressed(_) => InputResponse {
                consumed: false,
                redraw: false,
                cursor: None,
            },
            InputEvent::PointerReleased(_) => InputResponse {
                consumed: false,
                redraw: false,
                cursor: None,
            },
            InputEvent::PointerMoved(p) => match self.drag {
                DragState::Idle => InputResponse { consumed: true, redraw: false, cursor: None },
                DragState::PointerDown => {
                    self.drag = DragState::DraggedFrom(p);
                    self.anchor = p;
                    self.anchor_x = self.center_x;
                    self.anchor_y = self.center_y;
                    InputResponse { consumed: true, redraw: true, cursor: None }
                },
                DragState::DraggedFrom(_) => {
                    let dx = drag_offset_exec(self.anchor.x, p.x, self.scale);
                    let dy = drag_offset_exec(self.anchor.y, p.y, self.scale);
                    self.center_x = clamp_i64_exec(self.anchor_x as i128 + dx);
                    self.center_y = clamp_i64_exec(self.anchor_y as i128 + dy);
                    self.drag = DragState::DraggedFrom(p);
                    InputResponse { consumed: true, redraw: true, cursor: None }
                },
            },
            InputEvent::Wheel(y) => {
                let z = clamp_i64_exec(self.zoom as i128 + y as i128);
                let s = scale_at_zoom(z);
                self.zoom = z;
                self.scale = s;
                if let DragState::DraggedFrom(q) = self.drag {
                    self.anchor = q;
                    self.anchor_x = self.center_x;
                    self.anchor_y = self.center_y;
                }
                InputResponse { consumed: true, redraw: true, cursor: None }
            },
        }
    }

    /// The zoom in thousandths of a wheel unit.
    pub fn zoom_level(&self) -> (r: i64)
        ensures
            r == self@.zoom,
    {
        self.zoom
    }

    /// The fixed-point scale, the same on both axes (see `SCALE_ONE`).
    pub fn scale(&self) -> (r: u64)
        ensures
            r == self@.scale,
    {
        self.scale
    }

    pub fn window_size(&self) -> (r: WindowSize)
        ensures
            r.width == self@.width,
            r.height == self@.height,
    {
        self.size
    }

    pub fn drag_state(&self) -> (r: DragState)
        ensures
            r == self@.drag,
    {
        self.drag
    }
}

impl ZoomState {
    /// The center in world units, per axis.
    pub fn center(&self) -> (r: (Fraction, Fraction))
        requires
            self@.wf(),
        ensures
            r.0.pair() == self@.center_x_units(),
            r.1.pair() == self@.center_y_units(),
            r.0.wf(),
            r.1.wf(),
    {
        (Fraction { num: self.center_x as i128, den: WORLD_ONE as i128 }, Fraction {
            num: self.center_y as i128,
            den: WORLD_ONE as i128,
        })
    }

    /// The current world-to-device transform.
    pub fn transform(&self) -> (r: Transform2)
        requires
            self@.wf(),
        ensures
            r.x.slope.pair() == self@.x_slope(),
            r.x.offset.pair() == self@.x_offset(),
            r.y.slope.pair() == self@.y_slope(),
            r.y.offset.pair() == self@.y_offset(),
            r.x.slope.wf() && r.x.offset.wf() && r.y.slope.wf() && r.y.offset.wf(),
    {
        proof {
            lemma_product_bound(self@.scale, self@.center_x);
            lemma_product_bound(self@.scale, self@.center_y);
            lemma_den_bounds(self@.width);
            lemma_den_bounds(self@.height);
        }
        let s = self.scale as i128;
        let one = SCALE_ONE as i128;
        let w = self.size.width as i128;
        let h = self.size.height as i128;
        Transform2 {
            x: AxisMap {
                slope: Fraction { num: s, den: one * w },
                offset: Fraction { num: -(s * self.center_x as i128), den: one * (WORLD_ONE as i128) * w },
            },
            y: AxisMap {
                slope: Fraction { num: -s, den: one * h },
                offset: Fraction { num: s * self.center_y as i128, den: one * (WORLD_ONE as i128) * h },
            },
        }
    }

    /// The transform as a column-major 4x4 matrix acting on `(x, y, z, 1)`,
    /// with the translation in the last column.
    pub fn matrix(&self) -> (r: [Fraction; 16])
        requires
            self@.wf(),
        ensures
            forall|i: int| 0 <= i < 16 ==> #[trigger] r@[i].pair() == self@.matrix_entry(i),
    {
        let t = self.transform();
        let o = Fraction { num: 0, den: 1 };
        let l = Fraction { num: 1, den: 1 };
        [
            t.x.slope, o, o, o,
            o, t.y.slope, o, o,
            o, o, l, o,
            t.x.offset, t.y.offset, o, l,
        ]
    }

    /// Where the world point `p` lands in normalized device coordinates.
    pub fn to_ndc(&self, p: WorldPoint) -> (r: NdcPoint)
        requires
            self@.wf(),
        ensures
            r.x.pair() == self@.ndc_x(p.x as int),
            r.y.pair() == self@.ndc_y(p.y as int),
            r.x.wf(),
            r.y.wf(),
    {
        let s = self.scale as i128;
        let dx: i128 = p.x as i128 - self.center_x as i128;
        let dy: i128 = self.center_y as i128 - p.y as i128;
        proof {
            lemma_product_bound(self@.scale, dx as int);
            lemma_product_bound(self@.scale, dy as int);
            lemma_den_bounds(self@.width);
            lemma_den_bounds(self@.height);
        }
        let d: i128 = 1_000_000_000_000_000;
        assert(d == SCALE_ONE * WORLD_ONE);
        NdcPoint {
            x: Fraction { num: s * dx, den: d * (self.size.width as i128) },
            y: Fraction { num: s * dy, den: d * (self.size.height as i128) },
        }
    }
}

/// The largest difference of two `i64` values.
pub const MAX_I64_SPAN: i128 = 18_446_744_073_709_551_615;

proof fn lemma_product_bound(s: int, x: int)
    requires
        MIN_SCALE <= s <= MAX_SCALE,
        -MAX_I64_SPAN <= x <= MAX_I64_SPAN,
    ensures
        -166_020_696_663_385_964_535_000_000_000_000_000_000 <= s * x
            <= 166_020_696_663_385_964_535_000_000_000_000_000_000,
{
    assert(-166_020_696_663_385_964_535_000_000_000_000_000_000 <= s * x
        <= 166_020_696_663_385_964_535_000_000_000_000_000_000) by (nonlinear_arith)
        requires
            1 <= s <= 9_000_000_000_000_000_000,
            -18_446_744_073_709_551_615 <= x <= 18_446_744_073_709_551_615,
    ;
}

proof fn lemma_den_bounds(w: int)
    requires
        1 <= w <= u32::MAX,
    ensures
        1 <= SCALE_ONE * WORLD_ONE * w <= SCALE_ONE * WORLD_ONE * u32::MAX,
        1 <= SCALE_ONE * w <= SCALE_ONE * u32::MAX,
{
    assert(SCALE_ONE * WORLD_ONE == 1_000_000_000_000_000);
    assert(SCALE_ONE * WORLD_ONE * w <= SCALE_ONE * WORLD_ONE * u32::MAX) by (nonlinear_arith)
        requires
            w <= u32::MAX,
            SCALE_ONE * WORLD_ONE == 1_000_000_000_000_000,
    ;
    assert(SCALE_ONE * w <= SCALE_ONE * u32::MAX) by (nonlinear_arith)
        requires
            w <= u32::MAX,
            SCALE_ONE == 1_000_000_000,
    ;
}

/// Bound on the numerator and denominator of device points handed to
/// `to_scene_coordinate`.
pub const MAX_NDC_TERM: i128 = 1_000_000_000_000;

impl CameraModel {
    /// The world point, in world fixed-point steps, that the transform maps
    /// to the device point `(gx, gy)`, rounded toward the center:
    /// `x = cx + gx * w / sx`, `y = cy - gy * h / sy`.
    pub open spec fn scene_x(self, gx: (int, int)) -> int {
        self.center_x + trunc_div(
            gx.0 * self.width * (SCALE_ONE as int) * (WORLD_ONE as int),
            self.scale * gx.1,
        )
    }

    pub open spec fn scene_y(self, gy: (int, int)) -> int {
        self.center_y - trunc_div(
            gy.0 * self.height * (SCALE_ONE as int) * (WORLD_ONE as int),
            self.scale * gy.1,
        )
    }
}

proof fn lemma_scene_bounds(g: int, d: int, s: int, w: int)
    requires
        -MAX_NDC_TERM <= g <= MAX_NDC_TERM,
        1 <= d <= MAX_NDC_TERM,
        MIN_SCALE <= s <= MAX_SCALE,
        1 <= w <= u32::MAX,
    ensures
        -MAX_NDC_TERM * u32::MAX * 1_000_000_000_000_000 <= g * w * (SCALE_ONE as int) * (
        WORLD_ONE as int) <= MAX_NDC_TERM * u32::MAX * 1_000_000_000_000_000,
        1 <= s * d <= MAX_SCALE * MAX_NDC_TERM,
{
    assert(-MAX_NDC_TERM * u32::MAX <= g * w <= MAX_NDC_TERM * u32::MAX) by (nonlinear_arith)
        requires
            -MAX_NDC_TERM <= g <= MAX_NDC_TERM,
            1 <= w <= u32::MAX,
    ;
    assert(-MAX_NDC_TERM * u32::MAX * 1_000_000_000_000_000 <= g * w * 1_000_000_000 * 1_000_000
        <= MAX_NDC_TERM * u32::MAX * 1_000_000_000_000_000) by (nonlinear_arith)
        requires
            -MAX_NDC_TERM * u32::MAX <= g * w <= MAX_NDC_TERM * u32::MAX,
    ;
    assert(1 <= s * d <= MAX_SCALE * MAX_NDC_TERM) by (nonlinear_arith)
        requires
            1 <= s <= MAX_SCALE,
            1 <= d <= MAX_NDC_TERM,
    ;
}

impl ZoomState {
    /// The world point, in world fixed-point steps, that lands on the device
    /// point `g`, rounded toward the center.
    pub fn to_scene_coordinate(&self, g: NdcPoint) -> (r: (i128, i128))
        requires
            self@.wf(),
            -MAX_NDC_TERM <= g.x.num <= MAX_NDC_TERM,
            -MAX_NDC_TERM <= g.y.num <= MAX_NDC_TERM,
            1 <= g.x.den <= MAX_NDC_TERM,
            1 <= g.y.den <= MAX_NDC_TERM,
        ensures
            r.0 == self@.scene_x(g.x.pair()),
            r.1 == self@.scene_y(g.y.pair()),
    {
        proof {
            lemma_scene_bounds(g.x.num as int, g.x.den as int, self@.scale, self@.width);
            lemma_scene_bounds(g.y.num as int, g.y.den as int, self@.scale, self@.height);
        }
        let s = self.scale as i128;
        let k: i128 = 1_000_000_000_000_000;
        assert(k == SCALE_ONE * WORLD_ONE);
        let w = self.size.width as i128;
        let h = self.size.height as i128;
        let qx = trunc_div_exec(g.x.num * w * k, s * g.x.den);
        let qy = trunc_div_exec(g.y.num * h * k, s * g.y.den);
        (self.center_x as i128 + qx, self.center_y as i128 - qy)
    }
}

proof fn lemma_run_single(m: CameraModel, e: InputEvent)
    ensures
        m.run(seq![e]) == m.next(e),
{
    assert(seq![e].drop_first() =~= Seq::<InputEvent>::empty());
    assert(m.run(seq![e]) == m.next(e).run(seq![e].drop_first()));
    assert(m.next(e).run(Seq::<InputEvent>::empty()) == m.next(e));
}

/// Running `a` then `b` is running `a + b`.
proof fn lemma_run_append(m: CameraModel, a: Seq<InputEvent>, b: Seq<InputEvent>)
    ensures
        m.run(a + b) == m.run(a).run(b),
    decreases a.len(),
{
    if a.len() == 0 {
        assert(a + b =~= b);
    } else {
        assert((a + b).drop_first() =~= a.drop_first() + b);
        lemma_run_append(m.next(a[0]), a.drop_first(), b);
    }
}

/// Pointer moves to each position of `ps` in turn.
pub open spec fn moves(ps: Seq<PixelPosition>) -> Seq<InputEvent> {
    ps.map_values(|p: PixelPosition| InputEvent::PointerMoved(p))
}

pub open spec fn xs(ps: Seq<PixelPosition>) -> Seq<int> {
    ps.map_values(|p: PixelPosition| p.x as int)
}

pub open spec fn ys(ps: Seq<PixelPosition>) -> Seq<int> {
    ps.map_values(|p: PixelPosition| p.y as int)
}

/// The sum of the exact steps of the moves between consecutive values of `cs`.
pub open spec fn steps_sum(cs: Seq<int>) -> int
    decreases cs.len(),
{
    if cs.len() <= 1 {
        0
    } else {
        steps_sum(cs.drop_last()) + exact_step(cs[cs.len() - 2], cs.last())
    }
}

proof fn lemma_exact_step_adds(a: int, b: int, c: int)
    ensures
        exact_step(a, b) + exact_step(b, c) == exact_step(a, c),
{
    let k = -2 * (SCALE_ONE as int) * (WORLD_ONE as int);
    assert(k * (b - a) + k * (c - b) == k * (c - a)) by (nonlinear_arith);
}

/// The exact steps of a sequence of moves add up to the step from the first
/// position to the last.
proof fn lemma_steps_telescope(cs: Seq<int>)
    requires
        cs.len() >= 1,
    ensures
        steps_sum(cs) == exact_step(cs[0], cs.last()),
    decreases cs.len(),
{
    if cs.len() == 1 {
        lemma_exact_step_adds(cs[0], cs[0], cs[0]);
    } else {
        let init = cs.drop_last();
        lemma_steps_telescope(init);
        assert(init[0] == cs[0]);
        assert(init.last() == cs[cs.len() - 2]);
        lemma_exact_step_adds(cs[0], cs[cs.len() - 2], cs.last());
    }
}

/// Rounding toward zero misses the quotient by less than one.
proof fn lemma_trunc_div_close(a: int, b: int)
    requires
        b >= 1,
    ensures
        a - b < trunc_div(a, b) * b < a + b,
{
    if a >= 0 {
        assert(a - b < (a / b) * b <= a) by (nonlinear_arith)
            requires
                a >= 0,
                b >= 1,
        ;
    } else {
        let m = -a;
        assert(m - b < (m / b) * b <= m) by (nonlinear_arith)
            requires
                m > 0,
                b >= 1,
        ;
        assert(-((m / b)) * b == -((m / b) * b)) by (nonlinear_arith);
    }
}

/// During a drag, moves through `ps` put the center where the travel from
/// the anchor to the last position takes it, whatever the positions between.
proof fn lemma_drag_through(m: CameraModel, ps: Seq<PixelPosition>)
    requires
        m.wf(),
        m.drag is DraggedFrom,
        ps.len() >= 1,
    ensures
        m.run(moves(ps)) == (CameraModel {
            center_x: clamp_i64(m.anchor_x + drag_offset(m.anchor.x as int, ps.last().x as int, m.scale)),
            center_y: clamp_i64(m.anchor_y + drag_offset(m.anchor.y as int, ps.last().y as int, m.scale)),
            drag: DragState::DraggedFrom(ps.last()),
            ..m
        }),
    decreases ps.len(),
{
    let m1 = m.next(InputEvent::PointerMoved(ps[0]));
    assert(moves(ps)[0] == InputEvent::PointerMoved(ps[0]));
    assert(moves(ps).drop_first() =~= moves(ps.drop_first()));
    assert(m.run(moves(ps)) == m1.run(moves(ps).drop_first()));
    if ps.len() == 1 {
        assert(ps.drop_first() =~= Seq::<PixelPosition>::empty());
        assert(m1.run(moves(ps.drop_first())) == m1);
    } else {
        lemma_drag_through(m1, ps.drop_first());
        assert(ps.drop_first().last() == ps.last());
    }
}

/// A press of the left button, moves through `ps`, then a release: the
/// first move only records where the drag starts, and the center ends
/// moved by the travel from the first position to the last, whatever the
/// moves between. That travel is the sum of the exact steps of the single
/// moves, and the move of the center is within one fixed-point step of it.
/// Zoom, window size and scale stay.
pub proof fn lemma_drag_net_change(m: CameraModel, ps: Seq<PixelPosition>)
    requires
        m.wf(),
        ps.len() >= 1,
    ensures
        m.run(seq![InputEvent::PointerPressed(PointerButton::Left)] + moves(ps)
            + seq![InputEvent::PointerReleased(PointerButton::Left)]) == (CameraModel {
            center_x: clamp_i64(m.center_x + drag_offset(ps[0].x as int, ps.last().x as int, m.scale)),
            center_y: clamp_i64(m.center_y + drag_offset(ps[0].y as int, ps.last().y as int, m.scale)),
            drag: DragState::Idle,
            anchor: ps[0],
            anchor_x: m.center_x,
            anchor_y: m.center_y,
            ..m
        }),
        exact_step(ps[0].x as int, ps.last().x as int) == steps_sum(xs(ps)),
        exact_step(ps[0].y as int, ps.last().y as int) == steps_sum(ys(ps)),
        steps_sum(xs(ps)) - m.scale < drag_offset(ps[0].x as int, ps.last().x as int, m.scale) * m.scale
            < steps_sum(xs(ps)) + m.scale,
        steps_sum(ys(ps)) - m.scale < drag_offset(ps[0].y as int, ps.last().y as int, m.scale) * m.scale
            < steps_sum(ys(ps)) + m.scale,
{
    lemma_steps_telescope(xs(ps));
    lemma_steps_telescope(ys(ps));
    lemma_trunc_div_close(exact_step(ps[0].x as int, ps.last().x as int), m.scale);
    lemma_trunc_div_close(exact_step(ps[0].y as int, ps.last().y as int), m.scale);
    let down = seq![InputEvent::PointerPressed(PointerButton::Left)];
    let up = seq![InputEvent::PointerReleased(PointerButton::Left)];
    lemma_run_append(m, down + moves(ps), up);
    lemma_run_append(m, down, moves(ps));
    let m1 = m.run(down);
    lemma_run_single(m, InputEvent::PointerPressed(PointerButton::Left));
    let m2 = m1.next(InputEvent::PointerMoved(ps[0]));
    assert(moves(ps)[0] == InputEvent::PointerMoved(ps[0]));
    assert(m1.run(moves(ps)) == m2.run(moves(ps).drop_first()));
    assert(moves(ps).drop_first() =~= moves(ps.drop_first()));
    let rest = ps.drop_first();
    let m3 = m2.run(moves(rest));
    if rest.len() == 0 {
        assert(m3 == m2);
        lemma_exact_step_adds(ps[0].x as int, ps[0].x as int, ps[0].x as int);
        lemma_exact_step_adds(ps[0].y as int, ps[0].y as int, ps[0].y as int);
    } else {
        lemma_drag_through(m2, rest);
        assert(rest.last() == ps.last());
    }
    lemma_run_single(m3, InputEvent::PointerReleased(PointerButton::Left));
}

/// A wheel keeps the center, and sets the scale from the zoom level alone.
/// Zooming by `y` and then by `-y` gives back the zoom level, the scale and
/// the center, where the zoom stays within the range of `i64` on the way.
pub proof fn lemma_zoom_round_trip(m: CameraModel, y: i64)
    requires
        m.wf(),
        y > i64::MIN,
        in_i64(m.zoom + y),
    ensures
        m.next(InputEvent::Wheel(y)).center_x == m.center_x,
        m.next(InputEvent::Wheel(y)).center_y == m.center_y,
        m.next(InputEvent::Wheel(y)).scale == level_scale(m.zoom + y),
        m.next(InputEvent::Wheel(y)).next(InputEvent::Wheel((-y) as i64)).zoom == m.zoom,
        m.next(InputEvent::Wheel(y)).next(InputEvent::Wheel((-y) as i64)).scale == m.scale,
        m.next(InputEvent::Wheel(y)).next(InputEvent::Wheel((-y) as i64)).center_x == m.center_x,
        m.next(InputEvent::Wheel(y)).next(InputEvent::Wheel((-y) as i64)).center_y == m.center_y,
        m.next(InputEvent::Wheel(y)).next(InputEvent::Wheel((-y) as i64)).drag == m.drag,
{
}

/// Two wheels give the zoom, scale and center of one wheel by their sum,
/// where the zoom stays within the range of `i64` on the way.
pub proof fn lemma_wheels_add(m: CameraModel, a: i64, b: i64)
    requires
        m.wf(),
        in_i64(m.zoom + a),
        in_i64(m.zoom + a + b),
        in_i64(a + b),
    ensures
        m.next(InputEvent::Wheel(a)).next(InputEvent::Wheel(b)).zoom
            == m.next(InputEvent::Wheel((a + b) as i64)).zoom,
        m.next(InputEvent::Wheel(a)).next(InputEvent::Wheel(b)).scale
            == m.next(InputEvent::Wheel((a + b) as i64)).scale,
        m.next(InputEvent::Wheel(a)).next(InputEvent::Wheel(b)).center_x
            == m.next(InputEvent::Wheel((a + b) as i64)).center_x,
        m.next(InputEvent::Wheel(a)).next(InputEvent::Wheel(b)).center_y
            == m.next(InputEvent::Wheel((a + b) as i64)).center_y,
{
}

} // verus!
