use shape_layers::camera::{CursorShape, DragState, InputEvent, PointerButton, ZoomState};
use shape_layers::transform::{to_gpu_coordinate, transformation_matrix, NdcPoint};
use shape_layers::zoom::{scale_at_zoom, MAX_SCALE};
use shape_layers::units::{Fraction, PixelPosition, WindowSize, WorldPoint, SCALE_ONE};

fn window(width: u32, height: u32) -> WindowSize {
    WindowSize { width, height }
}

fn at(x: i32, y: i32) -> InputEvent {
    InputEvent::PointerMoved(PixelPosition { x, y })
}

fn drag_through(cam: &mut ZoomState, points: &[(i32, i32)]) {
    cam.handle_event(InputEvent::PointerPressed(PointerButton::Left));
    for &(x, y) in points {
        cam.handle_event(at(x, y));
    }
    cam.handle_event(InputEvent::PointerReleased(PointerButton::Left));
}

#[test]
fn new_camera_is_centered_at_scale_one() {
    let cam = ZoomState::new(window(600, 600));
    let (cx, cy) = cam.center();
    assert_eq!(cx.num, 0);
    assert_eq!(cy.num, 0);
    assert_eq!(cam.scale(), SCALE_ONE);
    assert_eq!(cam.zoom_level(), 0);
    assert_eq!(cam.drag_state(), DragState::Idle);
}

#[test]
fn drag_moves_center_against_pointer() {
    let mut cam = ZoomState::new(window(600, 600));
    drag_through(&mut cam, &[(100, 100), (150, 120)]);
    let (cx, cy) = cam.center();
    // 50 pixels right and 20 down at scale 1: the center moves by -2 * delta.
    assert_eq!(cx, Fraction { num: -100_000_000, den: 1_000_000 });
    assert_eq!(cy, Fraction { num: -40_000_000, den: 1_000_000 });
    assert_eq!(cam.drag_state(), DragState::Idle);
}

#[test]
fn drag_result_independent_of_intermediate_moves() {
    let mut a = ZoomState::new(window(800, 600));
    let mut b = ZoomState::new(window(800, 600));
    a.handle_event(InputEvent::Wheel(37_000));
    b.handle_event(InputEvent::Wheel(37_000));
    drag_through(&mut a, &[(10, 10), (90, -40)]);
    drag_through(&mut b, &[(10, 10), (500, 3), (-70, 200), (33, 33), (90, -40)]);
    assert_eq!(a.center(), b.center());
}

#[test]
fn drag_at_zoom_divides_by_scale() {
    let mut cam = ZoomState::new(window(600, 600));
    cam.handle_event(InputEvent::Wheel(200_000));
    let s = cam.scale() as i128;
    drag_through(&mut cam, &[(0, 0), (10, 0)]);
    let (cx, _) = cam.center();
    // -2 * 10 / (s / SCALE_ONE) world units, in steps of 1 / cx.den
    assert_eq!(cx.num, -(20 * SCALE_ONE as i128 * cx.den / s));
}

#[test]
fn first_move_after_press_only_records_position() {
    let mut cam = ZoomState::new(window(600, 600));
    cam.handle_event(InputEvent::PointerPressed(PointerButton::Left));
    assert_eq!(cam.drag_state(), DragState::PointerDown);
    let r = cam.handle_event(at(40, 40));
    assert!(r.consumed);
    assert!(r.redraw);
    assert_eq!(cam.drag_state(), DragState::DraggedFrom(PixelPosition { x: 40, y: 40 }));
    assert_eq!(cam.center().0.num, 0);
}

#[test]
fn move_without_press_is_ignored() {
    let mut cam = ZoomState::new(window(600, 600));
    let r = cam.handle_event(at(40, 40));
    assert!(r.consumed);
    assert!(!r.redraw);
    assert_eq!(cam.drag_state(), DragState::Idle);
    assert_eq!(cam.center().0.num, 0);
}

#[test]
fn press_and_release_set_cursor() {
    let mut cam = ZoomState::new(window(600, 600));
    let r = cam.handle_event(InputEvent::PointerPressed(PointerButton::Left));
    assert_eq!(r.cursor, Some(CursorShape::Grabbing));
    let r = cam.handle_event(InputEvent::PointerReleased(PointerButton::Left));
    assert_eq!(r.cursor, Some(CursorShape::Arrow));
}

#[test]
fn other_buttons_do_not_drag() {
    let mut cam = ZoomState::new(window(600, 600));
    let r = cam.handle_event(InputEvent::PointerPressed(PointerButton::Right));
    assert!(!r.consumed);
    cam.handle_event(at(1, 1));
    cam.handle_event(at(100, 100));
    assert_eq!(cam.center().0.num, 0);
    assert_eq!(cam.drag_state(), DragState::Idle);
}

#[test]
fn wheel_100_scales_by_about_1_105() {
    let mut cam = ZoomState::new(window(600, 600));
    let r = cam.handle_event(InputEvent::Wheel(100_000));
    assert!(r.redraw);
    let s = cam.scale();
    // 1.001^100 = 1.1051156977..., each step rounded to nearest
    assert!(s >= 1_105_115_648 && s <= 1_105_115_748, "scale {}", s);
    assert!((s as f64 / SCALE_ONE as f64 - 1.001f64.powi(100)).abs() < 1e-6);
    assert_eq!(cam.zoom_level(), 100_000);
}

#[test]
fn wheel_round_trip_restores_scale() {
    let mut cam = ZoomState::new(window(600, 600));
    cam.handle_event(InputEvent::Wheel(-321_000));
    let before = cam.scale();
    cam.handle_event(InputEvent::Wheel(1_234_500));
    assert_ne!(cam.scale(), before);
    cam.handle_event(InputEvent::Wheel(-1_234_500));
    assert_eq!(cam.scale(), before);
    assert_eq!(cam.zoom_level(), -321_000);
}

#[test]
fn wheel_out_shrinks_scale_but_keeps_it_positive() {
    let mut cam = ZoomState::new(window(600, 600));
    cam.handle_event(InputEvent::Wheel(-100_000));
    assert!(cam.scale() < SCALE_ONE);
    cam.handle_event(InputEvent::Wheel(i64::MIN));
    assert_eq!(cam.zoom_level(), i64::MIN);
    assert!(cam.scale() > 0);
    assert_eq!(cam.scale(), scale_at_zoom(i64::MIN));
}

#[test]
fn wheel_saturates_only_the_scale() {
    let mut cam = ZoomState::new(window(600, 600));
    cam.handle_event(InputEvent::Wheel(i64::MAX));
    assert_eq!(cam.zoom_level(), i64::MAX);
    assert_eq!(cam.scale(), MAX_SCALE);
}

#[test]
fn large_round_trip_restores_scale() {
    let mut cam = ZoomState::new(window(600, 600));
    cam.handle_event(InputEvent::Wheel(6_000_000));
    assert!(cam.scale() > 400 * SCALE_ONE);
    cam.handle_event(InputEvent::Wheel(-6_000_000));
    assert_eq!(cam.zoom_level(), 0);
    assert_eq!(cam.scale(), SCALE_ONE);
}

#[test]
fn wheel_beyond_five_thousand_units_still_zooms() {
    let mut cam = ZoomState::new(window(600, 600));
    cam.handle_event(InputEvent::Wheel(5_000_000));
    let before = cam.scale() as f64;
    cam.handle_event(InputEvent::Wheel(1_000_000));
    let ratio = cam.scale() as f64 / before;
    assert!((ratio / 1.001f64.powi(1000) - 1.0).abs() < 1e-6, "ratio {}", ratio);
}

#[test]
fn two_wheels_equal_one_of_their_sum() {
    let mut a = ZoomState::new(window(600, 600));
    let mut b = ZoomState::new(window(600, 600));
    a.handle_event(InputEvent::Wheel(6_000_000));
    a.handle_event(InputEvent::Wheel(-6_000_000 + 250_000));
    b.handle_event(InputEvent::Wheel(250_000));
    assert_eq!(a.scale(), b.scale());
    assert_eq!(a.zoom_level(), b.zoom_level());
}

fn relative(s: u64) -> f64 {
    s as f64 / SCALE_ONE as f64
}

#[test]
fn fractional_wheel_steps_add_up() {
    let mut cam = ZoomState::new(window(600, 600));
    cam.handle_event(InputEvent::Wheel(300));
    assert!((relative(cam.scale()) / 1.001f64.powf(0.3) - 1.0).abs() < 1e-6);
    for _ in 0..3 {
        cam.handle_event(InputEvent::Wheel(300));
    }
    assert_eq!(cam.zoom_level(), 1200);
    assert_eq!(cam.scale(), scale_at_zoom(1200));
    assert!((relative(cam.scale()) / 1.001f64.powf(1.2) - 1.0).abs() < 1e-6);
}

#[test]
fn half_unit_wheel_zooms_by_root_of_factor() {
    let mut cam = ZoomState::new(window(600, 600));
    cam.handle_event(InputEvent::Wheel(500));
    assert!((relative(cam.scale()) / 1.001f64.powf(0.5) - 1.0).abs() < 1e-6);
    cam.handle_event(InputEvent::Wheel(-1000));
    assert!((relative(cam.scale()) / 1.001f64.powf(-0.5) - 1.0).abs() < 1e-6);
}

#[test]
fn two_fractional_wheels_equal_their_sum() {
    let mut a = ZoomState::new(window(600, 600));
    let mut b = ZoomState::new(window(600, 600));
    a.handle_event(InputEvent::Wheel(300));
    a.handle_event(InputEvent::Wheel(300));
    b.handle_event(InputEvent::Wheel(600));
    assert_eq!(a.scale(), b.scale());
    assert!((relative(a.scale()) / 1.001f64.powf(0.6) - 1.0).abs() < 1e-6);
}

#[test]
fn zoom_keeps_center() {
    let mut cam = ZoomState::new(window(600, 600));
    drag_through(&mut cam, &[(0, 0), (30, -15)]);
    let center = cam.center();
    cam.handle_event(InputEvent::Wheel(3_000));
    assert_eq!(cam.center(), center);
    cam.handle_event(InputEvent::Wheel(-3_000));
    assert_eq!(cam.center(), center);
    cam.handle_event(InputEvent::Wheel(250_000));
    assert_eq!(cam.center(), center);
}

#[test]
fn zoom_during_drag_keeps_center_and_later_moves_use_new_scale() {
    let mut cam = ZoomState::new(window(600, 600));
    cam.handle_event(InputEvent::PointerPressed(PointerButton::Left));
    cam.handle_event(at(0, 0));
    cam.handle_event(at(10, 0));
    let (cx, _) = cam.center();
    assert_eq!(cx.num, -20_000_000);
    cam.handle_event(InputEvent::Wheel(693_000));
    assert_eq!(cam.center().0, cx);
    let s = cam.scale() as i128;
    cam.handle_event(at(20, 0));
    assert_eq!(cam.center().0.num, -20_000_000 - 20 * 1_000_000_000_000_000 / s);
}

#[test]
fn resize_keeps_center_and_scale() {
    let mut cam = ZoomState::new(window(600, 600));
    cam.handle_event(InputEvent::Wheel(40_000));
    drag_through(&mut cam, &[(5, 5), (25, 75)]);
    let center = cam.center();
    let scale = cam.scale();
    cam.set_size(window(1024, 300));
    assert_eq!(cam.center(), center);
    assert_eq!(cam.scale(), scale);
    assert_eq!(cam.window_size(), window(1024, 300));
}

#[test]
fn zero_sizes_are_clamped() {
    let mut cam = ZoomState::new(window(0, 0));
    assert_eq!(cam.window_size(), window(1, 1));
    cam.set_size(window(0, 480));
    assert_eq!(cam.window_size(), window(1, 480));
}

fn apply(a: Fraction, b: Fraction, p: Fraction) -> (i128, i128) {
    (a.num * p.num * b.den + b.num * a.den * p.den, a.den * p.den * b.den)
}

#[test]
fn center_maps_to_device_origin() {
    let mut cam = ZoomState::new(window(640, 480));
    cam.handle_event(InputEvent::Wheel(-77_000));
    drag_through(&mut cam, &[(3, 4), (60, 90), (61, 100)]);
    let (cx, cy) = cam.center();
    let t = cam.transform();
    assert_ne!(cx.num, 0);
    assert_eq!(apply(t.x.slope, t.x.offset, cx).0, 0);
    assert_eq!(apply(t.y.slope, t.y.offset, cy).0, 0);
    let m = cam.matrix();
    assert_eq!(m[0], t.x.slope);
    assert_eq!(m[5], t.y.slope);
    assert_eq!(m[12], t.x.offset);
    assert_eq!(m[13], t.y.offset);
    assert_eq!(m[10], Fraction { num: 1, den: 1 });
    assert_eq!(m[15], Fraction { num: 1, den: 1 });
    assert_eq!(m[1], Fraction { num: 0, den: 1 });
}

#[test]
fn default_matrix_entries() {
    let cam = ZoomState::new(window(600, 400));
    let m = cam.matrix();
    // x' = x / 600, y' = -y / 400
    assert_eq!(m[0].num * 600, m[0].den);
    assert_eq!(m[5].num * 400, -m[5].den);
    assert_eq!(m[12].num, 0);
    assert_eq!(m[13].num, 0);
}

#[test]
fn to_ndc_of_world_points() {
    let cam = ZoomState::new(window(600, 600));
    let p = cam.to_ndc(WorldPoint { x: 300_000_000, y: 600_000_000 });
    assert_eq!(p.x.num * 2, p.x.den);
    assert_eq!(p.y.num, -p.y.den);
    assert!(p.x.within_unit());
    assert!(p.y.within_unit());
    let q = cam.to_ndc(WorldPoint { x: 601_000_000, y: 0 });
    assert!(!q.x.within_unit());
}

#[test]
fn scale_at_zoom_values() {
    assert_eq!(scale_at_zoom(0), SCALE_ONE);
    assert_eq!(scale_at_zoom(1000), 1_001_000_000);
    assert_eq!(scale_at_zoom(-1000), 999_000_999);
    assert_eq!(scale_at_zoom(2000), 1_002_001_000);
    assert_eq!(scale_at_zoom(1), 1_000_001_000);
    assert_eq!(scale_at_zoom(-1), 999_999_000);
    let s = relative(scale_at_zoom(-5_000_000));
    assert!((s / 1.001f64.powi(-5000) - 1.0).abs() < 1e-4, "scale {}", s);
    let s = relative(scale_at_zoom(14_000_500));
    assert!((s / 1.001f64.powf(14000.5) - 1.0).abs() < 1e-6, "scale {}", s);
}

#[test]
fn pixels_to_device_coordinates() {
    let size = window(600, 400);
    let corner = to_gpu_coordinate(PixelPosition { x: 0, y: 0 }, size);
    assert_eq!(corner.x, Fraction { num: -600, den: 600 });
    assert_eq!(corner.y, Fraction { num: 400, den: 400 });
    let mid = to_gpu_coordinate(PixelPosition { x: 300, y: 200 }, size);
    assert_eq!(mid.x.num, 0);
    assert_eq!(mid.y.num, 0);
    let zero = to_gpu_coordinate(PixelPosition { x: 1, y: 1 }, window(0, 0));
    assert_eq!(zero.x, Fraction { num: 1, den: 1 });
}

#[test]
fn device_to_scene_coordinates() {
    let cam = ZoomState::new(window(600, 600));
    let g = to_gpu_coordinate(PixelPosition { x: 450, y: 150 }, cam.window_size());
    let (x, y) = cam.to_scene_coordinate(g);
    assert_eq!((x, y), (300_000_000, -300_000_000));
}

#[test]
fn device_origin_is_the_center() {
    let mut cam = ZoomState::new(window(800, 600));
    cam.handle_event(InputEvent::Wheel(90_000));
    drag_through(&mut cam, &[(10, 10), (70, 30)]);
    let origin = NdcPoint { x: Fraction { num: 0, den: 1 }, y: Fraction { num: 0, den: 1 } };
    let (x, y) = cam.to_scene_coordinate(origin);
    let (cx, cy) = cam.center();
    assert_eq!((x, y), (cx.num, cy.num));
}

#[test]
fn pixel_offset_matrix() {
    let m = transformation_matrix(600, 400, 30, 20);
    assert_eq!(m[0], Fraction { num: 2, den: 600 });
    assert_eq!(m[5], Fraction { num: -2, den: 400 });
    assert_eq!(m[12], Fraction { num: -570, den: 600 });
    assert_eq!(m[13], Fraction { num: 380, den: 400 });
    assert_eq!(m[15], Fraction { num: 1, den: 1 });
    assert_eq!(m[4], Fraction { num: 0, den: 1 });
}

#[test]
fn one_pixel_drag_moves_center_at_largest_scale() {
    let mut cam = ZoomState::new(window(600, 600));
    cam.handle_event(InputEvent::Wheel(i64::MAX));
    assert_eq!(cam.scale(), MAX_SCALE);
    drag_through(&mut cam, &[(100, 100), (101, 99)]);
    let (cx, cy) = cam.center();
    assert_eq!((cx.num, cy.num), (-1, 1));
}
