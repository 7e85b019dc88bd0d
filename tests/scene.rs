use shape_layers::camera::{InputEvent, ZoomState};
use shape_layers::control::{react, recovery_for, FrameError, LoopAction, Recovery, WindowInput};
use shape_layers::drawable::{BlendComponent, BuildError, DrawCall, SurfaceFormat};
use shape_layers::layout::{layout_of, VertexFormat};
use shape_layers::scene::Scene;
use shape_layers::shapes::{
    Circle, CirclesLayer, Layer, Line, LinesLayer, Rectangle, RectanglesLayer, Rgba, ShapeKind,
};
use shape_layers::units::{Fraction, WindowSize, WorldPoint};

fn pt(x: i64, y: i64) -> WorldPoint {
    WorldPoint { x, y }
}

fn color(r: u16, g: u16, b: u16) -> Rgba {
    Rgba { r, g, b, a: 65535 }
}

fn circles(n: usize) -> Layer {
    let data = (0..n)
        .map(|i| Circle { position: pt(i as i64 * 1000, 0), radius: 100_000, color: color(10, 200, 30) })
        .collect();
    Layer::Circles(CirclesLayer::new(data))
}

fn rectangles() -> Layer {
    Layer::Rectangles(RectanglesLayer::new(vec![
        Rectangle { upper_left: pt(0, 0), bottom_right: pt(500_000, -500_000), color: color(77, 153, 102) },
        Rectangle { upper_left: pt(-400_000, 300_000), bottom_right: pt(-200_000, 100_000), color: color(179, 0, 102) },
    ]))
}

fn lines() -> Layer {
    Layer::Lines(LinesLayer::new(vec![Line {
        start: pt(-500_000, -500_000),
        end: pt(500_000, 500_000),
        color: color(77, 26, 51),
        width: 2_000,
    }]))
}

#[test]
fn scene_draws_layers_in_insertion_order() {
    let layers = vec![circles(3), rectangles(), lines()];
    let scene = Scene::new(&layers, SurfaceFormat::Bgra8UnormSrgb).unwrap();
    assert_eq!(scene.len(), 3);
    let cam = ZoomState::new(WindowSize { width: 600, height: 600 });
    for _ in 0..2 {
        let plan = scene.frame(&cam);
        let order: Vec<usize> = plan.draws.iter().map(|d| d.layer).collect();
        assert_eq!(order, vec![0, 1, 2]);
        let counts: Vec<u32> = plan.draws.iter().map(|d| d.call.instance_count).collect();
        assert_eq!(counts, vec![3, 2, 1]);
        assert_eq!(plan.clear, Rgba { r: 65535, g: 65535, b: 65535, a: 65535 });
        assert_eq!(plan.transform, cam.matrix());
    }
}

#[test]
fn drawable_issues_one_instanced_draw() {
    for n in [0usize, 1, 7, 1000] {
        let d = circles(n).init_drawable(SurfaceFormat::Rgba8Unorm).unwrap();
        assert_eq!(
            d.draw(),
            DrawCall { first_vertex: 0, vertex_count: 6, first_instance: 0, instance_count: n as u32 }
        );
        assert_eq!(d.buffer_size, n as u64 * 28);
        assert_eq!(d.format, SurfaceFormat::Rgba8Unorm);
        assert_eq!(d.kind, ShapeKind::Circle);
        assert_eq!(d.blend.color, BlendComponent::Over);
        assert_eq!(d.blend.alpha, BlendComponent::Replace);
    }
}

#[test]
fn empty_scene_has_no_draws() {
    let scene = Scene::new(&Vec::new(), SurfaceFormat::Bgra8Unorm).unwrap();
    let cam = ZoomState::new(WindowSize { width: 10, height: 10 });
    assert!(scene.frame(&cam).draws.is_empty());
}

#[test]
fn scene_of_small_layers_builds() {
    let built = Scene::new(&vec![lines(), circles(2)], SurfaceFormat::Bgra8Unorm);
    assert!(!matches!(built, Err(BuildError::TooManyInstances)));
    assert_eq!(built.unwrap().len(), 2);
}

#[test]
fn layouts_pack_fields_in_order() {
    let circle = layout_of(&ShapeKind::Circle.fields());
    assert_eq!(circle.stride, 28);
    let offs: Vec<u64> = circle.attributes.iter().map(|a| a.offset).collect();
    assert_eq!(offs, vec![0, 8, 24]);
    assert_eq!(circle.attributes[1].format, VertexFormat::Float32x4);
    let rect = layout_of(&ShapeKind::Rectangle.fields());
    assert_eq!(rect.stride, 32);
    let offs: Vec<u64> = rect.attributes.iter().map(|a| a.offset).collect();
    assert_eq!(offs, vec![0, 8, 16]);
    let line = layout_of(&ShapeKind::Line.fields());
    assert_eq!(line.stride, 36);
    let offs: Vec<u64> = line.attributes.iter().map(|a| a.offset).collect();
    assert_eq!(offs, vec![0, 8, 16, 32]);
    let locs: Vec<u32> = line.attributes.iter().map(|a| a.shader_location).collect();
    assert_eq!(locs, vec![0, 1, 2, 3]);
}

#[test]
fn instance_data_is_records_in_order() {
    let layer = lines();
    let data = layer.instance_data();
    assert_eq!(data.len(), 9);
    assert_eq!(data[0], Fraction { num: -500_000, den: 1_000_000 });
    assert_eq!(data[3], Fraction { num: 500_000, den: 1_000_000 });
    assert_eq!(data[4], Fraction { num: 77, den: 65535 });
    assert_eq!(data[7], Fraction { num: 65535, den: 65535 });
    assert_eq!(data[8], Fraction { num: 2_000, den: 1_000_000 });
    let c = circles(2).instance_data();
    assert_eq!(c.len(), 14);
    assert_eq!(c[7], Fraction { num: 1000, den: 1_000_000 });
    assert_eq!(c[13], Fraction { num: 100_000, den: 1_000_000 });
    assert_eq!(rectangles().instance_data().len(), 16);
}

#[test]
fn three_small_circles_stay_on_screen() {
    let layer = CirclesLayer::new(vec![
        Circle { position: pt(0, 0), radius: 100_000, color: color(128, 255, 128) },
        Circle { position: pt(0, 0), radius: 100_000, color: color(153, 153, 0) },
        Circle { position: pt(0, 0), radius: 100_000, color: color(179, 0, 102) },
    ]);
    let cam = ZoomState::new(WindowSize { width: 600, height: 600 });
    for c in &layer.data {
        let b = c.bounds();
        for (x, y) in [(b.min_x, b.min_y), (b.max_x, b.max_y)] {
            let p = cam.to_ndc(pt(x as i64, y as i64));
            assert!(p.x.within_unit() && p.y.within_unit());
        }
    }
}

#[test]
fn shape_bounds() {
    let r = Rectangle { upper_left: pt(0, 10), bottom_right: pt(50, -5), color: color(0, 0, 0) };
    let b = r.bounds();
    assert_eq!((b.min_x, b.min_y, b.max_x, b.max_y), (0, -5, 50, 10));
    let l = Line { start: pt(10, 0), end: pt(0, 20), color: color(0, 0, 0), width: 3 };
    let b = l.bounds();
    assert_eq!((b.min_x, b.min_y, b.max_x, b.max_y), (-2, -2, 12, 22));
}

#[test]
fn frame_errors_are_classified() {
    assert_eq!(recovery_for(FrameError::Lost), Recovery::RecreateSurface);
    assert_eq!(recovery_for(FrameError::OutOfMemory), Recovery::Exit);
    assert_eq!(recovery_for(FrameError::Outdated), Recovery::SkipFrame);
    assert_eq!(recovery_for(FrameError::Timeout), Recovery::SkipFrame);
}

#[test]
fn window_events_lead_to_actions() {
    let mut cam = ZoomState::new(WindowSize { width: 600, height: 600 });
    assert_eq!(react(&mut cam, WindowInput::CloseRequested).action, LoopAction::Exit);
    assert_eq!(react(&mut cam, WindowInput::EscapePressed).action, LoopAction::Exit);
    assert_eq!(react(&mut cam, WindowInput::RedrawRequested).action, LoopAction::Render);
    assert_eq!(react(&mut cam, WindowInput::Other).action, LoopAction::Wait);
    assert_eq!(
        react(&mut cam, WindowInput::Resized(WindowSize { width: 0, height: 300 })).action,
        LoopAction::Reconfigure(WindowSize { width: 1, height: 300 })
    );
    assert_eq!(cam.window_size(), WindowSize { width: 1, height: 300 });
    assert_eq!(react(&mut cam, WindowInput::Pointer(InputEvent::Wheel(5_000))).action, LoopAction::RequestRedraw);
    assert_eq!(cam.zoom_level(), 5_000);
}
