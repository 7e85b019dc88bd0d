//! The scene: drawables in insertion order, and the plan of one frame.
use vstd::prelude::*;
use crate::camera::ZoomState;
use crate::drawable::{BuildError, DrawCall, Drawable, SurfaceFormat};
use crate::shapes::{Layer, Rgba, COLOR_ONE};
use crate::units::Fraction;

verus! {

/// The color the frame is cleared to before any layer is drawn: opaque white.
pub open spec fn background() -> Rgba {
    Rgba { r: COLOR_ONE, g: COLOR_ONE, b: COLOR_ONE, a: COLOR_ONE }
}

pub fn background_color() -> (r: Rgba)
    ensures
        r == background(),
{
    Rgba { r: COLOR_ONE, g: COLOR_ONE, b: COLOR_ONE, a: COLOR_ONE }
}

/// The draw call of the layer at position `layer` in the scene.
#[derive(Clone, Copy, Debug, PartialEq, Eq)]
pub struct LayerDraw {
    pub layer: usize,
    pub call: DrawCall,
}

/// One frame: write `transform` to the shared transform buffer, clear the
/// target to `clear`, then issue `draws` in order, back to front.
pub struct FramePlan {
    pub transform: [Fraction; 16],
    pub clear: Rgba,
    pub draws: Vec<LayerDraw>,
}

/// The draws of a frame of the scene `scene`: one per drawable, in order.
pub open spec fn frame_draws(scene: Seq<Drawable>) -> Seq<LayerDraw> {
    Seq::new(scene.len(), |i: int| LayerDraw { layer: i as usize, call: scene[i].call() })
}

/// `scene` is what `layers` build, one drawable per layer, in order.
pub open spec fn scene_built_from(scene: Seq<Drawable>, layers: Seq<Layer>, format: SurfaceFormat) -> bool {
    &&& scene.len() == layers.len()
    &&& forall|i: int| 0 <= i < layers.len() ==> #[trigger] scene[i].built_from(layers[i], format)
}

/// The drawables of a window, drawn in the order they were added.
pub struct Scene {
    drawables: Vec<Drawable>,
}

impl View for Scene {
    type V = Seq<Drawable>;

    closed spec fn view(&self) -> Seq<Drawable> {
        self.drawables@
    }
}

impl Scene {
    /// A scene with no drawables.
    pub fn empty() -> (r: Scene)
        ensures
            r@ == Seq::<Drawable>::empty(),
    {
        Scene { drawables: Vec::new() }
    }

    /// Adds `d` on top of what the scene holds.
    pub fn add(&mut self, d: Drawable)
        ensures
            final(self)@ == old(self)@.push(d),
    {
        self.drawables.push(d);
    }

    /// The drawable at position `i`.
    pub fn get(&self, i: usize) -> (r: &Drawable)
        requires
            i < self@.len(),
        ensures
            *r == self@[i as int],
    {
        &self.drawables[i]
    }

    pub fn len(&self) -> (r: usize)
        ensures
            r == self@.len(),
    {
        self.drawables.len()
    }

    /// Builds a drawable for each layer, in order; fails with the first
    /// layer that cannot be built, and then builds nothing.
    pub fn new(layers: &Vec<Layer>, format: SurfaceFormat) -> (r: Result<Scene, BuildError>)
        ensures
            r is Ok <==> forall|i: int| 0 <= i < layers@.len() ==> #[trigger] layers@[i].len_spec() <= u32::MAX,
            r matches Ok(s) ==> scene_built_from(s@, layers@, format),
            r matches Err(e) ==> e == BuildError::TooManyInstances,
    {
        let mut scene = Scene::empty();
        let mut i: usize = 0;
        while i < layers.len()
            invariant
                i <= layers@.len(),
                scene@.len() == i,
                forall|j: int| 0 <= j < i ==> #[trigger] scene@[j].built_from(layers@[j], format),
                forall|j: int| 0 <= j < i ==> #[trigger] layers@[j].len_spec() <= u32::MAX,
            decreases layers@.len() - i,
        {
            match layers[i].init_drawable(format) {
                Ok(d) => scene.add(d),
                Err(e) => return Err(e),
            }
            i = i + 1;
        }
        Ok(scene)
    }

    /// The plan of one frame seen through `camera`.
    pub fn frame(&self, camera: &ZoomState) -> (r: FramePlan)
        requires
            camera@.wf(),
        ensures
            forall|i: int| 0 <= i < 16 ==> #[trigger] r.transform@[i].pair() == camera@.matrix_entry(i),
            r.clear == background(),
            r.draws@ == frame_draws(self@),
    {
        let transform = camera.matrix();
        let mut draws: Vec<LayerDraw> = Vec::new();
        let mut i: usize = 0;
        while i < self.drawables.len()
            invariant
                i <= self@.len(),
                draws@ == frame_draws(self@).take(i as int),
            decreases self@.len() - i,
        {
            let call = self.drawables[i].draw();
            draws.push(LayerDraw { layer: i, call });
            i = i + 1;
            assert(draws@ =~= frame_draws(self@).take(i as int));
        }
        assert(frame_draws(self@).take(i as int) =~= frame_draws(self@));
        FramePlan { transform, clear: background_color(), draws }
    }
}

/// Every frame of a scene built from `layers` draws layer 0 first, then
/// layer 1, and so on: one instanced draw per layer, of all its instances.
pub proof fn lemma_frame_draws_layers_in_order(
    layers: Seq<Layer>,
    format: SurfaceFormat,
    scene: Seq<Drawable>,
)
    requires
        scene_built_from(scene, layers, format),
        layers.len() <= usize::MAX,
    ensures
        frame_draws(scene).len() == layers.len(),
        forall|i: int|
            0 <= i < layers.len() ==> (#[trigger] frame_draws(scene)[i]).layer == i
                && frame_draws(scene)[i].call.instance_count == layers[i].len_spec()
                && frame_draws(scene)[i].call.vertex_count == 6,
        forall|i: int, j: int|
            0 <= i < j < layers.len() ==> (#[trigger] frame_draws(scene)[i]).layer
                < (#[trigger] frame_draws(scene)[j]).layer,
{
    assert forall|i: int| 0 <= i < layers.len() implies (#[trigger] frame_draws(scene)[i]).layer == i
        && frame_draws(scene)[i].call.instance_count == layers[i].len_spec()
        && frame_draws(scene)[i].call.vertex_count == 6 by {
        assert(scene[i].built_from(layers[i], format));
    }
}

} // verus!
