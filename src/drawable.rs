//! The built form of a layer: what the graphics backend must create for it
//! once, and the draw call it issues each frame.
use vstd::prelude::*;
use crate::layout::{fields_size, layout_of, lemma_fields_size_is_four_per_component, InstanceLayout};
use crate::shapes::{
    kind_fields, lemma_record_len_matches_fields, lemma_records_len, record_len, Layer, ShapeKind,
};

verus! {

/// Vertices of the unit quad (two triangles) drawn per instance.
pub const QUAD_VERTICES: u32 = 6;

/// Pixel formats of the presentation surface that pipelines can target.
#[derive(Clone, Copy, Debug, PartialEq, Eq)]
pub enum SurfaceFormat {
    Bgra8UnormSrgb,
    Bgra8Unorm,
    Rgba8UnormSrgb,
    Rgba8Unorm,
}

/// How a channel group is combined with what is already drawn.
#[derive(Clone, Copy, Debug, PartialEq, Eq)]
pub enum BlendComponent {
    /// Source over destination, weighted by the source alpha.
    Over,
    /// The source value replaces the destination.
    Replace,
}

#[derive(Clone, Copy, Debug, PartialEq, Eq)]
pub struct BlendState {
    pub color: BlendComponent,
    pub alpha: BlendComponent,
}

/// The blending shared by all layers: "over" for color, replace for alpha.
pub open spec fn layer_blend() -> BlendState {
    BlendState { color: BlendComponent::Over, alpha: BlendComponent::Replace }
}

/// What the backend builds for one layer: a pipeline for the shape kind
/// and the surface format, reading the shared transform, and an instance
/// buffer of `buffer_size` bytes.
#[derive(Debug)]
pub struct Drawable {
    pub kind: ShapeKind,
    pub layout: InstanceLayout,
    pub blend: BlendState,
    pub format: SurfaceFormat,
    pub instance_count: u32,
    pub buffer_size: u64,
}

/// One instanced draw: vertices `first_vertex..first_vertex + vertex_count`
/// of the quad for instances `first_instance..first_instance + instance_count`.
#[derive(Clone, Copy, Debug, PartialEq, Eq)]
pub struct DrawCall {
    pub first_vertex: u32,
    pub vertex_count: u32,
    pub first_instance: u32,
    pub instance_count: u32,
}

#[derive(Clone, Copy, Debug, PartialEq, Eq)]
pub enum BuildError {
    /// The layer has more instances than one draw call can count.
    TooManyInstances,
}

impl Drawable {
    /// `self` is what `layer` builds for a surface of `format`.
    pub open spec fn built_from(self, layer: Layer, format: SurfaceFormat) -> bool {
        &&& self.kind == layer.kind_spec()
        &&& self.layout.packs(kind_fields(layer.kind_spec()))
        &&& self.blend == layer_blend()
        &&& self.format == format
        &&& self.instance_count == layer.len_spec()
        &&& self.buffer_size == layer.len_spec() * fields_size(kind_fields(layer.kind_spec()))
    }

    /// The draw call that this drawable issues.
    pub open spec fn call(self) -> DrawCall {
        DrawCall {
            first_vertex: 0,
            vertex_count: QUAD_VERTICES,
            first_instance: 0,
            instance_count: self.instance_count,
        }
    }

    /// Records the instanced draw of all instances: six quad vertices each.
    pub fn draw(&self) -> (r: DrawCall)
        ensures
            r == self.call(),
    {
        DrawCall {
            first_vertex: 0,
            vertex_count: QUAD_VERTICES,
            first_instance: 0,
            instance_count: self.instance_count,
        }
    }
}

proof fn lemma_kind_sizes(kind: ShapeKind)
    ensures
        0 < fields_size(kind_fields(kind)) <= 64,
{
    reveal_with_fuel(fields_size, 5);
    let fs = kind_fields(kind);
    assert(fs.len() <= 4);
    match kind {
        ShapeKind::Circle => {
            assert(fs.drop_last().drop_last().drop_last() =~= Seq::<crate::layout::VertexFormat>::empty());
        },
        ShapeKind::Rectangle => {
            assert(fs.drop_last().drop_last().drop_last() =~= Seq::<crate::layout::VertexFormat>::empty());
        },
        ShapeKind::Line => {
            assert(fs.drop_last().drop_last().drop_last().drop_last() =~= Seq::<crate::layout::VertexFormat>::empty());
        },
    }
}

impl Layer {
    /// Describes the pipeline and instance buffer of this layer for a
    /// surface of `format`. Fails when the instances cannot be counted in
    /// one draw call.
    pub fn init_drawable(&self, format: SurfaceFormat) -> (r: Result<Drawable, BuildError>)
        ensures
            r is Ok <==> self.len_spec() <= u32::MAX,
            r matches Ok(d) ==> d.built_from(*self, format),
            r matches Err(e) ==> e == BuildError::TooManyInstances,
    {
        let n = self.len();
        if n > u32::MAX as usize {
            return Err(BuildError::TooManyInstances);
        }
        let kind = self.kind();
        let fields = kind.fields();
        let layout = layout_of(&fields);
        proof {
            lemma_kind_sizes(kind);
        }
        assert((n as int) * (layout.stride as int) <= (u32::MAX as int) * 64) by (nonlinear_arith)
            requires
                n <= u32::MAX,
                layout.stride <= 64,
        ;
        let buffer_size = (n as u64) * layout.stride;
        Ok(Drawable {
            kind,
            layout,
            blend: BlendState { color: BlendComponent::Over, alpha: BlendComponent::Replace },
            format,
            instance_count: n as u32,
            buffer_size,
        })
    }
}

/// Building a drawable from a layer of `N` instances and drawing it issues
/// one draw call, of the six quad vertices for each of the `N` instances.
pub proof fn lemma_build_then_draw(layer: Layer, format: SurfaceFormat, d: Drawable)
    requires
        d.built_from(layer, format),
    ensures
        d.call().instance_count == layer.len_spec(),
        d.call().first_instance == 0,
        d.call().vertex_count == 6,
        d.call().first_vertex == 0,
{
}

/// The layer's instance data, at four bytes a scalar, fills the drawable's
/// instance buffer exactly.
pub proof fn lemma_instance_data_fills_buffer(layer: Layer, format: SurfaceFormat, d: Drawable)
    requires
        d.built_from(layer, format),
    ensures
        4 * layer.records(layer.len_spec() as nat).len() == d.buffer_size,
{
    let n = layer.len_spec();
    let k = layer.kind_spec();
    lemma_records_len(layer, n as nat);
    lemma_record_len_matches_fields(k);
    lemma_fields_size_is_four_per_component(kind_fields(k));
    assert(4 * (n * record_len(k)) == n * (4 * record_len(k)))
        by (nonlinear_arith);
}

} // verus!
