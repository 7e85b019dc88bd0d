//! Per-instance attribute records: which fields a shape kind stores, in
//! which order, and at which byte offsets.
//!
//! Every kind stores its geometry first, then the RGBA color, then one
//! extra scalar where the kind needs it. Six vertices of a unit quad are
//! drawn per instance, and each reads the whole record.
use vstd::prelude::*;

verus! {

/// The type of one attribute as the vertex stage reads it.
#[derive(Clone, Copy, Debug, PartialEq, Eq)]
pub enum VertexFormat {
    Float32,
    Float32x2,
    Float32x4,
}

pub open spec fn format_size(f: VertexFormat) -> int {
    match f {
        VertexFormat::Float32 => 4,
        VertexFormat::Float32x2 => 8,
        VertexFormat::Float32x4 => 16,
    }
}

pub open spec fn format_components(f: VertexFormat) -> int {
    match f {
        VertexFormat::Float32 => 1,
        VertexFormat::Float32x2 => 2,
        VertexFormat::Float32x4 => 4,
    }
}

impl VertexFormat {
    /// The size in bytes.
    pub fn size(&self) -> (r: u64)
        ensures
            r == format_size(*self),
    {
        match self {
            VertexFormat::Float32 => 4,
            VertexFormat::Float32x2 => 8,
            VertexFormat::Float32x4 => 16,
        }
    }
}

/// The total size in bytes of the fields `fs`, laid end to end.
pub open spec fn fields_size(fs: Seq<VertexFormat>) -> int
    decreases fs.len(),
{
    if fs.len() == 0 {
        0
    } else {
        fields_size(fs.drop_last()) + format_size(fs.last())
    }
}

/// The number of scalars in the fields `fs`.
pub open spec fn fields_components(fs: Seq<VertexFormat>) -> int
    decreases fs.len(),
{
    if fs.len() == 0 {
        0
    } else {
        fields_components(fs.drop_last()) + format_components(fs.last())
    }
}

/// Every scalar takes four bytes.
pub proof fn lemma_fields_size_is_four_per_component(fs: Seq<VertexFormat>)
    ensures
        fields_size(fs) == 4 * fields_components(fs),
    decreases fs.len(),
{
    if fs.len() > 0 {
        lemma_fields_size_is_four_per_component(fs.drop_last());
    }
}

proof fn lemma_fields_size_bound(fs: Seq<VertexFormat>)
    ensures
        0 <= fields_size(fs) <= 16 * fs.len(),
    decreases fs.len(),
{
    if fs.len() > 0 {
        lemma_fields_size_bound(fs.drop_last());
    }
}

/// One attribute of an instance record.
#[derive(Clone, Copy, Debug, PartialEq, Eq)]
pub struct VertexAttribute {
    pub offset: u64,
    pub shader_location: u32,
    pub format: VertexFormat,
}

/// The layout of one instance record in the instance buffer.
#[derive(Debug)]
pub struct InstanceLayout {
    /// Bytes from one record to the next.
    pub stride: u64,
    pub attributes: Vec<VertexAttribute>,
}

impl InstanceLayout {
    /// The fields `fs` packed in order with no gaps: field `i` is read at
    /// shader location `i`, right after the fields before it.
    pub open spec fn packs(self, fs: Seq<VertexFormat>) -> bool {
        &&& self.attributes@.len() == fs.len()
        &&& self.stride == fields_size(fs)
        &&& forall|i: int|
            0 <= i < fs.len() ==> {
                &&& (#[trigger] self.attributes@[i]).offset == fields_size(fs.take(i))
                &&& self.attributes@[i].shader_location == i
                &&& self.attributes@[i].format == fs[i]
            }
    }
}

/// Packs `fields` in order with no gaps.
pub fn layout_of(fields: &Vec<VertexFormat>) -> (r: InstanceLayout)
    requires
        fields.len() <= u32::MAX,
    ensures
        r.packs(fields@),
{
    let mut attributes: Vec<VertexAttribute> = Vec::new();
    let mut offset: u64 = 0;
    let mut i: usize = 0;
    while i < fields.len()
        invariant
            fields.len() <= u32::MAX,
            i <= fields.len(),
            attributes@.len() == i,
            offset == fields_size(fields@.take(i as int)),
            forall|j: int|
                0 <= j < i ==> {
                    &&& (#[trigger] attributes@[j]).offset == fields_size(fields@.take(j))
                    &&& attributes@[j].shader_location == j
                    &&& attributes@[j].format == fields@[j]
                },
        decreases fields.len() - i,
    {
        proof {
            lemma_fields_size_bound(fields@.take(i as int));
            assert(fields@.take(i as int + 1).drop_last() =~= fields@.take(i as int));
        }
        let f = fields[i];
        attributes.push(VertexAttribute { offset, shader_location: i as u32, format: f });
        offset = offset + f.size();
        i = i + 1;
    }
    assert(fields@.take(fields.len() as int) =~= fields@);
    InstanceLayout { stride: offset, attributes }
}

} // verus!
