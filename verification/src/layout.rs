//! Vertex-input layouts.
//!
//! The byte layout each vertex buffer presents to the pipeline must match
//! the shader's vertex-input declaration exactly: the per-vertex layout
//! packs a three-component position and a two-component texture
//! coordinate, and the per-instance layout packs a four-by-four matrix as
//! four rows.  Every component is a 32-bit scalar on the device.

use vstd::prelude::*;

verus! {

/// The device format of one vertex attribute.
#[derive(Clone, Copy, Debug, PartialEq, Eq, Structural)]
pub enum VertexFormat {
    /// Two 32-bit floats.
    Float32x2,
    /// Three 32-bit floats.
    Float32x3,
    /// Four 32-bit floats.
    Float32x4,
}

/// How often the attribute stream advances.
#[derive(Clone, Copy, Debug, PartialEq, Eq, Structural)]
pub enum VertexStepMode {
    /// Once per vertex.
    Vertex,
    /// Once per drawn instance.
    Instance,
}

/// One attribute of a vertex-input layout.
#[derive(Clone, Copy, Debug, PartialEq, Eq, Structural)]
pub struct VertexAttribute {
    /// Byte offset of the attribute inside one array element.
    pub offset: u64,
    /// The shader input slot the attribute feeds.
    pub shader_location: u32,
    /// The attribute's device format.
    pub format: VertexFormat,
}

/// The layout of one vertex buffer: element stride, step rate and the
/// attributes packed into each element.
pub struct VertexLayout {
    pub array_stride: u64,
    pub step_mode: VertexStepMode,
    pub attributes: Vec<VertexAttribute>,
}

/// The size in bytes of a value of the given format.
pub open spec fn format_size(f: VertexFormat) -> int {
    match f {
        VertexFormat::Float32x2 => 8,
        VertexFormat::Float32x3 => 12,
        VertexFormat::Float32x4 => 16,
    }
}

/// Whether a layout packs its attributes back to back: the first at byte
/// zero, each next one right after its predecessor, and the stride exactly
/// the bytes the attributes cover.
pub open spec fn spec_packed(l: Seq<VertexAttribute>, stride: int) -> bool {
    &&& (forall|i: int|
        0 < i < l.len() ==> (#[trigger] l[i]).offset == l[i - 1].offset + format_size(l[i - 1].format))
    &&& (l.len() > 0 ==> l[0].offset == 0)
    &&& (l.len() > 0 ==> stride == l[l.len() - 1].offset + format_size(l[l.len() - 1].format))
    &&& (l.len() == 0 ==> stride == 0)
}

/// The per-vertex layout: a three-float position feeding shader slot zero
/// and a two-float texture coordinate feeding slot one, packed back to
/// back in a 20-byte element.
pub fn vertex_layout() -> (l: VertexLayout)
    ensures
        l.array_stride == 20,
        l.step_mode == VertexStepMode::Vertex,
        l.attributes@ =~= seq![
            (VertexAttribute { offset: 0, shader_location: 0, format: VertexFormat::Float32x3 }),
            (VertexAttribute { offset: 12, shader_location: 1, format: VertexFormat::Float32x2 }),
        ],
        spec_packed(l.attributes@, l.array_stride as int),
{
    let mut attributes: Vec<VertexAttribute> = Vec::new();
    attributes.push(VertexAttribute { offset: 0, shader_location: 0, format: VertexFormat::Float32x3 });
    attributes.push(VertexAttribute { offset: 12, shader_location: 1, format: VertexFormat::Float32x2 });
    VertexLayout { array_stride: 20, step_mode: VertexStepMode::Vertex, attributes }
}

/// The per-instance layout: a four-by-four model matrix delivered as four
/// four-float rows feeding shader slots five through eight, packed back to
/// back in a 64-byte element that advances once per instance.
pub fn instance_layout() -> (l: VertexLayout)
    ensures
        l.array_stride == 64,
        l.step_mode == VertexStepMode::Instance,
        l.attributes@ =~= seq![
            (VertexAttribute { offset: 0, shader_location: 5, format: VertexFormat::Float32x4 }),
            (VertexAttribute { offset: 16, shader_location: 6, format: VertexFormat::Float32x4 }),
            (VertexAttribute { offset: 32, shader_location: 7, format: VertexFormat::Float32x4 }),
            (VertexAttribute { offset: 48, shader_location: 8, format: VertexFormat::Float32x4 }),
        ],
        spec_packed(l.attributes@, l.array_stride as int),
{
    let mut attributes: Vec<VertexAttribute> = Vec::new();
    attributes.push(VertexAttribute { offset: 0, shader_location: 5, format: VertexFormat::Float32x4 });
    attributes.push(VertexAttribute { offset: 16, shader_location: 6, format: VertexFormat::Float32x4 });
    attributes.push(VertexAttribute { offset: 32, shader_location: 7, format: VertexFormat::Float32x4 });
    attributes.push(VertexAttribute { offset: 48, shader_location: 8, format: VertexFormat::Float32x4 });
    VertexLayout { array_stride: 64, step_mode: VertexStepMode::Instance, attributes }
}

} // verus!
