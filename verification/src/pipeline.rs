//! Compiled render pipelines, registered once and resolved every frame.
//!
//! [`PipelineRegistry`] queues a descriptor for compilation at
//! registration and hands back a stable handle.  Resolution returns
//! nothing while compilation is in flight — the pass skips drawing rather
//! than block — and the descriptor behind a handle never changes: new
//! state means a new descriptor under a new handle.

use vstd::prelude::*;

use crate::layout::{instance_layout, vertex_layout, VertexLayout};

verus! {

/// A registered pipeline: the index it was registered under.
#[derive(Clone, Copy, Debug, PartialEq, Eq, Structural)]
pub struct PipelineHandle {
    pub id: usize,
}

/// The mathematical state of the registry: each registered descriptor and
/// whether its compilation has finished.
#[verifier::ext_equal]
pub ghost struct PipelineRegistryModel<D> {
    pub entries: Seq<(D, bool)>,
}

/// The registry of render pipelines, generic in the descriptor carried.
pub struct PipelineRegistry<D> {
    entries: Vec<(D, bool)>,
}

impl<D> View for PipelineRegistry<D> {
    type V = PipelineRegistryModel<D>;

    closed spec fn view(&self) -> PipelineRegistryModel<D> {
        PipelineRegistryModel { entries: self.entries@ }
    }
}

/// Whether a handle resolves in the given registry state.
pub open spec fn spec_resolved<D>(m: PipelineRegistryModel<D>, h: PipelineHandle) -> bool {
    h.id < m.entries.len() && m.entries[h.id as int].1
}

impl<D> PipelineRegistry<D> {
    /// An empty registry.
    pub fn new() -> (r: Self)
        ensures
            r@ == (PipelineRegistryModel::<D> { entries: Seq::empty() }),
    {
        PipelineRegistry { entries: Vec::new() }
    }

    /// Register a descriptor, queueing its compilation, and hand back its
    /// stable handle.  The descriptor is stored as given and never mutated
    /// afterwards.
    pub fn register(&mut self, desc: D) -> (h: PipelineHandle)
        requires
            old(self)@.entries.len() < usize::MAX,
        ensures
            h.id == old(self)@.entries.len(),
            final(self)@.entries == old(self)@.entries.push((desc, false)),
    {
        let h = PipelineHandle { id: self.entries.len() };
        self.entries.push((desc, false));
        h
    }

    /// Resolve a handle: the registered descriptor once its compilation
    /// has finished, nothing while it is still in flight or the handle is
    /// unknown.
    pub fn resolve(&self, h: PipelineHandle) -> (r: Option<&D>)
        ensures
            r is Some <==> spec_resolved(self@, h),
            r is Some ==> *r->0 == self@.entries[h.id as int].0,
    {
        if h.id < self.entries.len() {
            let entry = &self.entries[h.id];
            if entry.1 {
                Some(&entry.0)
            } else {
                None
            }
        } else {
            None
        }
    }

    /// Record that the host finished compiling the pipeline behind `h`.
    /// Only the compiled flag changes; the descriptor does not.
    pub fn mark_compiled(&mut self, h: PipelineHandle)
        requires
            h.id < old(self)@.entries.len(),
        ensures
            final(self)@.entries == old(self)@.entries.update(
                h.id as int,
                (old(self)@.entries[h.id as int].0, true),
            ),
    {
        let desc = self.entries.remove(h.id);
        self.entries.insert(h.id, (desc.0, true));
    }

    /// How many pipelines have been registered.
    pub fn len(&self) -> (n: usize)
        ensures
            n == self@.entries.len(),
    {
        self.entries.len()
    }
}

/// The texture formats the pass writes.
#[derive(Clone, Copy, Debug, PartialEq, Eq, Structural)]
pub enum TextureFormat {
    /// The surface's color format.
    Bgra8UnormSrgb,
    /// The depth attachment's format.
    Depth32Float,
}

/// The depth test a pipeline runs.
#[derive(Clone, Copy, Debug, PartialEq, Eq, Structural)]
pub struct DepthState {
    pub format: TextureFormat,
    pub depth_write_enabled: bool,
    /// A fragment passes when nearer than the stored depth.
    pub compare_less: bool,
}

/// Everything the render pipeline is compiled from: shader, bind-group
/// layouts, vertex-input layouts and fixed-function state.
pub struct PipelineDescriptor {
    /// The shader module both entry points live in.
    pub shader: u64,
    /// The bind-group layout identities, group order.
    pub layouts: Vec<u64>,
    /// The vertex-input layouts, buffer-slot order.
    pub buffers: Vec<VertexLayout>,
    /// The color target's format.
    pub target_format: TextureFormat,
    /// Whether back faces are culled (front faces wind counterclockwise).
    pub cull_back_faces: bool,
    /// The depth test, when the pass has a depth attachment.
    pub depth: Option<DepthState>,
}

/// The one descriptor this plugin registers: the given shader with the
/// material layout at group zero and the camera layout at group one, the
/// per-vertex layout at buffer slot zero and the per-instance layout at
/// slot one, drawing to the surface format with back-face culling and a
/// write-enabled nearer-passes depth test.
pub fn applier_pipeline_descriptor(shader: u64, material_layout: u64, camera_layout: u64) -> (d:
    PipelineDescriptor)
    ensures
        d.shader == shader,
        d.layouts@ =~= seq![material_layout, camera_layout],
        d.buffers@.len() == 2,
        d.buffers@[0].array_stride == 20,
        d.buffers@[0].attributes@ == vertex_layout_attrs(),
        d.buffers@[1].array_stride == 64,
        d.buffers@[1].attributes@ == instance_layout_attrs(),
        d.target_format == TextureFormat::Bgra8UnormSrgb,
        d.cull_back_faces,
        d.depth == Some((DepthState {
            format: TextureFormat::Depth32Float,
            depth_write_enabled: true,
            compare_less: true,
        })),
{
    let mut layouts: Vec<u64> = Vec::new();
    layouts.push(material_layout);
    layouts.push(camera_layout);
    let mut buffers: Vec<VertexLayout> = Vec::new();
    buffers.push(vertex_layout());
    buffers.push(instance_layout());
    PipelineDescriptor {
        shader,
        layouts,
        buffers,
        target_format: TextureFormat::Bgra8UnormSrgb,
        cull_back_faces: true,
        depth: Some(DepthState {
            format: TextureFormat::Depth32Float,
            depth_write_enabled: true,
            compare_less: true,
        }),
    }
}

/// The attributes of the per-vertex layout, as [`vertex_layout`] states them.
pub open spec fn vertex_layout_attrs() -> Seq<crate::layout::VertexAttribute> {
    seq![
        (crate::layout::VertexAttribute {
            offset: 0,
            shader_location: 0,
            format: crate::layout::VertexFormat::Float32x3,
        }),
        (crate::layout::VertexAttribute {
            offset: 12,
            shader_location: 1,
            format: crate::layout::VertexFormat::Float32x2,
        }),
    ]
}

/// The attributes of the per-instance layout, as [`instance_layout`] states them.
pub open spec fn instance_layout_attrs() -> Seq<crate::layout::VertexAttribute> {
    seq![
        (crate::layout::VertexAttribute {
            offset: 0,
            shader_location: 5,
            format: crate::layout::VertexFormat::Float32x4,
        }),
        (crate::layout::VertexAttribute {
            offset: 16,
            shader_location: 6,
            format: crate::layout::VertexFormat::Float32x4,
        }),
        (crate::layout::VertexAttribute {
            offset: 32,
            shader_location: 7,
            format: crate::layout::VertexFormat::Float32x4,
        }),
        (crate::layout::VertexAttribute {
            offset: 48,
            shader_location: 8,
            format: crate::layout::VertexFormat::Float32x4,
        }),
    ]
}

} // verus!
