//! The frame-graph nodes as pure functions.
//!
//! A node is a tagged variant, and running one is a function from the
//! variant and a frozen frame context to pass actions: the execute node
//! always invokes the subgraph, and the surface node turns the context
//! into the ordered action list of one render pass per available surface.
//! Whatever is unready — no instance group, a mesh not yet resident, a
//! window without a view, a pipeline still compiling, a bind group not
//! built — is skipped for this frame, never an error.

use vstd::prelude::*;

use crate::bind_group::BindGroupHandle;
use crate::color::{
    depth_clear_value, derive_clear_color, spec_clear_color, spec_depth_clear, ClearColor, Frac,
};
use crate::extract::{MeshHandle, MousePosition};
use crate::pipeline::PipelineHandle;

verus! {

/// The two node kinds of the graph.
#[derive(Clone, Copy, Debug, PartialEq, Eq, Structural)]
pub enum FrameGraphNode {
    /// The top-level node: it invokes the subgraph and propagates its
    /// outcome.
    Execute,
    /// The subgraph's node: it records the surface pass.
    SurfaceDraw,
}

/// One output surface at frame time: its target view when one is
/// available (none while the window is minimized), and its size.
#[derive(Clone, Copy, Debug, PartialEq, Eq)]
pub struct SurfaceTarget {
    pub view: Option<u64>,
    pub width: u32,
    pub height: u32,
}

/// A mesh resident on the device: its buffers and its index count.
#[derive(Clone, Copy, Debug, PartialEq, Eq, Structural)]
pub struct GpuMeshEntry {
    pub mesh: MeshHandle,
    pub vertex_buffer: u64,
    pub index_buffer: u64,
    pub index_count: u32,
}

/// One per-mesh instance group ready to draw: the mesh it instances, the
/// device buffer holding the instance transforms, and how many there are.
#[derive(Clone, Copy, Debug, PartialEq, Eq, Structural)]
pub struct InstanceGroup {
    pub mesh: MeshHandle,
    pub buffer: u64,
    pub count: u32,
}

/// Everything a node reads, frozen for one frame.
pub struct FrameContext {
    /// The active output surfaces.
    pub windows: Vec<SurfaceTarget>,
    /// The extracted cursor position.
    pub cursor: MousePosition,
    /// The per-mesh instance groups, in extraction order.
    pub groups: Vec<InstanceGroup>,
    /// The meshes resident on the device.
    pub gpu_meshes: Vec<GpuMeshEntry>,
    /// The material bind group, once built.
    pub material_bind_group: Option<BindGroupHandle>,
    /// The camera bind group, once built.
    pub camera_bind_group: Option<BindGroupHandle>,
    /// The render pipeline, once compiled.
    pub pipeline: Option<PipelineHandle>,
    /// The depth attachment's view.
    pub depth_view: u64,
}

/// A context is well formed when every surface that offers a view has a
/// nonzero size with the cursor inside it.
pub open spec fn ctx_wf(ctx: FrameContext) -> bool {
    forall|i: int|
        0 <= i < ctx.windows@.len() && (#[trigger] ctx.windows@[i]).view is Some ==> {
            &&& 0 < ctx.windows@[i].width
            &&& 0 < ctx.windows@[i].height
            &&& ctx.cursor.x <= ctx.windows@[i].width
            &&& ctx.cursor.y <= ctx.windows@[i].height
        }
}

/// One recorded step of a render pass.
#[derive(Clone, Copy, Debug, PartialEq, Eq, Structural)]
pub enum PassAction {
    /// Begin a pass on a surface view, clearing the color attachment to
    /// `clear` and the depth attachment to `depth_clear`.
    BeginPass { view: u64, clear: ClearColor, depth_view: u64, depth_clear: Frac },
    /// Bind the render pipeline.
    SetPipeline { pipeline: PipelineHandle },
    /// Bind a bind group to a group slot.
    SetBindGroup { slot: u32, group: BindGroupHandle },
    /// Bind a vertex buffer to a buffer slot.
    SetVertexBuffer { slot: u32, buffer: u64 },
    /// Bind the index buffer.
    SetIndexBuffer { buffer: u64 },
    /// Draw every index over every instance.
    DrawIndexed { index_count: u32, instance_count: u32 },
}

/// What running a node yields: the execute node hands control to the
/// subgraph, the surface node hands back the pass actions it recorded.
pub enum NodeOutput {
    /// Invoke the subgraph with this identity.
    RunSubgraph { subgraph: u64 },
    /// The recorded pass actions, in order.
    Pass { actions: Vec<PassAction> },
}

/// The resident mesh entry for a handle, if any: the first match.
pub open spec fn spec_mesh_lookup(ms: Seq<GpuMeshEntry>, h: MeshHandle) -> Option<GpuMeshEntry>
    decreases ms.len(),
{
    if ms.len() == 0 {
        None
    } else if ms[0].mesh == h {
        Some(ms[0])
    } else {
        spec_mesh_lookup(ms.drop_first(), h)
    }
}

/// The binding-and-draw tail of one pass: present exactly when the
/// pipeline is compiled and both bind groups are built, and otherwise
/// empty — the pass then only clears.
pub open spec fn spec_draw_block(
    ctx: FrameContext,
    mesh: GpuMeshEntry,
    group: InstanceGroup,
) -> Seq<PassAction> {
    match (ctx.pipeline, ctx.material_bind_group, ctx.camera_bind_group) {
        (Some(p), Some(mat), Some(cam)) => seq![
            PassAction::SetPipeline { pipeline: p },
            PassAction::SetBindGroup { slot: 0, group: mat },
            PassAction::SetBindGroup { slot: 1, group: cam },
            PassAction::SetVertexBuffer { slot: 0, buffer: mesh.vertex_buffer },
            PassAction::SetVertexBuffer { slot: 1, buffer: group.buffer },
            PassAction::SetIndexBuffer { buffer: mesh.index_buffer },
            (PassAction::DrawIndexed {
                index_count: mesh.index_count,
                instance_count: group.count,
            }),
        ],
        _ => Seq::empty(),
    }
}

/// The actions of one surface: none without a view; with one, a pass
/// begins with the cursor-derived clear color and the draw block follows.
pub open spec fn spec_window_actions(
    ctx: FrameContext,
    w: SurfaceTarget,
    mesh: GpuMeshEntry,
    group: InstanceGroup,
) -> Seq<PassAction> {
    match w.view {
        None => Seq::empty(),
        Some(v) => seq![
            (PassAction::BeginPass {
                view: v,
                clear: spec_clear_color(ctx.cursor.x, ctx.cursor.y, w.width, w.height),
                depth_view: ctx.depth_view,
                depth_clear: spec_depth_clear(),
            }),
        ] + spec_draw_block(ctx, mesh, group),
    }
}

/// The actions of the first `n` surfaces, concatenated in order.
pub open spec fn spec_windows_prefix(
    ctx: FrameContext,
    mesh: GpuMeshEntry,
    group: InstanceGroup,
    n: int,
) -> Seq<PassAction>
    decreases n,
{
    if n <= 0 {
        Seq::empty()
    } else {
        spec_windows_prefix(ctx, mesh, group, n - 1) + spec_window_actions(
            ctx,
            ctx.windows@[n - 1],
            mesh,
            group,
        )
    }
}

/// Everything the surface node records for one frame: nothing without an
/// instance group or while the group's mesh is not resident; otherwise
/// one pass per surface with a view.
pub open spec fn spec_surface_actions(ctx: FrameContext) -> Seq<PassAction> {
    if ctx.groups@.len() == 0 {
        Seq::empty()
    } else {
        let group = ctx.groups@.last();
        match spec_mesh_lookup(ctx.gpu_meshes@, group.mesh) {
            None => Seq::empty(),
            Some(mesh) => spec_windows_prefix(ctx, mesh, group, ctx.windows@.len() as int),
        }
    }
}

/// The resident mesh entry for a handle, if any.
fn find_gpu_mesh(ms: &Vec<GpuMeshEntry>, h: MeshHandle) -> (r: Option<GpuMeshEntry>)
    ensures
        r == spec_mesh_lookup(ms@, h),
{
    proof {
        assert(ms@.skip(0) =~= ms@);
    }
    let mut i: usize = 0;
    while i < ms.len()
        invariant
            i <= ms.len(),
            spec_mesh_lookup(ms@, h) == spec_mesh_lookup(ms@.skip(i as int), h),
        decreases ms.len() - i,
    {
        proof {
            assert(ms@.skip(i as int)[0] == ms@[i as int]);
        }
        if ms[i].mesh.id == h.id {
            return Some(ms[i]);
        }
        proof {
            assert(ms@.skip(i as int).drop_first() =~= ms@.skip(i as int + 1));
        }
        i = i + 1;
    }
    proof {
        assert(ms@.skip(i as int) =~= Seq::<GpuMeshEntry>::empty());
    }
    None
}

/// Record the surface pass: for the latest instance group whose mesh is
/// resident, one pass per surface with an available view — cleared with
/// the cursor-derived color, drawn only once pipeline and bind groups are
/// ready — and nothing at all when there is nothing to draw.
pub fn run_surface_node(ctx: &FrameContext) -> (actions: Vec<PassAction>)
    requires
        ctx_wf(*ctx),
    ensures
        actions@ == spec_surface_actions(*ctx),
{
    let mut actions: Vec<PassAction> = Vec::new();
    if ctx.groups.len() == 0 {
        proof {
            assert(actions@ =~= spec_surface_actions(*ctx));
        }
        return actions;
    }
    let group = ctx.groups[ctx.groups.len() - 1];
    let mesh = match find_gpu_mesh(&ctx.gpu_meshes, group.mesh) {
        Some(m) => m,
        None => {
            proof {
                assert(actions@ =~= spec_surface_actions(*ctx));
            }
            return actions;
        },
    };
    let mut i: usize = 0;
    while i < ctx.windows.len()
        invariant
            i <= ctx.windows.len(),
            ctx_wf(*ctx),
            ctx.groups@.len() > 0,
            group == ctx.groups@.last(),
            spec_mesh_lookup(ctx.gpu_meshes@, group.mesh) == Some(mesh),
            actions@ == spec_windows_prefix(*ctx, mesh, group, i as int),
        decreases ctx.windows.len() - i,
    {
        let w = ctx.windows[i];
        match w.view {
            Some(v) => {
                let clear = derive_clear_color(ctx.cursor.x, ctx.cursor.y, w.width, w.height);
                actions.push(
                    PassAction::BeginPass {
                        view: v,
                        clear,
                        depth_view: ctx.depth_view,
                        depth_clear: depth_clear_value(),
                    },
                );
                match (ctx.pipeline, ctx.material_bind_group, ctx.camera_bind_group) {
                    (Some(p), Some(mat), Some(cam)) => {
                        actions.push(PassAction::SetPipeline { pipeline: p });
                        actions.push(PassAction::SetBindGroup { slot: 0, group: mat });
                        actions.push(PassAction::SetBindGroup { slot: 1, group: cam });
                        actions.push(
                            PassAction::SetVertexBuffer { slot: 0, buffer: mesh.vertex_buffer },
                        );
                        actions.push(PassAction::SetVertexBuffer { slot: 1, buffer: group.buffer });
                        actions.push(PassAction::SetIndexBuffer { buffer: mesh.index_buffer });
                        actions.push(
                            PassAction::DrawIndexed {
                                index_count: mesh.index_count,
                                instance_count: group.count,
                            },
                        );
                    },
                    _ => {},
                }
            },
            None => {},
        }
        proof {
            assert(actions@ =~= spec_windows_prefix(*ctx, mesh, group, i as int + 1));
        }
        i = i + 1;
    }
    actions
}

/// Law: an empty frame must not draw.  When no instance group was
/// extracted this frame, the surface node records nothing at all — no
/// pass begins and no draw is issued — whatever else the context holds.
/// With the extraction law on totals, a frame of zero entities has zero
/// groups, so this covers the empty round trip.
pub proof fn lemma_empty_frame_draws_nothing(ctx: FrameContext)
    requires
        ctx.groups@.len() == 0,
    ensures
        spec_surface_actions(ctx) == Seq::<PassAction>::empty(),
{
}

/// Run a node: the execute node always invokes the subgraph, the surface
/// node records its pass actions.
pub fn run_node(node: &FrameGraphNode, ctx: &FrameContext) -> (out: NodeOutput)
    requires
        ctx_wf(*ctx),
    ensures
        *node is Execute ==> out is RunSubgraph && out->RunSubgraph_subgraph
            == crate::graph::APPLIER_SUBGRAPH,
        *node is SurfaceDraw ==> out is Pass && out->Pass_actions@ == spec_surface_actions(*ctx),
{
    match node {
        FrameGraphNode::Execute => NodeOutput::RunSubgraph {
            subgraph: crate::graph::APPLIER_SUBGRAPH,
        },
        FrameGraphNode::SurfaceDraw => NodeOutput::Pass { actions: run_surface_node(ctx) },
    }
}

} // verus!
