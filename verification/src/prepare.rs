//! The per-frame prepare phase.
//!
//! After extraction, preparation mirrors every staged buffer to the
//! device — the shared vertex and index buffers, the camera uniform, the
//! flat instance buffer, and one instance buffer per extracted mesh
//! group, created on first sight of its handle and reused afterwards —
//! then builds whatever bind groups are buildable.  The depth texture is
//! re-described from the extracted window geometry.

use vstd::prelude::*;

use crate::bind_group::{spec_get_or_build, BindGroupCache, BindGroupHandle, BindGroupKey};
use crate::buffer::{
    copy_contents, spec_empty_buffer, spec_restage, spec_upload, spec_write, GpuBuffer,
    GpuBufferModel,
};
use crate::camera::CameraBuffer;
use crate::color::{depth_clear_value, spec_depth_clear, Frac};
use crate::error::NotReady;
use crate::extract::{ExtractedWindow, MeshHandle, MeshInstances};
use crate::instance::Instance;
use crate::mesh::{Mesh, Vertex};
use crate::pipeline::TextureFormat;

verus! {

/// A mesh mirrored onto the device: its vertex and index buffer stages.
pub struct ApplierGpuMesh {
    pub vertex_buffer: GpuBuffer<Vertex>,
    pub index_buffer: GpuBuffer<u32>,
}

/// Stage a loaded mesh and mirror it to the device: both stages hold the
/// mesh's contents, uploaded once.
pub fn prepare_gpu_mesh(mesh: &Mesh) -> (g: ApplierGpuMesh)
    ensures
        g.vertex_buffer@ == spec_upload(spec_write(spec_empty_buffer::<Vertex>(), mesh.vertices@)),
        g.index_buffer@ == spec_upload(spec_write(spec_empty_buffer::<u32>(), mesh.indices@)),
{
    let mut vertex_buffer: GpuBuffer<Vertex> = GpuBuffer::new();
    vertex_buffer.write(copy_contents(&mesh.vertices));
    vertex_buffer.upload();
    let mut index_buffer: GpuBuffer<u32> = GpuBuffer::new();
    index_buffer.write(copy_contents(&mesh.indices));
    index_buffer.upload();
    ApplierGpuMesh { vertex_buffer, index_buffer }
}

/// The per-mesh instance buffer stages, keyed by mesh handle.
pub struct InstanceBuffers {
    pub bufs: Vec<(MeshHandle, GpuBuffer<Instance>)>,
}

impl View for InstanceBuffers {
    type V = Seq<(MeshHandle, GpuBufferModel<Instance>)>;

    open spec fn view(&self) -> Seq<(MeshHandle, GpuBufferModel<Instance>)> {
        Seq::new(self.bufs@.len(), |i: int| (self.bufs@[i].0, self.bufs@[i].1@))
    }
}

impl InstanceBuffers {
    /// No per-mesh buffers yet.
    pub fn new() -> (b: Self)
        ensures
            b@ =~= Seq::<(MeshHandle, GpuBufferModel<Instance>)>::empty(),
    {
        InstanceBuffers { bufs: Vec::new() }
    }
}

/// Whether some buffer is keyed by the handle.
pub open spec fn spec_has_buf(
    bufs: Seq<(MeshHandle, GpuBufferModel<Instance>)>,
    h: MeshHandle,
) -> bool {
    exists|j: int| 0 <= j < bufs.len() && bufs[j].0 == h
}

/// The index of the buffer keyed by the handle (meaningful when it exists
/// and keys are unique).
pub open spec fn spec_buf_index(
    bufs: Seq<(MeshHandle, GpuBufferModel<Instance>)>,
    h: MeshHandle,
) -> int {
    choose|j: int| 0 <= j < bufs.len() && bufs[j].0 == h
}

/// Whether no two buffers share a key.
pub open spec fn spec_buf_keys_unique(bufs: Seq<(MeshHandle, GpuBufferModel<Instance>)>) -> bool {
    forall|i: int, j: int| 0 <= i < j < bufs.len() ==> bufs[i].0 != bufs[j].0
}

/// One group prepared into the keyed stages: its handle's buffer — a
/// fresh one on first sight — restaged with the group's instances only
/// if they changed, then mirrored to the device.  A group whose
/// instances equal what its clean buffer already staged performs no
/// device write.
pub open spec fn spec_prepare_group(
    bufs: Seq<(MeshHandle, GpuBufferModel<Instance>)>,
    h: MeshHandle,
    insts: Seq<Instance>,
) -> Seq<(MeshHandle, GpuBufferModel<Instance>)> {
    if spec_has_buf(bufs, h) {
        let j = spec_buf_index(bufs, h);
        bufs.update(j, (h, spec_upload(spec_restage(bufs[j].1, insts))))
    } else {
        bufs.push((h, spec_upload(spec_restage(spec_empty_buffer::<Instance>(), insts))))
    }
}

/// The first `n` groups prepared in order.
pub open spec fn spec_prepare_groups(
    bufs: Seq<(MeshHandle, GpuBufferModel<Instance>)>,
    groups: Seq<(MeshHandle, Seq<Instance>)>,
    n: int,
) -> Seq<(MeshHandle, GpuBufferModel<Instance>)>
    decreases n,
{
    if n <= 0 {
        bufs
    } else {
        spec_prepare_group(
            spec_prepare_groups(bufs, groups, n - 1),
            groups[n - 1].0,
            groups[n - 1].1,
        )
    }
}

/// Whether the handle keys one of the first `n` groups.
pub open spec fn spec_key_in_prefix(
    groups: Seq<(MeshHandle, Seq<Instance>)>,
    n: int,
    h: MeshHandle,
) -> bool {
    exists|t: int| 0 <= t < n && groups[t].0 == h
}

/// Whether two instance lists hold the same instances in the same order.
fn instances_equal(a: &Vec<Instance>, b: &Vec<Instance>) -> (r: bool)
    ensures
        r == (a@ == b@),
{
    if a.len() != b.len() {
        return false;
    }
    let mut i: usize = 0;
    while i < a.len()
        invariant
            i <= a.len(),
            a.len() == b.len(),
            forall|t: int| 0 <= t < i ==> a@[t] == b@[t],
        decreases a.len() - i,
    {
        if a[i] != b[i] {
            return false;
        }
        i = i + 1;
    }
    proof {
        assert(a@ =~= b@);
    }
    true
}

/// The index of the first buffer keyed by `h`, if any.
fn find_buf(bufs: &Vec<(MeshHandle, GpuBuffer<Instance>)>, h: MeshHandle) -> (r: Option<usize>)
    ensures
        match r {
            Some(j) => j < bufs@.len() && bufs@[j as int].0 == h,
            None => forall|t: int| 0 <= t < bufs@.len() ==> bufs@[t].0 != h,
        },
{
    let mut i: usize = 0;
    while i < bufs.len()
        invariant
            i <= bufs.len(),
            forall|t: int| 0 <= t < i ==> bufs@[t].0 != h,
        decreases bufs.len() - i,
    {
        if bufs[i].0.id == h.id {
            return Some(i);
        }
        i = i + 1;
    }
    None
}

/// Mirror every stage to the device: the shared vertex and index
/// buffers and the camera uniform upload as they are; the flat instance
/// buffer and each extracted mesh group's keyed buffer — created on
/// first sight — are restaged only when this frame's instances differ
/// from what they already stage, then uploaded.  A frame whose instances
/// are unchanged performs no device write, and buffers keyed by a handle
/// outside this frame's groups are left exactly as they were.
pub fn prepare_buffers(
    vertex_buffer: &mut GpuBuffer<Vertex>,
    index_buffer: &mut GpuBuffer<u32>,
    camera_buffer: &mut CameraBuffer,
    instance_buffer: &mut GpuBuffer<Instance>,
    instances: &Vec<Instance>,
    instance_buffers: &mut InstanceBuffers,
    mesh_instances: &MeshInstances,
)
    requires
        old(vertex_buffer)@.device_writes < u64::MAX,
        old(index_buffer)@.device_writes < u64::MAX,
        old(camera_buffer).buf@.device_writes < u64::MAX,
        old(instance_buffer)@.device_writes < u64::MAX,
        spec_buf_keys_unique(old(instance_buffers)@),
        crate::extract::spec_keys_unique(mesh_instances@),
        forall|j: int|
            0 <= j < old(instance_buffers)@.len() ==> (#[trigger] old(
                instance_buffers,
            )@[j]).1.device_writes < u64::MAX,
    ensures
        final(vertex_buffer)@ == spec_upload(old(vertex_buffer)@),
        final(index_buffer)@ == spec_upload(old(index_buffer)@),
        final(camera_buffer).buf@ == spec_upload(old(camera_buffer).buf@),
        final(camera_buffer).layout_ready == old(camera_buffer).layout_ready,
        final(camera_buffer).bind_group_ready == old(camera_buffer).bind_group_ready,
        final(instance_buffer)@ == spec_upload(spec_restage(old(instance_buffer)@, instances@)),
        final(instance_buffers)@ == spec_prepare_groups(
            old(instance_buffers)@,
            mesh_instances@,
            mesh_instances@.len() as int,
        ),
{
    vertex_buffer.upload();
    index_buffer.upload();
    camera_buffer.buf.upload();
    if !instances_equal(instances, instance_buffer.staging()) {
        instance_buffer.write(copy_contents(instances));
    }
    instance_buffer.upload();

    let ghost bufs0 = instance_buffers@;
    let ghost groups = mesh_instances@;
    let mut gi: usize = 0;
    while gi < mesh_instances.groups.len()
        invariant
            gi <= mesh_instances.groups.len(),
            groups == mesh_instances@,
            groups.len() == mesh_instances.groups.len(),
            bufs0 == old(instance_buffers)@,
            spec_buf_keys_unique(bufs0),
            crate::extract::spec_keys_unique(groups),
            forall|j: int|
                0 <= j < bufs0.len() ==> (#[trigger] bufs0[j]).1.device_writes < u64::MAX,
            instance_buffers@ == spec_prepare_groups(bufs0, groups, gi as int),
            spec_buf_keys_unique(instance_buffers@),
            instance_buffers@.len() >= bufs0.len(),
            forall|j: int|
                0 <= j < instance_buffers@.len() && !spec_key_in_prefix(
                    groups,
                    gi as int,
                    (#[trigger] instance_buffers@[j]).0,
                ) ==> j < bufs0.len() && instance_buffers@[j] == bufs0[j],
        decreases mesh_instances.groups.len() - gi,
    {
        let h = mesh_instances.groups[gi].0;
        let ghost cur = instance_buffers@;
        proof {
            assert(groups[gi as int].0 == h);
            assert(groups[gi as int].1 == mesh_instances.groups@[gi as int].1@);
            assert(!spec_key_in_prefix(groups, gi as int, h)) by {
                assert(forall|t: int|
                    0 <= t < gi ==> #[trigger] groups[t].0 != groups[gi as int].0);
            }
        }
        match find_buf(&instance_buffers.bufs, h) {
            Some(j) => {
                proof {
                    assert(cur[j as int].0 == h);
                    assert(spec_has_buf(cur, h));
                    let cj = spec_buf_index(cur, h);
                    assert(0 <= cj < cur.len() && cur[cj].0 == h);
                    if cj != j as int {
                        if cj < j as int {
                            assert(cur[cj].0 != cur[j as int].0);
                        } else {
                            assert(cur[j as int].0 != cur[cj].0);
                        }
                    }
                    assert(cj == j as int);
                    assert(cur[j as int] == bufs0[j as int]);
                }
                let mut pair = instance_buffers.bufs.remove(j);
                if !instances_equal(&mesh_instances.groups[gi].1, pair.1.staging()) {
                    pair.1.write(copy_contents(&mesh_instances.groups[gi].1));
                }
                pair.1.upload();
                instance_buffers.bufs.insert(j, pair);
                proof {
                    assert(instance_buffers@ =~= spec_prepare_group(
                        cur,
                        h,
                        groups[gi as int].1,
                    ));
                }
            },
            None => {
                proof {
                    assert(!spec_has_buf(cur, h));
                }
                let mut fresh: GpuBuffer<Instance> = GpuBuffer::new();
                if !instances_equal(&mesh_instances.groups[gi].1, fresh.staging()) {
                    fresh.write(copy_contents(&mesh_instances.groups[gi].1));
                }
                fresh.upload();
                instance_buffers.bufs.push((h, fresh));
                proof {
                    assert(instance_buffers@ =~= spec_prepare_group(
                        cur,
                        h,
                        groups[gi as int].1,
                    ));
                }
            },
        }
        proof {
            assert(spec_buf_keys_unique(instance_buffers@)) by {
                assert(forall|t: int|
                    0 <= t < cur.len() ==> (#[trigger] instance_buffers@[t]).0 == cur[t].0);
            }
            assert forall|j: int|
                0 <= j < instance_buffers@.len() && !spec_key_in_prefix(
                    groups,
                    gi as int + 1,
                    (#[trigger] instance_buffers@[j]).0,
                ) implies j < bufs0.len() && instance_buffers@[j] == bufs0[j] by {
                if j < cur.len() {
                    assert(instance_buffers@[j] == cur[j] || instance_buffers@[j].0 == h);
                }
            };
        }
        gi = gi + 1;
    }
    proof {
        assert(instance_buffers@ == spec_prepare_groups(
            bufs0,
            groups,
            groups.len() as int,
        ));
    }
}

/// Build this frame's bind groups lazily: the material group first, the
/// camera group second, each served from the cache when present, built
/// once when its resources are resident, and not ready otherwise.
pub fn prepare_bind_groups(
    cache: &mut BindGroupCache,
    material_key: BindGroupKey,
    camera_key: BindGroupKey,
    resident: &Vec<u64>,
) -> (r: (Result<BindGroupHandle, NotReady>, Result<BindGroupHandle, NotReady>))
    requires
        old(cache)@.next_handle < u64::MAX - 1,
        old(cache)@.builds < u64::MAX - 1,
    ensures
        r.0 == spec_get_or_build(old(cache)@, material_key@, resident@).1,
        r.1 == spec_get_or_build(
            spec_get_or_build(old(cache)@, material_key@, resident@).0,
            camera_key@,
            resident@,
        ).1,
        final(cache)@ == spec_get_or_build(
            spec_get_or_build(old(cache)@, material_key@, resident@).0,
            camera_key@,
            resident@,
        ).0,
{
    let material = cache.get_or_build(material_key, resident);
    let camera = cache.get_or_build(camera_key, resident);
    (material, camera)
}

/// How the depth texture must be created for a window: one depth layer
/// and sample at the window's size, in the depth format, usable as a
/// render attachment and for binding, cleared to the far plane.
#[derive(Clone, Copy, Debug, PartialEq, Eq, Structural)]
pub struct DepthTextureDescriptor {
    pub width: u32,
    pub height: u32,
    pub depth_or_array_layers: u32,
    pub mip_level_count: u32,
    pub sample_count: u32,
    pub format: TextureFormat,
    pub usage_render_attachment: bool,
    pub usage_texture_binding: bool,
    /// The value the depth attachment clears to.
    pub clear_depth: Frac,
}

/// Describe the depth texture for the extracted window.
pub fn depth_texture_descriptor(window: &ExtractedWindow) -> (d: DepthTextureDescriptor)
    ensures
        d == (DepthTextureDescriptor {
            width: window.physical_width,
            height: window.physical_height,
            depth_or_array_layers: 1,
            mip_level_count: 1,
            sample_count: 1,
            format: TextureFormat::Depth32Float,
            usage_render_attachment: true,
            usage_texture_binding: true,
            clear_depth: spec_depth_clear(),
        }),
{
    DepthTextureDescriptor {
        width: window.physical_width,
        height: window.physical_height,
        depth_or_array_layers: 1,
        mip_level_count: 1,
        sample_count: 1,
        format: TextureFormat::Depth32Float,
        usage_render_attachment: true,
        usage_texture_binding: true,
        clear_depth: depth_clear_value(),
    }
}

} // verus!
