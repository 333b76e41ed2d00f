use applier::bind_group::{
    camera_bind_group_layout, material_bind_group_layout, BindGroupCache, BindGroupKey,
    BindingType,
};
use applier::buffer::GpuBuffer;
use applier::error::NotReady;
use applier::extract::{ExtractedWindow, MeshHandle, MeshInstances};
use applier::instance::{Instance, Rotation, Vec3};
use applier::mesh::{Mesh, Vertex};
use applier::pipeline::{
    applier_pipeline_descriptor, PipelineRegistry, TextureFormat,
};
use applier::prepare::{
    depth_texture_descriptor, prepare_bind_groups, prepare_buffers, prepare_gpu_mesh,
    DepthTextureDescriptor, InstanceBuffers,
};

fn key(layout: u64, resources: &[u64]) -> BindGroupKey {
    BindGroupKey { layout, resources: resources.to_vec() }
}

fn inst(x: i64) -> Instance {
    Instance { position: Vec3 { x, y: 0, z: 0 }, rotation: Rotation::Identity }
}

#[test]
fn buffer_read_before_upload_is_not_ready() {
    let buf: GpuBuffer<u32> = GpuBuffer::new();
    assert_eq!(buf.device_contents(), Err(NotReady));
    assert_eq!(buf.device_writes(), 0);
}

#[test]
fn buffer_read_after_write_without_upload_is_not_ready() {
    let mut buf: GpuBuffer<u32> = GpuBuffer::new();
    buf.write(vec![1, 2, 3]);
    assert_eq!(buf.device_contents(), Err(NotReady));
}

#[test]
fn buffer_upload_mirrors_staging() {
    let mut buf: GpuBuffer<u32> = GpuBuffer::new();
    buf.write(vec![7, 8]);
    assert!(buf.upload());
    assert_eq!(buf.device_contents().unwrap(), &vec![7, 8]);
    assert_eq!(buf.staging(), &vec![7, 8]);
    assert_eq!(buf.device_writes(), 1);
}

#[test]
fn upload_twice_with_unchanged_staging_writes_once() {
    let mut buf: GpuBuffer<u32> = GpuBuffer::new();
    buf.write(vec![4, 5, 6]);
    assert!(buf.upload());
    assert!(!buf.upload());
    assert_eq!(buf.device_writes(), 1);
    assert_eq!(buf.device_contents().unwrap(), &vec![4, 5, 6]);
}

#[test]
fn rewrite_then_upload_writes_again() {
    let mut buf: GpuBuffer<u32> = GpuBuffer::new();
    buf.write(vec![1]);
    assert!(buf.upload());
    buf.write(vec![2]);
    assert_eq!(buf.device_contents(), Err(NotReady));
    assert!(buf.upload());
    assert_eq!(buf.device_writes(), 2);
    assert_eq!(buf.device_contents().unwrap(), &vec![2]);
}

#[test]
fn device_capacity_grows_only_when_insufficient() {
    let mut buf: GpuBuffer<u32> = GpuBuffer::new();
    assert_eq!(buf.device_capacity(), 0);
    buf.write(vec![1, 2, 3]);
    buf.upload();
    assert_eq!(buf.device_capacity(), 3);
    // A smaller upload reuses the allocation.
    buf.write(vec![9]);
    buf.upload();
    assert_eq!(buf.device_capacity(), 3);
    assert_eq!(buf.device_contents().unwrap(), &vec![9]);
    // A larger upload reallocates.
    buf.write(vec![1, 2, 3, 4, 5]);
    buf.upload();
    assert_eq!(buf.device_capacity(), 5);
}

#[test]
fn bind_group_not_ready_until_texture_resident() {
    let mut cache = BindGroupCache::new();
    let resident_nothing: Vec<u64> = vec![];
    let r = cache.get_or_build(key(1, &[10, 11]), &resident_nothing);
    assert_eq!(r, Err(NotReady));
    assert_eq!(cache.builds(), 0);

    let resident_all = vec![10, 11];
    let built = cache.get_or_build(key(1, &[10, 11]), &resident_all).unwrap();
    assert_eq!(cache.builds(), 1);

    let again = cache.get_or_build(key(1, &[10, 11]), &resident_all).unwrap();
    assert_eq!(again, built);
    assert_eq!(cache.builds(), 1);
}

#[test]
fn bind_group_partial_residency_is_not_ready() {
    let mut cache = BindGroupCache::new();
    let resident = vec![10];
    assert_eq!(cache.get_or_build(key(1, &[10, 11]), &resident), Err(NotReady));
    assert_eq!(cache.builds(), 0);
}

#[test]
fn bind_groups_with_distinct_keys_are_distinct() {
    let mut cache = BindGroupCache::new();
    let resident = vec![10, 11, 12];
    let a = cache.get_or_build(key(1, &[10]), &resident).unwrap();
    let b = cache.get_or_build(key(1, &[11]), &resident).unwrap();
    let c = cache.get_or_build(key(2, &[10]), &resident).unwrap();
    assert_ne!(a, b);
    assert_ne!(a, c);
    assert_eq!(cache.builds(), 3);
}

#[test]
fn bind_group_stays_cached_while_texture_never_changes() {
    let mut cache = BindGroupCache::new();
    let resident = vec![10, 11];
    let first = cache.get_or_build(key(1, &[10, 11]), &resident).unwrap();
    for _ in 0..5 {
        assert_eq!(cache.get_or_build(key(1, &[10, 11]), &resident).unwrap(), first);
    }
    assert_eq!(cache.builds(), 1);
}

#[test]
fn bind_group_rebuilds_after_explicit_invalidation() {
    let mut cache = BindGroupCache::new();
    let resident = vec![10, 11];
    let first = cache.get_or_build(key(1, &[10, 11]), &resident).unwrap();
    assert_eq!(cache.builds(), 1);

    // The texture behind resource 10 changes mid-run; the dependent bind
    // group must be invalidated explicitly and is then rebuilt once.
    cache.invalidate(&key(1, &[10, 11]));
    let second = cache.get_or_build(key(1, &[10, 11]), &resident).unwrap();
    assert_ne!(second, first);
    assert_eq!(cache.builds(), 2);
    assert_eq!(cache.get_or_build(key(1, &[10, 11]), &resident).unwrap(), second);
    assert_eq!(cache.builds(), 2);
}

#[test]
fn invalidating_unknown_key_changes_nothing() {
    let mut cache = BindGroupCache::new();
    let resident = vec![10];
    let h = cache.get_or_build(key(1, &[10]), &resident).unwrap();
    cache.invalidate(&key(9, &[99]));
    assert_eq!(cache.get_or_build(key(1, &[10]), &resident).unwrap(), h);
    assert_eq!(cache.builds(), 1);
}

#[test]
fn camera_layout_is_one_uniform_slot() {
    let l = camera_bind_group_layout();
    assert_eq!(l.entries.len(), 1);
    assert_eq!(l.entries[0].binding, 0);
    assert_eq!(l.entries[0].ty, BindingType::UniformBuffer);
    assert!(l.entries[0].visibility.vertex);
    assert!(l.entries[0].visibility.fragment);
}

#[test]
fn material_layout_is_texture_then_sampler() {
    let l = material_bind_group_layout();
    assert_eq!(l.entries.len(), 2);
    assert_eq!(l.entries[0].binding, 0);
    assert_eq!(l.entries[0].ty, BindingType::Texture);
    assert_eq!(l.entries[1].binding, 1);
    assert_eq!(l.entries[1].ty, BindingType::Sampler);
    assert!(!l.entries[0].visibility.vertex);
    assert!(l.entries[0].visibility.fragment);
}

#[test]
fn pipeline_resolves_only_after_compilation() {
    let mut registry: PipelineRegistry<u32> = PipelineRegistry::new();
    let h = registry.register(42);
    assert_eq!(h.id, 0);
    assert!(registry.resolve(h).is_none());
    registry.mark_compiled(h);
    assert_eq!(registry.resolve(h), Some(&42));
    assert_eq!(registry.len(), 1);
}

#[test]
fn pipeline_descriptor_matches_plugin_state() {
    let d = applier_pipeline_descriptor(7, 100, 200);
    assert_eq!(d.shader, 7);
    assert_eq!(d.layouts, vec![100, 200]);
    assert_eq!(d.buffers.len(), 2);
    assert_eq!(d.buffers[0].array_stride, 20);
    assert_eq!(d.buffers[1].array_stride, 64);
    assert_eq!(d.target_format, TextureFormat::Bgra8UnormSrgb);
    assert!(d.cull_back_faces);
    let depth = d.depth.unwrap();
    assert_eq!(depth.format, TextureFormat::Depth32Float);
    assert!(depth.depth_write_enabled);
    assert!(depth.compare_less);
}

#[test]
fn depth_texture_follows_window() {
    let d = depth_texture_descriptor(&ExtractedWindow { physical_width: 800, physical_height: 600 });
    let expected = DepthTextureDescriptor {
        width: 800,
        height: 600,
        depth_or_array_layers: 1,
        mip_level_count: 1,
        sample_count: 1,
        format: TextureFormat::Depth32Float,
        usage_render_attachment: true,
        usage_texture_binding: true,
        clear_depth: applier::color::Frac { num: 1, den: 1 },
    };
    assert_eq!(d, expected);
}

#[test]
fn prepare_gpu_mesh_uploads_both_stages() {
    let mesh = Mesh {
        vertices: vec![Vertex { position: [1, 2, 3], tex_coords: [4, 5] }],
        indices: vec![0, 0, 0],
    };
    let gpu = prepare_gpu_mesh(&mesh);
    assert_eq!(gpu.vertex_buffer.device_contents().unwrap(), &mesh.vertices);
    assert_eq!(gpu.index_buffer.device_contents().unwrap(), &mesh.indices);
    assert_eq!(gpu.vertex_buffer.device_writes(), 1);
    assert_eq!(gpu.index_buffer.device_writes(), 1);
}

#[test]
fn prepare_buffers_uploads_and_groups() {
    let mut vertex_buffer: GpuBuffer<Vertex> = GpuBuffer::new();
    vertex_buffer.write(vec![Vertex { position: [0, 0, 0], tex_coords: [0, 0] }]);
    let mut index_buffer: GpuBuffer<u32> = GpuBuffer::new();
    index_buffer.write(vec![0]);
    let mut camera_buffer = applier::camera::CameraBuffer::new();
    let mut instance_buffer: GpuBuffer<Instance> = GpuBuffer::new();
    let instances = vec![inst(1), inst(2)];
    let mut instance_buffers = InstanceBuffers::new();
    let a = MeshHandle { id: 1 };
    let b = MeshHandle { id: 2 };
    let mesh_instances = MeshInstances {
        groups: vec![(a, vec![inst(10), inst(11)]), (b, vec![inst(20)])],
    };

    prepare_buffers(
        &mut vertex_buffer,
        &mut index_buffer,
        &mut camera_buffer,
        &mut instance_buffer,
        &instances,
        &mut instance_buffers,
        &mesh_instances,
    );

    assert_eq!(vertex_buffer.device_writes(), 1);
    assert_eq!(index_buffer.device_writes(), 1);
    assert_eq!(instance_buffer.device_contents().unwrap(), &instances);
    assert_eq!(instance_buffers.bufs.len(), 2);
    assert_eq!(instance_buffers.bufs[0].0, a);
    assert_eq!(instance_buffers.bufs[0].1.device_contents().unwrap(), &vec![inst(10), inst(11)]);
    assert_eq!(instance_buffers.bufs[1].0, b);
    assert_eq!(instance_buffers.bufs[1].1.device_contents().unwrap(), &vec![inst(20)]);

    // A second frame with unchanged instances performs no device write
    // anywhere: not on the flat instance buffer, not on the keyed
    // per-mesh buffers, not on the shared buffers.
    prepare_buffers(
        &mut vertex_buffer,
        &mut index_buffer,
        &mut camera_buffer,
        &mut instance_buffer,
        &instances,
        &mut instance_buffers,
        &mesh_instances,
    );
    assert_eq!(instance_buffers.bufs.len(), 2);
    assert_eq!(instance_buffer.device_writes(), 1);
    assert_eq!(instance_buffers.bufs[0].1.device_writes(), 1);
    assert_eq!(instance_buffers.bufs[1].1.device_writes(), 1);
    assert_eq!(vertex_buffer.device_writes(), 1);

    // A frame whose instances changed restages and writes exactly the
    // buffers that changed.
    let moved = vec![inst(1), inst(3)];
    let mesh_instances_moved = MeshInstances {
        groups: vec![(a, vec![inst(12)]), (b, vec![inst(20)])],
    };
    prepare_buffers(
        &mut vertex_buffer,
        &mut index_buffer,
        &mut camera_buffer,
        &mut instance_buffer,
        &moved,
        &mut instance_buffers,
        &mesh_instances_moved,
    );
    assert_eq!(instance_buffer.device_writes(), 2);
    assert_eq!(instance_buffer.device_contents().unwrap(), &moved);
    assert_eq!(instance_buffers.bufs[0].1.device_writes(), 2);
    assert_eq!(instance_buffers.bufs[0].1.device_contents().unwrap(), &vec![inst(12)]);
    assert_eq!(instance_buffers.bufs[1].1.device_writes(), 1);
}

#[test]
fn prepare_bind_groups_builds_material_then_camera() {
    let mut cache = BindGroupCache::new();
    let resident = vec![10, 11, 20];
    let material_key = key(1, &[10, 11]);
    let camera_key = key(2, &[20]);
    let (m, c) = prepare_bind_groups(&mut cache, material_key, camera_key, &resident);
    let m = m.unwrap();
    let c = c.unwrap();
    assert_ne!(m, c);
    assert_eq!(cache.builds(), 2);

    let (m2, c2) = prepare_bind_groups(&mut cache, key(1, &[10, 11]), key(2, &[20]), &resident);
    assert_eq!(m2.unwrap(), m);
    assert_eq!(c2.unwrap(), c);
    assert_eq!(cache.builds(), 2);
}
