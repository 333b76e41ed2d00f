use applier::bind_group::BindGroupHandle;
use applier::camera::{handle_camera_input, CameraBuffer, CameraEvent, CameraUniform};
use applier::color::{derive_clear_color, Frac};
use applier::error::HostContractError;
use applier::extract::{
    apply_cursor_events, extract_material, extract_mesh_entities, extract_mouse_position,
    extract_window, ExtractedWindow, MaterialRef, MeshHandle, MousePosition,
};
use applier::graph::{
    install_applier_graph, FrameGraph, APPLIER_SUBGRAPH, CAMERA_DRIVER_NODE, EXECUTE_NODE,
    SURFACE_NODE,
};
use applier::instance::{
    default_grid_config, make_instance_grid, GridConfig, Instance, Rotation, Vec3,
    INSTANCE_DISPLACEMENT, NUM_INSTANCES_PER_ROW, SPACE_BETWEEN,
};
use applier::node::{
    run_node, run_surface_node, FrameContext, FrameGraphNode, GpuMeshEntry, InstanceGroup,
    NodeOutput, PassAction, SurfaceTarget,
};
use applier::pipeline::PipelineHandle;

fn entity(mesh: u64, x: i64) -> (MeshHandle, Instance) {
    (
        MeshHandle { id: mesh },
        Instance { position: Vec3 { x, y: 0, z: 0 }, rotation: Rotation::Identity },
    )
}

#[test]
fn clear_color_follows_cursor() {
    let c = derive_clear_color(160, 90, 640, 360);
    assert_eq!(c.r, Frac { num: 160, den: 640 });
    assert_eq!(c.g, Frac { num: 90, den: 360 });
    assert_eq!(c.b, Frac { num: 480, den: 640 });
    assert_eq!(c.a, Frac { num: 1, den: 1 });
}

#[test]
fn clear_color_at_origin_corner() {
    let c = derive_clear_color(0, 0, 640, 360);
    assert_eq!(c.r, Frac { num: 0, den: 640 });
    assert_eq!(c.g, Frac { num: 0, den: 360 });
    assert_eq!(c.b, Frac { num: 640, den: 640 });
}

#[test]
fn clear_color_at_far_corner() {
    let c = derive_clear_color(640, 360, 640, 360);
    assert_eq!(c.r, Frac { num: 640, den: 640 });
    assert_eq!(c.g, Frac { num: 360, den: 360 });
    assert_eq!(c.b, Frac { num: 0, den: 640 });
}

#[test]
fn cursor_events_last_one_wins() {
    let mut cur = MousePosition { x: 1, y: 2 };
    apply_cursor_events(
        &mut cur,
        &vec![MousePosition { x: 5, y: 6 }, MousePosition { x: 9, y: 10 }],
    );
    assert_eq!(cur, MousePosition { x: 9, y: 10 });

    let before = cur;
    apply_cursor_events(&mut cur, &vec![]);
    assert_eq!(cur, before);
}

#[test]
fn mouse_and_window_extraction_copy() {
    let mut render = MousePosition::default();
    extract_mouse_position(&mut render, &MousePosition { x: 3, y: 4 });
    assert_eq!(render, MousePosition { x: 3, y: 4 });

    let mut win = ExtractedWindow::default();
    extract_window(&mut win, 1280, 720);
    assert_eq!(win, ExtractedWindow { physical_width: 1280, physical_height: 720 });
}

#[test]
fn material_extracted_once() {
    let mut extracted: Option<MaterialRef> = None;
    extract_material(&mut extracted, &MaterialRef { image: 5 });
    assert_eq!(extracted, Some(MaterialRef { image: 5 }));
    extract_material(&mut extracted, &MaterialRef { image: 9 });
    assert_eq!(extracted, Some(MaterialRef { image: 5 }));
}

#[test]
fn grouping_partitions_by_mesh_handle() {
    let entities = vec![entity(1, 10), entity(2, 20), entity(1, 11), entity(1, 12), entity(3, 30)];
    let groups = extract_mesh_entities(&entities);
    assert_eq!(groups.groups.len(), 3);
    let total: usize = groups.groups.iter().map(|g| g.1.len()).sum();
    assert_eq!(total, entities.len());
    assert_eq!(groups.groups[0].0, MeshHandle { id: 1 });
    assert_eq!(
        groups.groups[0].1.iter().map(|i| i.position.x).collect::<Vec<i64>>(),
        vec![10, 11, 12]
    );
    assert_eq!(groups.groups[1].0, MeshHandle { id: 2 });
    assert_eq!(groups.groups[1].1.len(), 1);
    assert_eq!(groups.groups[2].0, MeshHandle { id: 3 });
    assert_eq!(groups.groups[2].1.len(), 1);
}

#[test]
fn grouping_of_empty_frame_is_empty() {
    let groups = extract_mesh_entities(&vec![]);
    assert_eq!(groups.groups.len(), 0);
}

#[test]
fn camera_input_maps_keys_to_directions() {
    assert_eq!(handle_camera_input(false, false, false, false), None);
    match handle_camera_input(true, false, false, true) {
        Some(CameraEvent::MoveCamera(d)) => {
            assert!(d.forward);
            assert!(!d.backward);
            assert!(!d.left);
            assert!(d.right);
            assert!(!d.up);
            assert!(!d.down);
        },
        None => panic!("expected a camera event"),
    }
}

#[test]
fn camera_extraction_stages_one_uniform() {
    let mut cam = CameraBuffer::new();
    let uniform = CameraUniform { view_proj: [3; 16] };
    applier::camera::extract_camera(&mut cam, uniform);
    assert_eq!(cam.buf.staging().len(), 1);
    assert_eq!(cam.buf.staging()[0].view_proj, [3; 16]);
    assert!(cam.buf.device_contents().is_err());
}

#[test]
fn camera_bind_group_initialization_is_lazy() {
    let mut cam = CameraBuffer::new();
    assert!(!cam.try_init_bind_group());
    cam.init_bind_group_layout();
    assert!(cam.try_init_bind_group());
    assert!(cam.bind_group_ready);
}

#[test]
fn grid_has_hundred_instances_with_exact_corner() {
    let cfg = default_grid_config();
    assert_eq!(cfg.rows, NUM_INSTANCES_PER_ROW);
    assert_eq!(cfg.spacing, SPACE_BETWEEN);
    assert_eq!(cfg.displacement_x, INSTANCE_DISPLACEMENT);
    let grid = make_instance_grid(cfg);
    assert_eq!(grid.len(), 100);
    let corner = grid[0];
    let expected_pos = Vec3 { x: -5000, y: 0, z: -5000 };
    assert_eq!(corner.position, expected_pos);
    assert_eq!(corner.rotation, Rotation::AxisAngleDeg { axis: expected_pos, angle_deg: 45 });
    // The cell one step in on each axis.
    let cell_1_1 = grid[(1 * 10 + 1) as usize];
    assert_eq!(cell_1_1.position, Vec3 { x: -2000, y: 0, z: -2000 });
}

#[test]
fn grid_center_gets_zero_rotation_default() {
    // A grid whose center cell lands exactly on the origin: the
    // normalized-axis rotation would divide by zero, so the zero-rotation
    // default must be used there.
    let cfg = GridConfig { rows: 11, spacing: 1000, displacement_x: 5000, displacement_z: 5000 };
    let grid = make_instance_grid(cfg);
    assert_eq!(grid.len(), 121);
    let center = grid[(5 * 11 + 5) as usize];
    assert_eq!(center.position, Vec3 { x: 0, y: 0, z: 0 });
    assert_eq!(center.rotation, Rotation::Identity);
    let neighbour = grid[(5 * 11 + 6) as usize];
    assert_ne!(neighbour.rotation, Rotation::Identity);
}

#[test]
fn install_takes_over_the_graph() {
    let mut g = FrameGraph::new();
    g.add_node(CAMERA_DRIVER_NODE);
    let r = install_applier_graph(&mut g);
    assert!(r.is_ok());
    assert_eq!(g.nodes, vec![EXECUTE_NODE]);
    assert_eq!(g.subgraphs.len(), 1);
    assert_eq!(g.subgraphs[0].0, APPLIER_SUBGRAPH);
    assert_eq!(g.subgraphs[0].1, vec![SURFACE_NODE]);
}

#[test]
fn install_without_default_driver_fails_fast() {
    let mut g = FrameGraph::new();
    g.add_node(77);
    let r = install_applier_graph(&mut g);
    assert_eq!(r, Err(HostContractError::MissingDefaultDriver));
    assert_eq!(g.nodes, vec![77]);
    assert_eq!(g.subgraphs.len(), 0);
}

fn ready_context() -> FrameContext {
    FrameContext {
        windows: vec![SurfaceTarget { view: Some(900), width: 640, height: 360 }],
        cursor: MousePosition { x: 160, y: 90 },
        groups: vec![InstanceGroup { mesh: MeshHandle { id: 1 }, buffer: 500, count: 100 }],
        gpu_meshes: vec![GpuMeshEntry {
            mesh: MeshHandle { id: 1 },
            vertex_buffer: 300,
            index_buffer: 301,
            index_count: 36,
        }],
        material_bind_group: Some(BindGroupHandle { id: 0 }),
        camera_bind_group: Some(BindGroupHandle { id: 1 }),
        pipeline: Some(PipelineHandle { id: 0 }),
        depth_view: 901,
    }
}

#[test]
fn surface_node_records_full_pass() {
    let ctx = ready_context();
    let actions = run_surface_node(&ctx);
    let clear = derive_clear_color(160, 90, 640, 360);
    assert_eq!(
        actions,
        vec![
            PassAction::BeginPass {
                view: 900,
                clear,
                depth_view: 901,
                depth_clear: Frac { num: 1, den: 1 },
            },
            PassAction::SetPipeline { pipeline: PipelineHandle { id: 0 } },
            PassAction::SetBindGroup { slot: 0, group: BindGroupHandle { id: 0 } },
            PassAction::SetBindGroup { slot: 1, group: BindGroupHandle { id: 1 } },
            PassAction::SetVertexBuffer { slot: 0, buffer: 300 },
            PassAction::SetVertexBuffer { slot: 1, buffer: 500 },
            PassAction::SetIndexBuffer { buffer: 301 },
            PassAction::DrawIndexed { index_count: 36, instance_count: 100 },
        ]
    );
}

#[test]
fn surface_node_skips_without_instances() {
    let mut ctx = ready_context();
    ctx.groups = vec![];
    assert_eq!(run_surface_node(&ctx), vec![]);
}

#[test]
fn surface_node_skips_while_mesh_not_resident() {
    let mut ctx = ready_context();
    ctx.gpu_meshes = vec![];
    assert_eq!(run_surface_node(&ctx), vec![]);
}

#[test]
fn surface_node_skips_minimized_window() {
    let mut ctx = ready_context();
    ctx.windows = vec![SurfaceTarget { view: None, width: 640, height: 360 }];
    assert_eq!(run_surface_node(&ctx), vec![]);
}

#[test]
fn surface_node_only_clears_while_pipeline_compiles() {
    let mut ctx = ready_context();
    ctx.pipeline = None;
    let actions = run_surface_node(&ctx);
    assert_eq!(actions.len(), 1);
    match actions[0] {
        PassAction::BeginPass { view, depth_view, .. } => {
            assert_eq!(view, 900);
            assert_eq!(depth_view, 901);
        },
        _ => panic!("expected the pass to begin and only clear"),
    }
}

#[test]
fn execute_node_invokes_subgraph() {
    let ctx = ready_context();
    match run_node(&FrameGraphNode::Execute, &ctx) {
        NodeOutput::RunSubgraph { subgraph } => assert_eq!(subgraph, APPLIER_SUBGRAPH),
        NodeOutput::Pass { .. } => panic!("the execute node must hand over to the subgraph"),
    }
    match run_node(&FrameGraphNode::SurfaceDraw, &ctx) {
        NodeOutput::Pass { actions } => assert_eq!(actions.len(), 8),
        NodeOutput::RunSubgraph { .. } => panic!("the surface node must record a pass"),
    }
}
