use particle_sandbox::app::{
    cube_indices, cube_vertices, App, DIMENSIONS, HALF, INITIAL_DELTA, MULTISAMPLE_SAMPLES,
    NEG_HALF, OBJECT_COUNT, WORKGROUP_DIMS,
};
use particle_sandbox::device::{
    BindGroupDescriptor, BindGroupEntry, BindGroupId, BindGroupLayoutDescriptor,
    BindGroupLayoutEntry, BufferBindingType, BufferDescriptor, BufferId, BufferUsages, ShaderStages,
};
use particle_sandbox::frame::{EventResponse, FrameReaction, FrameStep, SurfaceError, WindowEvent};
use particle_sandbox::input::KeyCode;
use particle_sandbox::layout::{ComputePushConstants, WorldInfo};
use particle_sandbox::mesh::Mesh;
use particle_sandbox::pass::{
    AttachmentView, Color, ColorAttachment, ComputeCommand, IndexFormat, LoadOp, RenderCommand,
    StoreOp,
};
use particle_sandbox::pipeline::{Pipeline, PipelineSelector};
use particle_sandbox::surface::SurfaceState;

fn sandbox() -> App {
    App::new(1280, 720, wgpu::TextureFormat::Bgra8UnormSrgb, "default source", "compute source")
}

fn usage(vertex: bool, index: bool, uniform: bool, storage: bool, copy_dst: bool) -> BufferUsages {
    BufferUsages { vertex, index, uniform, storage, copy_dst }
}

#[test]
fn constants_of_the_sandbox() {
    assert_eq!(DIMENSIONS, (1024, 1024, 4));
    assert_eq!(WORKGROUP_DIMS, (8, 8, 1));
    assert_eq!(OBJECT_COUNT, 1024 * 1024 * 4);
    assert_eq!(MULTISAMPLE_SAMPLES, 8);
    assert_eq!(f32::from_bits(HALF), 0.5);
    assert_eq!(f32::from_bits(NEG_HALF), -0.5);
    assert_eq!(f32::from_bits(INITIAL_DELTA), 0.001);
}

#[test]
fn the_cube_has_eight_corners_and_twelve_triangles() {
    let corners: Vec<[f32; 3]> =
        cube_vertices().iter().map(|v| v.position.map(f32::from_bits)).collect();
    assert_eq!(
        corners,
        vec![
            [-0.5, -0.5, -0.5],
            [0.5, -0.5, -0.5],
            [0.5, -0.5, 0.5],
            [-0.5, -0.5, 0.5],
            [-0.5, 0.5, -0.5],
            [0.5, 0.5, -0.5],
            [0.5, 0.5, 0.5],
            [-0.5, 0.5, 0.5],
        ]
    );
    assert_eq!(
        cube_indices(),
        vec![
            0, 1, 2, 0, 2, 3, 4, 6, 5, 4, 7, 6, 0, 5, 1, 0, 4, 5, 3, 2, 6, 3, 6, 7, 3, 4, 0, 3, 7,
            4, 1, 6, 2, 1, 5, 6
        ]
    );
    assert!(Mesh::indices_valid(8, &cube_indices()));
}

#[test]
fn a_new_sandbox_plans_five_buffers() {
    let app = sandbox();
    assert_eq!(
        app.device().buffers(),
        &[
            BufferDescriptor { label: None, size: 96, usage: usage(true, false, false, false, false) },
            BufferDescriptor {
                label: None,
                size: 144,
                usage: usage(false, true, false, false, false)
            },
            BufferDescriptor {
                label: Some("camera_buffer"),
                size: 192,
                usage: usage(false, false, true, false, true)
            },
            BufferDescriptor {
                label: Some("positions_buffer"),
                size: 12 * 4_194_304,
                usage: usage(true, false, false, true, false)
            },
            BufferDescriptor {
                label: Some("velocities_buffer"),
                size: 12 * 4_194_304,
                usage: usage(false, false, false, true, false)
            },
        ]
    );
    assert_eq!(app.cube_mesh().vertex_buffer(), BufferId { index: 0 });
    assert_eq!(app.cube_mesh().index_buffer(), BufferId { index: 1 });
    assert_eq!(app.cube_mesh().vertex_count(), 8);
    assert_eq!(app.cube_mesh().element_count(), 36);
    assert_eq!(app.cube_mesh().indices(), cube_indices().as_slice());
    let corners: Vec<u8> = cube_vertices()
        .iter()
        .flat_map(|v| v.position)
        .flat_map(|word| f32::from_bits(word).to_ne_bytes())
        .collect();
    assert_eq!(app.cube_mesh().vertex_bytes(), corners);
    assert_eq!(app.cube_mesh().vertex_bytes().len(), 96);
    assert_eq!(app.cube_mesh().index_bytes().len(), 144);
    assert_eq!(app.camera_buffer(), BufferId { index: 2 });
    assert_eq!(app.positions_buffer(), BufferId { index: 3 });
    assert_eq!(app.velocities_buffer(), BufferId { index: 4 });
    assert_eq!(app.particle_count(), 4_194_304);
}

#[test]
fn a_new_sandbox_plans_two_bind_groups() {
    let app = sandbox();
    let compute_only = ShaderStages { vertex: false, fragment: false, compute: true };
    let storage = BufferBindingType::Storage { read_only: false };
    assert_eq!(
        app.device().bind_groups(),
        &[
            BindGroupDescriptor {
                label: Some("camera"),
                layout: BindGroupLayoutDescriptor {
                    label: Some("camera"),
                    entries: vec![BindGroupLayoutEntry {
                        binding: 0,
                        visibility: ShaderStages { vertex: true, fragment: false, compute: false },
                        ty: BufferBindingType::Uniform,
                        has_dynamic_offset: false,
                    }],
                },
                entries: vec![BindGroupEntry { binding: 0, buffer: BufferId { index: 2 } }],
            },
            BindGroupDescriptor {
                label: Some("pv_bind_group"),
                layout: BindGroupLayoutDescriptor {
                    label: Some("pv_bind_layout"),
                    entries: vec![
                        BindGroupLayoutEntry {
                            binding: 0,
                            visibility: compute_only,
                            ty: storage,
                            has_dynamic_offset: false
                        },
                        BindGroupLayoutEntry {
                            binding: 1,
                            visibility: compute_only,
                            ty: storage,
                            has_dynamic_offset: false
                        },
                    ],
                },
                entries: vec![
                    BindGroupEntry { binding: 0, buffer: BufferId { index: 3 } },
                    BindGroupEntry { binding: 1, buffer: BufferId { index: 4 } },
                ],
            },
        ]
    );
}

#[test]
fn a_new_sandbox_plans_both_pipelines() {
    let app = App::new(640, 480, wgpu::TextureFormat::Bgra8Unorm, "default source", "compute source");
    let layouts = app.device().bind_groups();
    assert_eq!(app.pipelines().entries().len(), 2);
    assert_eq!(
        *app.pipelines().get(&PipelineSelector::Default),
        Pipeline::Render(App::default_pipeline(
            "default source",
            vec![layouts[0].layout.clone()],
            wgpu::TextureFormat::Bgra8Unorm,
            8
        ))
    );
    assert_eq!(
        *app.pipelines().get(&PipelineSelector::Compute),
        Pipeline::Compute(App::compute_pipeline("compute source", vec![layouts[1].layout.clone()]))
    );
}

#[test]
fn a_new_sandbox_configures_its_surface() {
    let app = App::new(640, 0, wgpu::TextureFormat::Bgra8Unorm, "", "");
    assert_eq!(*app.surface(), SurfaceState::new(640, 1, wgpu::TextureFormat::Bgra8Unorm, 8));
    assert_eq!(app.surface().config.view_format, wgpu::TextureFormat::Bgra8UnormSrgb);
    assert_eq!(app.world_info(), WorldInfo { time: 0, delta: 0.001f32.to_bits() });
}

#[test]
fn update_dispatches_once_over_the_whole_grid() {
    let mut app = sandbox();
    let clock = WorldInfo { time: 2.5f32.to_bits(), delta: 0.016f32.to_bits() };
    let pass = app.update(clock);
    assert_eq!(pass.label, Some("compute_pass"));
    assert_eq!(
        pass.commands,
        vec![
            ComputeCommand::SetPipeline { pipeline: PipelineSelector::Compute },
            ComputeCommand::SetBindGroup { index: 0, group: BindGroupId { index: 1 } },
            ComputeCommand::SetPushConstants {
                offset: 0,
                data: ComputePushConstants { world_info: clock }
            },
            ComputeCommand::DispatchWorkgroups { x: 128, y: 128, z: 4 },
        ]
    );
    assert_eq!(app.world_info(), clock);
}

#[test]
fn render_draws_every_particle_once() {
    let app = sandbox();
    let steps = app.render(Ok(())).unwrap();
    assert_eq!(steps.len(), 5);
    assert_eq!(
        steps[0],
        FrameStep::CreateSurfaceView { format: wgpu::TextureFormat::Bgra8UnormSrgb }
    );
    assert_eq!(steps[1], FrameStep::WriteCameraUniform { buffer: BufferId { index: 2 }, offset: 0 });
    match &steps[2] {
        FrameStep::Submit { pass } => {
            assert_eq!(pass.label, Some("render_pass"));
            assert_eq!(
                pass.color_attachment,
                ColorAttachment {
                    view: AttachmentView::MultisampleFramebuffer,
                    resolve_target: Some(AttachmentView::SurfaceTexture),
                    load: LoadOp::Clear(Color::Black),
                    store: StoreOp::Store,
                }
            );
            assert_eq!(
                pass.commands,
                vec![
                    RenderCommand::SetPipeline { pipeline: PipelineSelector::Default },
                    RenderCommand::SetBindGroup { index: 0, group: BindGroupId { index: 0 } },
                    RenderCommand::SetVertexBuffer { slot: 0, buffer: BufferId { index: 0 } },
                    RenderCommand::SetVertexBuffer { slot: 1, buffer: BufferId { index: 3 } },
                    RenderCommand::SetIndexBuffer {
                        buffer: BufferId { index: 1 },
                        format: IndexFormat::Uint32
                    },
                    RenderCommand::DrawIndexed {
                        first_index: 0,
                        end_index: 36,
                        base_vertex: 0,
                        first_instance: 0,
                        end_instance: 4_194_304,
                    },
                ]
            );
        }
        other => panic!("unexpected step {other:?}"),
    }
    assert_eq!(steps[3], FrameStep::PrePresentNotify);
    assert_eq!(steps[4], FrameStep::Present);
}

#[test]
fn one_update_and_render_cycle() {
    let mut app = sandbox();
    assert_eq!(cube_vertices().len(), 8);
    assert_eq!(app.cube_mesh().element_count(), 36);
    assert_eq!(app.particle_count(), 4_194_304);

    let compute = app.update(WorldInfo { time: 0.016f32.to_bits(), delta: 0.016f32.to_bits() });
    let steps = app.render(Ok(())).unwrap();

    let dispatches = compute
        .commands
        .iter()
        .filter(|c| matches!(c, ComputeCommand::DispatchWorkgroups { .. }))
        .count();
    assert_eq!(dispatches, 1);
    assert!(compute.commands.contains(&ComputeCommand::SetBindGroup {
        index: 0,
        group: BindGroupId { index: 1 }
    }));
    let particles = &app.device().bind_groups()[1];
    assert_eq!(particles.entries[0].buffer, app.positions_buffer());

    let mut draws = Vec::new();
    for step in &steps {
        if let FrameStep::Submit { pass } = step {
            for command in &pass.commands {
                if let RenderCommand::DrawIndexed { first_instance, end_instance, .. } = command {
                    draws.push(end_instance - first_instance);
                }
            }
        }
    }
    assert_eq!(draws, vec![4_194_304]);
}

#[test]
fn render_hands_back_a_failed_acquisition() {
    let app = sandbox();
    for error in [
        SurfaceError::Timeout,
        SurfaceError::Outdated,
        SurfaceError::Lost,
        SurfaceError::OutOfMemory,
        SurfaceError::Other,
    ] {
        assert_eq!(app.render(Err(error)), Err(error));
    }
}

#[test]
fn each_surface_error_has_its_reaction() {
    assert_eq!(SurfaceError::Lost.reaction(), FrameReaction::Reconfigure);
    assert_eq!(SurfaceError::Outdated.reaction(), FrameReaction::Reconfigure);
    assert_eq!(SurfaceError::OutOfMemory.reaction(), FrameReaction::Exit);
    assert_eq!(SurfaceError::Timeout.reaction(), FrameReaction::LogAndContinue);
    assert_eq!(SurfaceError::Other.reaction(), FrameReaction::LogAndContinue);
}

#[test]
fn a_lost_or_outdated_surface_is_configured_to_the_window() {
    for error in [SurfaceError::Lost, SurfaceError::Outdated] {
        let mut app = sandbox();
        assert_eq!(app.react(Err(error), (800, 600)), FrameReaction::Reconfigure);
        assert_eq!(
            *app.surface(),
            SurfaceState::new(800, 600, wgpu::TextureFormat::Bgra8UnormSrgb, 8)
        );
    }
}

#[test]
fn other_outcomes_leave_the_surface_alone() {
    let outcomes = [
        (Ok(()), FrameReaction::Continue),
        (Err(SurfaceError::OutOfMemory), FrameReaction::Exit),
        (Err(SurfaceError::Timeout), FrameReaction::LogAndContinue),
        (Err(SurfaceError::Other), FrameReaction::LogAndContinue),
    ];
    for (outcome, reaction) in outcomes {
        let mut app = sandbox();
        assert_eq!(app.react(outcome, (800, 600)), reaction);
        assert_eq!(app, sandbox());
    }
}

#[test]
fn window_events_have_their_responses() {
    let key = |key, pressed| WindowEvent::KeyboardInput { key, pressed };
    let cases = [
        (WindowEvent::CloseRequested, EventResponse::Exit),
        (key(Some(KeyCode::Escape), true), EventResponse::Exit),
        (key(Some(KeyCode::Escape), false), EventResponse::Ignore),
        (key(Some(KeyCode::KeyF), true), EventResponse::ToggleFullscreen),
        (key(Some(KeyCode::KeyF), false), EventResponse::Ignore),
        (key(Some(KeyCode::KeyW), true), EventResponse::Ignore),
        (key(None, true), EventResponse::Ignore),
        (WindowEvent::RedrawRequested, EventResponse::Redraw),
        (WindowEvent::Other, EventResponse::Ignore),
    ];
    for (event, response) in cases {
        let mut app = sandbox();
        assert_eq!(app.window_event(event), response);
        assert_eq!(app, sandbox());
    }
}

#[test]
fn a_resized_window_configures_the_surface() {
    let mut app = sandbox();
    let response = app.window_event(WindowEvent::Resized { width: 1920, height: 0 });
    assert_eq!(response, EventResponse::Reconfigure);
    assert_eq!(
        *app.surface(),
        SurfaceState::new(1920, 1, wgpu::TextureFormat::Bgra8UnormSrgb, 8)
    );
    let mut direct = sandbox();
    direct.resize(1920, 0);
    assert_eq!(app, direct);
}

#[test]
fn resizing_twice_is_resizing_once() {
    let mut once = sandbox();
    let mut twice = sandbox();
    once.resize(333, 444);
    twice.resize(333, 444);
    twice.resize(333, 444);
    assert_eq!(once, twice);
}

#[test]
fn frames_do_not_pile_up() {
    let mut app = sandbox();
    let first = app.update(WorldInfo { time: 1, delta: 1 });
    let second = app.update(WorldInfo { time: 2, delta: 1 });
    assert_eq!(first.commands.len(), 4);
    assert_eq!(second.commands.len(), 4);
    assert_eq!(app.device().buffers().len(), 5);
    assert_eq!(app.render(Ok(())).unwrap().len(), 5);
    assert_eq!(app.render(Ok(())).unwrap().len(), 5);
}

#[test]
fn the_device_has_room_for_the_push_constants() {
    let requirements = App::device_requirements();
    assert!(requirements.push_constants);
    assert!(requirements.texture_adapter_specific_format_features);
    assert_eq!(requirements.max_push_constant_size, 256);
    assert!(particle_sandbox::layout::PUSH_CONSTANTS_SIZE <= requirements.max_push_constant_size);
}

#[test]
fn the_plan_hangs_together_in_every_state() {
    let mut app = sandbox();
    let mut states = 0;
    loop {
        let buffers = app.device().buffers();
        for group in app.device().bind_groups() {
            assert_eq!(group.entries.len(), group.layout.entries.len());
            for (entry, slot) in group.entries.iter().zip(&group.layout.entries) {
                assert_eq!(entry.binding, slot.binding);
                let usage = buffers[entry.buffer.index].usage;
                match slot.ty {
                    BufferBindingType::Uniform => assert!(usage.uniform),
                    BufferBindingType::Storage { .. } => assert!(usage.storage),
                }
            }
        }
        let positions = buffers[app.positions_buffer().index];
        let velocities = buffers[app.velocities_buffer().index];
        assert_eq!(positions.size, app.particle_count() as u64 * 12);
        assert_eq!(velocities.size, positions.size);
        assert!(positions.usage.vertex && positions.usage.storage);
        assert!(Mesh::indices_valid(app.cube_mesh().vertex_count(), app.cube_mesh().indices()));
        let surface = *app.surface();
        assert!(surface.config.width >= 1 && surface.config.height >= 1);
        assert_eq!(surface.multisample_framebuffer.size.width, surface.config.width);
        assert_eq!(surface.multisample_framebuffer.size.height, surface.config.height);
        assert_eq!(surface.multisample_framebuffer.sample_count, surface.sample_count);
        match app.pipelines().get(&PipelineSelector::Default) {
            Pipeline::Render(pipeline) => {
                assert_eq!(pipeline.multisample_count, surface.sample_count)
            }
            Pipeline::Compute(_) => panic!("the default pipeline renders"),
        }
        assert!(matches!(app.pipelines().get(&PipelineSelector::Compute), Pipeline::Compute(_)));

        states += 1;
        match states {
            1 => {
                app.update(WorldInfo { time: 1, delta: 2 });
            }
            2 => app.resize(0, 0),
            3 => {
                app.react(Err(SurfaceError::Outdated), (1920, 1080));
            }
            4 => {
                app.window_event(WindowEvent::Resized { width: 7, height: 9 });
            }
            _ => break,
        }
    }
    assert_eq!(states, 5);
}
