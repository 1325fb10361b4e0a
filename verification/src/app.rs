//! The frame orchestrator. It owns the plan of every GPU resource of the
//! sandbox and decides, frame by frame, what is recorded and submitted: the
//! compute pass that advances the particles, then the render pass that draws
//! them. Submitting the compute pass of a frame before its render pass is
//! what orders the two on the queue; nothing else does.

use vstd::prelude::*;
use crate::device::{
    label_view,
    BindGroupDescriptor,
    BindGroupEntry,
    BindGroupId,
    BindGroupLayoutDescriptor,
    BindGroupLayoutEntry,
    BindGroupLayoutView,
    BindGroupView,
    BufferBindingType,
    BufferId,
    BufferUsages,
    BufferView,
    DeviceContext,
    DeviceRequirements,
    DeviceView,
    ShaderStages,
};
use crate::frame::{reaction_to, EventResponse, FrameReaction, FrameStep, SurfaceError, WindowEvent};
use crate::input::KeyCode;
use crate::layout::{
    ComputePushConstants,
    DefaultVertex3d,
    lemma_flattened_positions,
    Instance,
    InstanceRepr,
    Vertex,
    VertexBufferLayoutView,
    VertexStepMode,
    WorldInfo,
    CAMERA_UNIFORM_SIZE,
    PUSH_CONSTANTS_SIZE,
};
use crate::mesh::{
    index_buffer_descriptor,
    indices_in_range,
    vertex_buffer_descriptor,
    Mesh,
    MeshView,
};
use crate::pass::{
    draw_count,
    indexed_draw,
    lemma_draw_count_push,
    AttachmentView,
    Color,
    ColorAttachment,
    ComputePass,
    LoadOp,
    RenderCommand,
    RenderPass,
    StoreOp,
};
use crate::pipeline::{
    bind_group_layout_views,
    ColorTargetState,
    ColorWrites,
    ComputePipelineDescriptor,
    ComputePipelineView,
    Face,
    FrontFace,
    Pipeline,
    PipelineKey,
    PipelineLayoutDescriptor,
    PipelineLayoutView,
    PipelineRegistry,
    PipelineSelector,
    PipelineView,
    PolygonMode,
    PrimitiveState,
    PrimitiveTopology,
    PushConstantRange,
    RenderPipelineDescriptor,
    RenderPipelineView,
};
use crate::simulation::{
    grid_for,
    lemma_ceil_div,
    step_commands,
    volume,
    SimulationStage,
    StageState,
};
use crate::surface::SurfaceState;

verus! {

/// Bit pattern of `0.5`.
pub const HALF: u32 = 0x3F00_0000;

/// Bit pattern of `-0.5`.
pub const NEG_HALF: u32 = 0xBF00_0000;

/// Bit pattern of `0.001`, the elapsed time assumed before the first frame.
pub const INITIAL_DELTA: u32 = 0x3A83_126F;

/// The number of particles along x, y and z.
pub const DIMENSIONS: (u32, u32, u32) = (1024, 1024, 4);

/// The number of invocations of one workgroup along x, y and z.
pub const WORKGROUP_DIMS: (u32, u32, u32) = (8, 8, 1);

/// The number of particles.
pub const OBJECT_COUNT: u32 = 4_194_304;

/// Samples per pixel of the multisampled target.
pub const MULTISAMPLE_SAMPLES: u32 = 8;

/// Corner `i` of the cube of edge 1 around the origin: the x, y and z
/// coordinates, as bit patterns. The corners 0 to 3 run around the bottom
/// face, the corners 4 to 7 around the top face above them.
pub open spec fn cube_corner(i: int) -> Seq<u32> {
    seq![
        if i % 4 == 1 || i % 4 == 2 {
            HALF
        } else {
            NEG_HALF
        },
        if i >= 4 {
            HALF
        } else {
            NEG_HALF
        },
        if i % 4 >= 2 {
            HALF
        } else {
            NEG_HALF
        },
    ]
}

/// The index buffer of the cube: two triangles for each of the bottom, top,
/// back, front, left and right face.
pub open spec fn cube_indices_spec() -> Seq<u32> {
    seq![
        0, 1, 2, 0, 2, 3,
        4, 6, 5, 4, 7, 6,
        0, 5, 1, 0, 4, 5,
        3, 2, 6, 3, 6, 7,
        3, 4, 0, 3, 7, 4,
        1, 6, 2, 1, 5, 6,
    ]
}

/// The vertex buffer of the cube: the coordinates of its corners, one corner
/// after another.
pub open spec fn cube_words_spec() -> Seq<u32> {
    Seq::new(24, |k: int| cube_corner(k / 3)[k % 3])
}

/// The eight corners of the cube.
pub fn cube_vertices() -> (vertices: Vec<DefaultVertex3d>)
    ensures
        vertices@.len() == 8,
        forall|i: int| 0 <= i < 8 ==> (#[trigger] vertices@[i]).position@ == cube_corner(i),
{
    let vertices = vec![
        DefaultVertex3d { position: [NEG_HALF, NEG_HALF, NEG_HALF] },
        DefaultVertex3d { position: [HALF, NEG_HALF, NEG_HALF] },
        DefaultVertex3d { position: [HALF, NEG_HALF, HALF] },
        DefaultVertex3d { position: [NEG_HALF, NEG_HALF, HALF] },
        DefaultVertex3d { position: [NEG_HALF, HALF, NEG_HALF] },
        DefaultVertex3d { position: [HALF, HALF, NEG_HALF] },
        DefaultVertex3d { position: [HALF, HALF, HALF] },
        DefaultVertex3d { position: [NEG_HALF, HALF, HALF] },
    ];
    assert forall|i: int| 0 <= i < 8 implies (#[trigger] vertices@[i]).position@ == cube_corner(
        i,
    ) by {
        assert(vertices@[i].position@ =~= cube_corner(i));
    }
    vertices
}

/// The 36 indices of the cube's twelve triangles.
pub fn cube_indices() -> (indices: Vec<u32>)
    ensures
        indices@ == cube_indices_spec(),
{
    let indices: Vec<u32> = vec![
        0, 1, 2, 0, 2, 3,
        4, 6, 5, 4, 7, 6,
        0, 5, 1, 0, 4, 5,
        3, 2, 6, 3, 6, 7,
        3, 4, 0, 3, 7, 4,
        1, 6, 2, 1, 5, 6,
    ];
    assert(indices@ =~= cube_indices_spec());
    indices
}

/// The layout of the camera bind group: one uniform buffer at binding 0 that
/// only the vertex stage sees.
pub open spec fn camera_layout_view() -> BindGroupLayoutView {
    BindGroupLayoutView {
        label: Some("camera"@),
        entries: seq![
            BindGroupLayoutEntry {
                binding: 0,
                visibility: ShaderStages { vertex: true, fragment: false, compute: false },
                ty: BufferBindingType::Uniform,
                has_dynamic_offset: false,
            },
        ],
    }
}

/// A storage buffer at `binding` that the compute stage reads and writes.
pub open spec fn particle_slot(binding: u32) -> BindGroupLayoutEntry {
    BindGroupLayoutEntry {
        binding,
        visibility: ShaderStages { vertex: false, fragment: false, compute: true },
        ty: BufferBindingType::Storage { read_only: false },
        has_dynamic_offset: false,
    }
}

/// The layout of the particle bind group: positions at binding 0 and
/// velocities at binding 1.
pub open spec fn particle_layout_view() -> BindGroupLayoutView {
    BindGroupLayoutView {
        label: Some("pv_bind_layout"@),
        entries: seq![particle_slot(0), particle_slot(1)],
    }
}

/// The render pipeline that draws the particles: triangle lists with
/// counter-clockwise front faces, back faces culled, no depth or stencil
/// test, one color target of `color_format` written without blending, and
/// `sample_count` samples per pixel. Slot 0 feeds a position per vertex, slot
/// 1 a position per instance.
pub open spec fn default_pipeline_view(
    shader_source: Seq<char>,
    bind_group_layouts: Seq<BindGroupLayoutView>,
    color_format: wgpu::TextureFormat,
    sample_count: u32,
) -> RenderPipelineView {
    RenderPipelineView {
        label: Some("default_pipeline"@),
        layout: PipelineLayoutView {
            label: Some("default_pipeline_layout"@),
            bind_group_layouts,
            push_constant_ranges: Seq::empty(),
        },
        shader_source,
        vertex_entry_point: "vs_main"@,
        buffers: seq![
            VertexBufferLayoutView {
                array_stride: DefaultVertex3d::stride_spec(),
                step_mode: VertexStepMode::Vertex,
                attributes: <DefaultVertex3d as Vertex>::attribs_spec(),
            },
            VertexBufferLayoutView {
                array_stride: InstanceRepr::stride_spec(),
                step_mode: VertexStepMode::Instance,
                attributes: <InstanceRepr as Instance>::attribs_spec(),
            },
        ],
        primitive: PrimitiveState {
            topology: PrimitiveTopology::TriangleList,
            front_face: FrontFace::Ccw,
            cull_mode: Some(Face::Back),
            polygon_mode: PolygonMode::Fill,
        },
        multisample_count: sample_count,
        fragment_entry_point: "fs_main"@,
        target: ColorTargetState {
            format: color_format,
            blend: None,
            write_mask: ColorWrites { red: true, green: true, blue: true, alpha: true },
        },
        depth_stencil: None,
    }
}

/// The compute pipeline that advances the particles: one entry point, and
/// one push-constant range that covers the whole block and that only the
/// compute stage sees.
pub open spec fn compute_pipeline_view(
    shader_source: Seq<char>,
    bind_group_layouts: Seq<BindGroupLayoutView>,
) -> ComputePipelineView {
    ComputePipelineView {
        label: Some("compute_pipeline"@),
        layout: PipelineLayoutView {
            label: Some("compute_pipeline_layout"@),
            bind_group_layouts,
            push_constant_ranges: seq![
                PushConstantRange {
                    stages: ShaderStages { vertex: false, fragment: false, compute: true },
                    start: 0,
                    end: PUSH_CONSTANTS_SIZE,
                },
            ],
        },
        shader_source,
        entry_point: "compute_main"@,
    }
}

/// Describes the layout of the camera bind group.
fn camera_bind_group_layout() -> (layout: BindGroupLayoutDescriptor)
    ensures
        layout@ == camera_layout_view(),
{
    let layout = BindGroupLayoutDescriptor {
        label: Some("camera"),
        entries: vec![
            BindGroupLayoutEntry {
                binding: 0,
                visibility: ShaderStages { vertex: true, fragment: false, compute: false },
                ty: BufferBindingType::Uniform,
                has_dynamic_offset: false,
            },
        ],
    };
    assert(layout@.entries =~= camera_layout_view().entries);
    layout
}

/// Describes the layout of the particle bind group.
fn particle_bind_group_layout() -> (layout: BindGroupLayoutDescriptor)
    ensures
        layout@ == particle_layout_view(),
{
    let compute_only = ShaderStages { vertex: false, fragment: false, compute: true };
    let layout = BindGroupLayoutDescriptor {
        label: Some("pv_bind_layout"),
        entries: vec![
            BindGroupLayoutEntry {
                binding: 0,
                visibility: compute_only,
                ty: BufferBindingType::Storage { read_only: false },
                has_dynamic_offset: false,
            },
            BindGroupLayoutEntry {
                binding: 1,
                visibility: compute_only,
                ty: BufferBindingType::Storage { read_only: false },
                has_dynamic_offset: false,
            },
        ],
    };
    assert(layout@.entries =~= particle_layout_view().entries);
    layout
}

/// What the orchestrator is in contracts.
pub struct AppView {
    pub surface: SurfaceState,
    pub device: DeviceView,
    pub pipelines: Map<PipelineKey, PipelineView>,
    pub cube_mesh: MeshView,
    pub camera_buffer: BufferId,
    pub camera_bind_group: BindGroupId,
    /// The number of particles, which is the number of instances drawn.
    pub particle_count: u32,
    pub positions_buffer: BufferId,
    pub velocities_buffer: BufferId,
    pub pv_bind_group: BindGroupId,
    /// The number of particles along x, y and z.
    pub dimensions: (u32, u32, u32),
    /// The number of invocations of one workgroup along x, y and z.
    pub workgroup_dims: (u32, u32, u32),
    /// Where the simulation stage stands.
    pub stage_state: StageState,
    /// The clock of the last update.
    pub world_info: WorldInfo,
}

/// The buffers of the sandbox, in the order of their ids: cube vertices,
/// cube indices, camera uniform, particle positions, particle velocities.
/// The positions serve twice: as storage of the simulation and as the
/// per-instance vertex buffer of the draw.
pub open spec fn sandbox_buffers() -> Seq<BufferView> {
    seq![
        vertex_buffer_descriptor(96),
        index_buffer_descriptor(144),
        BufferView {
            label: Some("camera_buffer"@),
            size: CAMERA_UNIFORM_SIZE,
            usage: BufferUsages {
                vertex: false,
                index: false,
                uniform: true,
                storage: false,
                copy_dst: true,
            },
        },
        BufferView {
            label: Some("positions_buffer"@),
            size: 50_331_648,
            usage: BufferUsages {
                vertex: true,
                index: false,
                uniform: false,
                storage: true,
                copy_dst: false,
            },
        },
        BufferView {
            label: Some("velocities_buffer"@),
            size: 50_331_648,
            usage: BufferUsages {
                vertex: false,
                index: false,
                uniform: false,
                storage: true,
                copy_dst: false,
            },
        },
    ]
}

/// The bind groups of the sandbox, in the order of their ids: the camera
/// uniform, then the particle positions and velocities.
pub open spec fn sandbox_bind_groups() -> Seq<BindGroupView> {
    seq![
        BindGroupView {
            label: Some("camera"@),
            layout: camera_layout_view(),
            entries: seq![BindGroupEntry { binding: 0, buffer: BufferId { index: 2 } }],
        },
        BindGroupView {
            label: Some("pv_bind_group"@),
            layout: particle_layout_view(),
            entries: seq![
                BindGroupEntry { binding: 0, buffer: BufferId { index: 3 } },
                BindGroupEntry { binding: 1, buffer: BufferId { index: 4 } },
            ],
        },
    ]
}

impl AppView {
    /// The orchestrator right after start-up, for a window of `width` by
    /// `height` pixels on a surface of `format`.
    pub open spec fn initial(
        width: u32,
        height: u32,
        format: wgpu::TextureFormat,
        default_shader: Seq<char>,
        compute_shader: Seq<char>,
    ) -> AppView {
        AppView {
            surface: SurfaceState::initial(width, height, format, MULTISAMPLE_SAMPLES),
            device: DeviceView { buffers: sandbox_buffers(), bind_groups: sandbox_bind_groups() },
            pipelines: Map::<PipelineKey, PipelineView>::empty().insert(
                PipelineKey::Default,
                PipelineView::Render(
                    default_pipeline_view(
                        default_shader,
                        seq![camera_layout_view()],
                        format,
                        MULTISAMPLE_SAMPLES,
                    ),
                ),
            ).insert(
                PipelineKey::Compute,
                PipelineView::Compute(
                    compute_pipeline_view(compute_shader, seq![particle_layout_view()]),
                ),
            ),
            cube_mesh: MeshView {
                vertex_buffer: BufferId { index: 0 },
                index_buffer: BufferId { index: 1 },
                vertex_count: 8,
                vertex_words: cube_words_spec(),
                indices: cube_indices_spec(),
            },
            camera_buffer: BufferId { index: 2 },
            camera_bind_group: BindGroupId { index: 0 },
            particle_count: OBJECT_COUNT,
            positions_buffer: BufferId { index: 3 },
            velocities_buffer: BufferId { index: 4 },
            pv_bind_group: BindGroupId { index: 1 },
            dimensions: DIMENSIONS,
            workgroup_dims: WORKGROUP_DIMS,
            stage_state: StageState::Idle,
            world_info: WorldInfo { time: 0, delta: INITIAL_DELTA },
        }
    }

    /// What holds of the orchestrator between calls: the surface is never
    /// empty and its multisampled target goes with its configuration; the
    /// simulation stage is idle; the
    /// registry keeps a compute pipeline and a render pipeline under the
    /// built-in selectors, the latter with the sample count of the surface;
    /// every bind group fills its layout with buffers that exist
    /// and allow that use; positions and velocities hold one element for each
    /// particle; the buffers of the cube and of the camera are as large as
    /// their contents; every index of the cube refers to one of its vertices.
    pub open spec fn valid(self) -> bool {
        let buffers = self.device.buffers;
        &&& self.surface.wf()
        &&& self.stage_state is Idle
        &&& self.pipelines.dom().contains(PipelineKey::Default)
        &&& self.pipelines.dom().contains(PipelineKey::Compute)
        &&& self.pipelines[PipelineKey::Compute] is Compute
        &&& forall|i: int|
            0 <= i < self.device.bind_groups.len() ==> (#[trigger] self.device.bind_groups[i]).matches(
                buffers,
            )
        &&& self.camera_bind_group.index < self.device.bind_groups.len()
        &&& self.pv_bind_group.index < self.device.bind_groups.len()
        &&& self.camera_buffer.index < buffers.len()
        &&& self.positions_buffer.index < buffers.len()
        &&& self.velocities_buffer.index < buffers.len()
        &&& self.cube_mesh.vertex_buffer.index < buffers.len()
        &&& self.cube_mesh.index_buffer.index < buffers.len()
        &&& buffers[self.positions_buffer.index as int].size == self.particle_count
            * InstanceRepr::stride_spec()
        &&& buffers[self.velocities_buffer.index as int].size
            == buffers[self.positions_buffer.index as int].size
        &&& buffers[self.positions_buffer.index as int].usage.vertex
        &&& buffers[self.cube_mesh.vertex_buffer.index as int].size == 4
            * self.cube_mesh.vertex_words.len()
        &&& buffers[self.cube_mesh.index_buffer.index as int].size == 4
            * self.cube_mesh.indices.len()
        &&& buffers[self.camera_buffer.index as int].size == CAMERA_UNIFORM_SIZE
        &&& self.particle_count == volume(self.dimensions)
        &&& self.workgroup_dims.0 > 0 && self.workgroup_dims.1 > 0 && self.workgroup_dims.2 > 0
        &&& self.cube_mesh.indices.len() <= u32::MAX
        &&& indices_in_range(self.cube_mesh.indices, self.cube_mesh.vertex_count)
        &&& self.pipelines[PipelineKey::Default] matches PipelineView::Render(pipeline)
        &&& pipeline.multisample_count == self.surface.sample_count
    }

    /// The commands of the render pass of a frame: select the default
    /// pipeline; bind the camera at index 0; draw the cube once for each
    /// particle, with the positions as the instance buffer.
    pub open spec fn render_commands(self) -> Seq<RenderCommand> {
        seq![
            RenderCommand::SetPipeline { pipeline: PipelineSelector::Default },
            RenderCommand::SetBindGroup { index: 0, group: self.camera_bind_group },
        ] + self.cube_mesh.instanced_draw(self.positions_buffer, 0..self.particle_count)
    }

    /// Whether `steps` render one frame: view the acquired image through the
    /// surface's view format; refresh the camera uniform; submit a render
    /// pass that clears the multisampled target to black, draws into it,
    /// stores it and resolves it into the acquired image; tell the window;
    /// present.
    pub open spec fn renders(self, steps: Seq<FrameStep>) -> bool {
        &&& steps.len() == 5
        &&& steps[0] == (FrameStep::CreateSurfaceView { format: self.surface.config.view_format })
        &&& steps[1] == (FrameStep::WriteCameraUniform { buffer: self.camera_buffer, offset: 0 })
        &&& steps[2] matches FrameStep::Submit { pass }
        &&& label_view(pass.label) == Some("render_pass"@)
        &&& pass.color_attachment == (ColorAttachment {
            view: AttachmentView::MultisampleFramebuffer,
            resolve_target: Some(AttachmentView::SurfaceTexture),
            load: LoadOp::Clear(Color::Black),
            store: StoreOp::Store,
        })
        &&& pass.commands@ == self.render_commands()
        &&& steps[3] == FrameStep::PrePresentNotify
        &&& steps[4] == FrameStep::Present
    }

    /// The orchestrator after the surface is configured to `width` by
    /// `height`.
    pub open spec fn resized(self, width: u32, height: u32) -> AppView {
        AppView { surface: self.surface.configured(width, height), ..self }
    }

    /// The orchestrator after a window event: a new size configures the
    /// surface, nothing else changes anything.
    pub open spec fn after_event(self, event: WindowEvent) -> AppView {
        match event {
            WindowEvent::Resized { width, height } => self.resized(width, height),
            _ => self,
        }
    }

    /// The orchestrator after a frame that ended in `outcome`, in a window of
    /// `window_size`: a lost or outdated surface is configured to the size of
    /// the window, nothing else changes anything.
    pub open spec fn after_frame(self, outcome: Result<(), SurfaceError>, window_size: (u32, u32))
        -> AppView {
        if reaction_to(outcome) is Reconfigure {
            self.resized(window_size.0, window_size.1)
        } else {
            self
        }
    }
}

/// The sandbox starts 128 by 128 by 4 workgroups in each frame, and their
/// invocations are exactly as many as the particles.
pub proof fn lemma_sandbox_grid()
    ensures
        grid_for(DIMENSIONS, WORKGROUP_DIMS) == (128u32, 128u32, 4u32),
        volume(DIMENSIONS) == OBJECT_COUNT,
        volume(grid_for(DIMENSIONS, WORKGROUP_DIMS)) * volume(WORKGROUP_DIMS) == OBJECT_COUNT,
{
    lemma_ceil_div(1024, 8);
    lemma_ceil_div(4, 1);
    assert(128nat * 128nat * 4nat == 65_536);
    assert(8nat * 8nat * 1nat == 64);
    assert(1024nat * 1024nat * 4nat == 4_194_304);
    assert(65_536nat * 64nat == 4_194_304);
}

/// A new sandbox is valid, and so is a valid sandbox after its surface is
/// configured again or its clock is set.
pub proof fn lemma_valid_is_kept(
    app: AppView,
    width: u32,
    height: u32,
    format: wgpu::TextureFormat,
    default_shader: Seq<char>,
    compute_shader: Seq<char>,
    world_info: WorldInfo,
)
    ensures
        AppView::initial(width, height, format, default_shader, compute_shader).valid(),
        app.valid() ==> app.resized(width, height).valid(),
        app.valid() ==> (AppView { world_info, ..app }).valid(),
{
    let new = AppView::initial(width, height, format, default_shader, compute_shader);
    assert(1024nat * 1024nat * 4nat == 4_194_304);
    assert(4_194_304 * 12 == 50_331_648);
    assert forall|i: int| 0 <= i < new.device.bind_groups.len() implies (
    #[trigger] new.device.bind_groups[i]).matches(new.device.buffers) by {
        if i == 0 {
            assert(new.device.bind_groups[0].entries.len() == 1);
        } else {
            assert(new.device.bind_groups[1].entries.len() == 2);
        }
    }
}

/// Resizing twice in a row to the same size leaves the orchestrator exactly
/// as resizing once does.
pub proof fn lemma_resize_idempotent(app: AppView, width: u32, height: u32)
    ensures
        app.resized(width, height).resized(width, height) == app.resized(width, height),
{
    crate::surface::lemma_configure_idempotent(app.surface, width, height);
}

/// The render pass of a frame draws exactly once, with its last command, and
/// that draw covers every index of the cube and one instance for each
/// particle.
pub proof fn lemma_frame_draws_once(app: AppView)
    ensures
        draw_count(app.render_commands()) == 1,
        app.render_commands().last() == indexed_draw(
            0..(app.cube_mesh.indices.len() as u32),
            0,
            0..app.particle_count,
        ),
        app.render_commands().last().instance_count() == app.particle_count,
{
    let select = RenderCommand::SetPipeline { pipeline: PipelineSelector::Default };
    let bind = RenderCommand::SetBindGroup { index: 0, group: app.camera_bind_group };
    let draw = app.cube_mesh.instanced_draw(app.positions_buffer, 0..app.particle_count);
    let start = Seq::<RenderCommand>::empty().push(select);
    lemma_draw_count_push(Seq::empty(), select);
    lemma_draw_count_push(start, bind);
    lemma_draw_count_push(start.push(bind), draw[0]);
    lemma_draw_count_push(start.push(bind).push(draw[0]), draw[1]);
    lemma_draw_count_push(start.push(bind).push(draw[0]).push(draw[1]), draw[2]);
    lemma_draw_count_push(start.push(bind).push(draw[0]).push(draw[1]).push(draw[2]), draw[3]);
    assert(app.render_commands() =~= start.push(bind).push(draw[0]).push(draw[1]).push(
        draw[2],
    ).push(draw[3]));
}

/// The frame orchestrator.
#[derive(Debug, PartialEq, Eq)]
pub struct App {
    surface: SurfaceState,
    device: DeviceContext,
    pipelines: PipelineRegistry,
    cube_mesh: Mesh,
    camera_buffer: BufferId,
    camera_bind_group: BindGroupId,
    particle_count: u32,
    positions_buffer: BufferId,
    velocities_buffer: BufferId,
    pv_bind_group: BindGroupId,
    stage: SimulationStage,
    world_info: WorldInfo,
}

impl View for App {
    type V = AppView;

    closed spec fn view(&self) -> AppView {
        AppView {
            surface: self.surface,
            device: self.device@,
            pipelines: self.pipelines@,
            cube_mesh: self.cube_mesh@,
            camera_buffer: self.camera_buffer,
            camera_bind_group: self.camera_bind_group,
            particle_count: self.particle_count,
            positions_buffer: self.positions_buffer,
            velocities_buffer: self.velocities_buffer,
            pv_bind_group: self.pv_bind_group,
            dimensions: self.stage@.dimensions,
            workgroup_dims: self.stage@.workgroup_dims,
            stage_state: self.stage@.state,
            world_info: self.world_info,
        }
    }
}

impl App {
    /// The orchestrator is valid as its view says, the simulation stage is
    /// idle between calls, and the registry keeps each selector once.
    pub closed spec fn wf(&self) -> bool {
        &&& self.surface.wf()
        &&& self.pipelines.wf()
        &&& self.pipelines@.dom().contains(PipelineKey::Default)
        &&& self.pipelines@.dom().contains(PipelineKey::Compute)
        &&& self.stage.wf()
        &&& self.stage@.state is Idle
        &&& self.stage@.commands == Seq::<crate::pass::ComputeCommand>::empty()
        &&& self@.valid()
    }

    /// A well-formed orchestrator is valid.
    pub proof fn lemma_wf_is_valid(&self)
        requires
            self.wf(),
        ensures
            self@.valid(),
    {
    }

    /// What the device has to offer: push constants, with room for 256
    /// bytes, which holds the block of the simulation, and every use of a
    /// texture format that the adapter supports.
    pub fn device_requirements() -> (requirements: DeviceRequirements)
        ensures
            requirements == (DeviceRequirements {
                push_constants: true,
                texture_adapter_specific_format_features: true,
                max_push_constant_size: 256,
            }),
            PUSH_CONSTANTS_SIZE <= requirements.max_push_constant_size,
    {
        DeviceRequirements {
            push_constants: true,
            texture_adapter_specific_format_features: true,
            max_push_constant_size: 256,
        }
    }

    /// Describes the render pipeline that draws the particles.
    pub fn default_pipeline(
        shader_source: &'static str,
        bind_group_layouts: Vec<BindGroupLayoutDescriptor>,
        color_format: wgpu::TextureFormat,
        sample_count: u32,
    ) -> (pipeline: RenderPipelineDescriptor)
        ensures
            pipeline@ == default_pipeline_view(
                shader_source@,
                bind_group_layout_views(bind_group_layouts@),
                color_format,
                sample_count,
            ),
    {
        let layout = PipelineLayoutDescriptor {
            label: Some("default_pipeline_layout"),
            bind_group_layouts,
            push_constant_ranges: Vec::new(),
        };
        assert(layout@.push_constant_ranges =~= Seq::empty());
        let buffers = vec![DefaultVertex3d::desc(), InstanceRepr::desc()];
        let pipeline = RenderPipelineDescriptor {
            label: Some("default_pipeline"),
            layout,
            shader_source,
            vertex_entry_point: "vs_main",
            buffers,
            primitive: PrimitiveState {
                topology: PrimitiveTopology::TriangleList,
                front_face: FrontFace::Ccw,
                cull_mode: Some(Face::Back),
                polygon_mode: PolygonMode::Fill,
            },
            multisample_count: sample_count,
            fragment_entry_point: "fs_main",
            target: ColorTargetState {
                format: color_format,
                blend: None,
                write_mask: ColorWrites { red: true, green: true, blue: true, alpha: true },
            },
            depth_stencil: None,
        };
        assert(pipeline@.buffers =~= default_pipeline_view(
            shader_source@,
            bind_group_layout_views(bind_group_layouts@),
            color_format,
            sample_count,
        ).buffers);
        pipeline
    }

    /// Describes the compute pipeline that advances the particles.
    pub fn compute_pipeline(
        shader_source: &'static str,
        bind_group_layouts: Vec<BindGroupLayoutDescriptor>,
    ) -> (pipeline: ComputePipelineDescriptor)
        ensures
            pipeline@ == compute_pipeline_view(
                shader_source@,
                bind_group_layout_views(bind_group_layouts@),
            ),
    {
        let layout = PipelineLayoutDescriptor {
            label: Some("compute_pipeline_layout"),
            bind_group_layouts,
            push_constant_ranges: vec![
                PushConstantRange {
                    stages: ShaderStages { vertex: false, fragment: false, compute: true },
                    start: 0,
                    end: PUSH_CONSTANTS_SIZE,
                },
            ],
        };
        assert(layout@.push_constant_ranges =~= compute_pipeline_view(
            shader_source@,
            bind_group_layout_views(bind_group_layouts@),
        ).layout.push_constant_ranges);
        ComputePipelineDescriptor {
            label: Some("compute_pipeline"),
            layout,
            shader_source,
            entry_point: "compute_main",
        }
    }

    /// Plans the sandbox for a window of `width` by `height` pixels whose
    /// surface prefers `format`: the surface and its multisampled target, the
    /// cube, the camera uniform, the particle buffers, and the two pipelines,
    /// built from the shader sources given.
    pub fn new(
        width: u32,
        height: u32,
        format: wgpu::TextureFormat,
        default_shader: &'static str,
        compute_shader: &'static str,
    ) -> (app: Self)
        ensures
            app.wf(),
            app@ == AppView::initial(width, height, format, default_shader@, compute_shader@),
            app@.valid(),
    {
        let surface = SurfaceState::new(width, height, format, MULTISAMPLE_SAMPLES);
        let mut device = DeviceContext::new();
        let mut pipelines = PipelineRegistry::new();

        let vertices = cube_vertices();
        let indices = cube_indices();
        assert(indices_in_range(indices@, 8));
        let cube_mesh = Mesh::create(&mut device, vertices.as_slice(), indices.as_slice());
        proof {
            lemma_flattened_positions(vertices@);
            assert(cube_mesh@.vertex_words =~= cube_words_spec());
        }

        let camera_buffer = device.create_buffer_init(
            Some("camera_buffer"),
            CAMERA_UNIFORM_SIZE,
            BufferUsages { vertex: false, index: false, uniform: true, storage: false, copy_dst: true },
        );
        let camera_group = BindGroupDescriptor {
            label: Some("camera"),
            layout: camera_bind_group_layout(),
            entries: vec![BindGroupEntry { binding: 0, buffer: camera_buffer }],
        };
        assert(camera_group@.entries =~= sandbox_bind_groups()[0].entries);
        let camera_bind_group = device.create_bind_group(camera_group);
        let camera_layouts = vec![camera_bind_group_layout()];
        assert(bind_group_layout_views(camera_layouts@) =~= seq![camera_layout_view()]);
        pipelines.insert(
            PipelineSelector::Default,
            Pipeline::Render(
                Self::default_pipeline(
                    default_shader,
                    camera_layouts,
                    surface.config.format,
                    MULTISAMPLE_SAMPLES,
                ),
            ),
        );

        let particle_bytes: u64 = OBJECT_COUNT as u64 * InstanceRepr::stride();
        let positions_buffer = device.create_buffer_init(
            Some("positions_buffer"),
            particle_bytes,
            BufferUsages { vertex: true, index: false, uniform: false, storage: true, copy_dst: false },
        );
        let velocities_buffer = device.create_buffer_init(
            Some("velocities_buffer"),
            particle_bytes,
            BufferUsages { vertex: false, index: false, uniform: false, storage: true, copy_dst: false },
        );
        let particle_group = BindGroupDescriptor {
            label: Some("pv_bind_group"),
            layout: particle_bind_group_layout(),
            entries: vec![
                BindGroupEntry { binding: 0, buffer: positions_buffer },
                BindGroupEntry { binding: 1, buffer: velocities_buffer },
            ],
        };
        assert(particle_group@.entries =~= sandbox_bind_groups()[1].entries);
        let pv_bind_group = device.create_bind_group(particle_group);
        let particle_layouts = vec![particle_bind_group_layout()];
        assert(bind_group_layout_views(particle_layouts@) =~= seq![particle_layout_view()]);
        pipelines.insert(
            PipelineSelector::Compute,
            Pipeline::Compute(Self::compute_pipeline(compute_shader, particle_layouts)),
        );

        let app = App {
            surface,
            device,
            pipelines,
            cube_mesh,
            camera_buffer,
            camera_bind_group,
            particle_count: OBJECT_COUNT,
            positions_buffer,
            velocities_buffer,
            pv_bind_group,
            stage: SimulationStage::new(DIMENSIONS, WORKGROUP_DIMS),
            world_info: WorldInfo { time: 0, delta: INITIAL_DELTA },
        };
        proof {
            let expected = AppView::initial(width, height, format, default_shader@, compute_shader@);
            lemma_valid_is_kept(
                expected,
                width,
                height,
                format,
                default_shader@,
                compute_shader@,
                WorldInfo { time: 0, delta: INITIAL_DELTA },
            );
            assert(app@.device.buffers =~= expected.device.buffers);
            assert(app@.device.bind_groups =~= expected.device.bind_groups);
            assert(app@.pipelines =~= expected.pipelines);
            assert(app@.cube_mesh == expected.cube_mesh);
        }
        app
    }

    /// Advances the simulation by one step under the clock `world_info`, and
    /// returns the compute pass to submit. The pass has to reach the queue
    /// before the render pass of the same frame does.
    pub fn update(&mut self, world_info: WorldInfo) -> (pass: ComputePass)
        requires
            old(self).wf(),
        ensures
            final(self).wf(),
            final(self)@ == (AppView { world_info, ..old(self)@ }),
            final(self)@.valid(),
            label_view(pass.label) == Some("compute_pass"@),
            pass.commands@ == step_commands(
                old(self)@.pv_bind_group,
                ComputePushConstants { world_info },
                grid_for(old(self)@.dimensions, old(self)@.workgroup_dims),
            ),
    {
        self.world_info = world_info;
        self.stage.begin();
        self.stage.dispatch(&self.pipelines, self.pv_bind_group, ComputePushConstants { world_info });
        let pass = self.stage.submit();
        assert(pass.commands@ =~= step_commands(
            old(self)@.pv_bind_group,
            ComputePushConstants { world_info },
            grid_for(old(self)@.dimensions, old(self)@.workgroup_dims),
        ));
        pass
    }

    /// Decides what to do with the next image of the surface. Where acquiring
    /// it failed, the failure is handed back untouched; otherwise the steps
    /// that render and present one frame are.
    pub fn render(&self, acquired: Result<(), SurfaceError>) -> (frame: Result<
        Vec<FrameStep>,
        SurfaceError,
    >)
        requires
            self.wf(),
        ensures
            self@.valid(),
            match acquired {
                Ok(_) => frame matches Ok(steps) && self@.renders(steps@),
                Err(error) => frame == Err::<Vec<FrameStep>, SurfaceError>(error),
            },
    {
        match acquired {
            Err(error) => Err(error),
            Ok(_) => {
                let mut render_pass = RenderPass::begin(
                    Some("render_pass"),
                    ColorAttachment {
                        view: AttachmentView::MultisampleFramebuffer,
                        resolve_target: Some(AttachmentView::SurfaceTexture),
                        load: LoadOp::Clear(Color::Black),
                        store: StoreOp::Store,
                    },
                );
                match self.pipelines.get(&PipelineSelector::Default) {
                    Pipeline::Render(_) => {
                        render_pass.set_pipeline(PipelineSelector::Default);
                    },
                    _ => {},
                }
                render_pass.set_bind_group(0, self.camera_bind_group);
                self.cube_mesh.draw_instanced(
                    &mut render_pass,
                    self.positions_buffer,
                    0..self.particle_count,
                );
                assert(render_pass.commands@ =~= self@.render_commands());
                let steps = vec![
                    FrameStep::CreateSurfaceView { format: self.surface.config.view_format },
                    FrameStep::WriteCameraUniform { buffer: self.camera_buffer, offset: 0 },
                    FrameStep::Submit { pass: render_pass },
                    FrameStep::PrePresentNotify,
                    FrameStep::Present,
                ];
                Ok(steps)
            },
        }
    }

    /// Configures the surface to `width` by `height` pixels, at least 1 by 1,
    /// and rebuilds the description of the multisampled target to match.
    pub fn resize(&mut self, width: u32, height: u32)
        requires
            old(self).wf(),
        ensures
            final(self).wf(),
            final(self)@ == old(self)@.resized(width, height),
            final(self)@.valid(),
    {
        self.surface.configure(width, height);
    }

    /// Reacts to a window event: closing the window or pressing escape ends
    /// the loop, pressing F toggles fullscreen, a redraw request asks for a
    /// frame, a new size configures the surface.
    pub fn window_event(&mut self, event: WindowEvent) -> (response: EventResponse)
        requires
            old(self).wf(),
        ensures
            final(self).wf(),
            response == event.response(),
            final(self)@ == old(self)@.after_event(event),
            final(self)@.valid(),
    {
        match event {
            WindowEvent::CloseRequested => EventResponse::Exit,
            WindowEvent::KeyboardInput { key, pressed } => {
                if pressed {
                    match key {
                        Some(KeyCode::Escape) => EventResponse::Exit,
                        Some(KeyCode::KeyF) => EventResponse::ToggleFullscreen,
                        _ => EventResponse::Ignore,
                    }
                } else {
                    EventResponse::Ignore
                }
            },
            WindowEvent::RedrawRequested => EventResponse::Redraw,
            WindowEvent::Resized { width, height } => {
                self.resize(width, height);
                EventResponse::Reconfigure
            },
            WindowEvent::Other => EventResponse::Ignore,
        }
    }

    /// Reacts to the outcome of a frame, in a window that is `window_size`
    /// pixels wide and high: a lost or outdated surface is configured to
    /// that size at once, for the next frame to try again; running out of
    /// memory ends the loop; a timeout or an unknown failure drops the frame.
    pub fn react(&mut self, outcome: Result<(), SurfaceError>, window_size: (u32, u32)) -> (reaction:
        FrameReaction)
        requires
            old(self).wf(),
        ensures
            final(self).wf(),
            reaction == reaction_to(outcome),
            final(self)@ == old(self)@.after_frame(outcome, window_size),
            final(self)@.valid(),
    {
        match outcome {
            Ok(_) => FrameReaction::Continue,
            Err(error) => {
                let reaction = error.reaction();
                match reaction {
                    FrameReaction::Reconfigure => {
                        self.resize(window_size.0, window_size.1);
                    },
                    _ => {},
                }
                reaction
            },
        }
    }

    /// The surface as last configured.
    pub fn surface(&self) -> (surface: &SurfaceState)
        ensures
            *surface == self@.surface,
    {
        &self.surface
    }

    /// The record of the buffers and bind groups to create.
    pub fn device(&self) -> (device: &DeviceContext)
        ensures
            device@ == self@.device,
    {
        &self.device
    }

    /// The pipelines to create.
    pub fn pipelines(&self) -> (pipelines: &PipelineRegistry)
        requires
            self.wf(),
        ensures
            pipelines.wf(),
            pipelines@ == self@.pipelines,
    {
        &self.pipelines
    }

    /// The cube that is drawn once for each particle.
    pub fn cube_mesh(&self) -> (mesh: &Mesh)
        ensures
            mesh@ == self@.cube_mesh,
    {
        &self.cube_mesh
    }

    /// The buffer of the camera uniform block.
    pub fn camera_buffer(&self) -> (id: BufferId)
        ensures
            id == self@.camera_buffer,
    {
        self.camera_buffer
    }

    /// The buffer of the particle positions.
    pub fn positions_buffer(&self) -> (id: BufferId)
        ensures
            id == self@.positions_buffer,
    {
        self.positions_buffer
    }

    /// The buffer of the particle velocities.
    pub fn velocities_buffer(&self) -> (id: BufferId)
        ensures
            id == self@.velocities_buffer,
    {
        self.velocities_buffer
    }

    /// The number of particles.
    pub fn particle_count(&self) -> (count: u32)
        ensures
            count == self@.particle_count,
    {
        self.particle_count
    }

    /// The clock of the last update.
    pub fn world_info(&self) -> (world_info: WorldInfo)
        ensures
            world_info == self@.world_info,
    {
        self.world_info
    }
}

} // verus!
