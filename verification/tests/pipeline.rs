use particle_sandbox::app::App;
use particle_sandbox::device::{
    BindGroupLayoutDescriptor, BindGroupLayoutEntry, BufferBindingType, ShaderStages,
};
use particle_sandbox::layout::{DefaultVertex3d, Instance, InstanceRepr, Vertex};
use particle_sandbox::pipeline::{
    ColorTargetState, ColorWrites, ComputePipelineDescriptor, Face, FrontFace, Pipeline,
    PipelineLayoutDescriptor, PipelineRegistry, PipelineSelector, PolygonMode, PrimitiveState,
    PrimitiveTopology, PushConstantRange,
};

fn compute_named(entry_point: &'static str) -> Pipeline {
    Pipeline::Compute(ComputePipelineDescriptor {
        label: None,
        layout: PipelineLayoutDescriptor {
            label: None,
            bind_group_layouts: vec![],
            push_constant_ranges: vec![],
        },
        shader_source: "",
        entry_point,
    })
}

fn uniform_layout() -> BindGroupLayoutDescriptor {
    BindGroupLayoutDescriptor {
        label: Some("camera"),
        entries: vec![BindGroupLayoutEntry {
            binding: 0,
            visibility: ShaderStages { vertex: true, fragment: false, compute: false },
            ty: BufferBindingType::Uniform,
            has_dynamic_offset: false,
        }],
    }
}

#[test]
fn selectors_compare_by_name() {
    let built: &'static str = Box::leak(format!("{}{}", "gl", "ow").into_boxed_str());
    assert!(PipelineSelector::Default.same(&PipelineSelector::Default));
    assert!(PipelineSelector::Compute.same(&PipelineSelector::Compute));
    assert!(!PipelineSelector::Default.same(&PipelineSelector::Compute));
    assert!(PipelineSelector::Custom { name: "glow" }.same(&PipelineSelector::Custom { name: built }));
    assert!(!PipelineSelector::Custom { name: "glow" }
        .same(&PipelineSelector::Custom { name: "blur" }));
    assert!(!PipelineSelector::Custom { name: "Default" }.same(&PipelineSelector::Default));
}

#[test]
fn registry_starts_empty() {
    let registry = PipelineRegistry::new();
    assert!(!registry.contains(&PipelineSelector::Default));
    assert!(!registry.contains(&PipelineSelector::Compute));
    assert!(registry.entries().is_empty());
}

#[test]
fn registry_keeps_what_is_inserted() {
    let mut registry = PipelineRegistry::new();
    registry.insert(PipelineSelector::Compute, compute_named("a"));
    registry.insert(PipelineSelector::Custom { name: "glow" }, compute_named("b"));
    registry.insert(PipelineSelector::Custom { name: "blur" }, compute_named("c"));
    assert!(registry.contains(&PipelineSelector::Compute));
    assert!(!registry.contains(&PipelineSelector::Default));
    assert_eq!(*registry.get(&PipelineSelector::Compute), compute_named("a"));
    assert_eq!(*registry.get(&PipelineSelector::Custom { name: "glow" }), compute_named("b"));
    assert_eq!(*registry.get(&PipelineSelector::Custom { name: "blur" }), compute_named("c"));
    assert_eq!(registry.entries().len(), 3);
}

#[test]
fn registry_keeps_each_selector_once() {
    let mut registry = PipelineRegistry::new();
    registry.insert(PipelineSelector::Custom { name: "glow" }, compute_named("old"));
    registry.insert(PipelineSelector::Compute, compute_named("other"));
    registry.insert(PipelineSelector::Custom { name: "glow" }, compute_named("new"));
    assert_eq!(registry.entries().len(), 2);
    assert_eq!(*registry.get(&PipelineSelector::Custom { name: "glow" }), compute_named("new"));
    assert_eq!(*registry.get(&PipelineSelector::Compute), compute_named("other"));
}

#[test]
fn default_pipeline_fixes_its_state() {
    let pipeline =
        App::default_pipeline("shader", vec![uniform_layout()], wgpu::TextureFormat::Bgra8Unorm, 4);
    assert_eq!(pipeline.label, Some("default_pipeline"));
    assert_eq!(pipeline.layout.label, Some("default_pipeline_layout"));
    assert_eq!(pipeline.layout.bind_group_layouts, vec![uniform_layout()]);
    assert_eq!(pipeline.layout.push_constant_ranges, vec![]);
    assert_eq!(pipeline.shader_source, "shader");
    assert_eq!(pipeline.vertex_entry_point, "vs_main");
    assert_eq!(pipeline.fragment_entry_point, "fs_main");
    assert_eq!(pipeline.buffers, vec![DefaultVertex3d::desc(), InstanceRepr::desc()]);
    assert_eq!(
        pipeline.primitive,
        PrimitiveState {
            topology: PrimitiveTopology::TriangleList,
            front_face: FrontFace::Ccw,
            cull_mode: Some(Face::Back),
            polygon_mode: PolygonMode::Fill,
        }
    );
    assert_eq!(pipeline.multisample_count, 4);
    assert_eq!(
        pipeline.target,
        ColorTargetState {
            format: wgpu::TextureFormat::Bgra8Unorm,
            blend: None,
            write_mask: ColorWrites { red: true, green: true, blue: true, alpha: true },
        }
    );
    assert_eq!(pipeline.depth_stencil, None);
}

#[test]
fn compute_pipeline_covers_the_push_constants() {
    let pipeline = App::compute_pipeline("shader", vec![uniform_layout()]);
    assert_eq!(pipeline.label, Some("compute_pipeline"));
    assert_eq!(pipeline.layout.label, Some("compute_pipeline_layout"));
    assert_eq!(pipeline.layout.bind_group_layouts, vec![uniform_layout()]);
    assert_eq!(
        pipeline.layout.push_constant_ranges,
        vec![PushConstantRange {
            stages: ShaderStages { vertex: false, fragment: false, compute: true },
            start: 0,
            end: 8,
        }]
    );
    assert_eq!(pipeline.shader_source, "shader");
    assert_eq!(pipeline.entry_point, "compute_main");
}
