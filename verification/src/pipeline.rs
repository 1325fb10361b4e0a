//! The pipeline registry: descriptions of render and compute pipelines, kept
//! under a selector that names each one at most once.

use vstd::prelude::*;
use crate::device::{label_view, BindGroupLayoutDescriptor, BindGroupLayoutView, ShaderStages};
use crate::layout::{VertexBufferLayout, VertexBufferLayoutView};

verus! {

/// Names a pipeline of the registry.
#[derive(Clone, Copy, Debug, Hash, PartialEq, Eq)]
pub enum PipelineSelector {
    /// The pipeline that draws the particles.
    Default,
    /// The pipeline that advances the simulation.
    Compute,
    /// A pipeline the caller names.
    Custom { name: &'static str },
}

/// What a selector stands for in contracts: a custom name counts by its
/// characters.
pub enum PipelineKey {
    Default,
    Compute,
    Custom { name: Seq<char> },
}

impl View for PipelineSelector {
    type V = PipelineKey;

    open spec fn view(&self) -> PipelineKey {
        match *self {
            PipelineSelector::Default => PipelineKey::Default,
            PipelineSelector::Compute => PipelineKey::Compute,
            PipelineSelector::Custom { name } => PipelineKey::Custom { name: name@ },
        }
    }
}

/// Compares two string slices with `str`'s `==`, which holds exactly when both
/// consist of the same characters.
#[verifier::external_body]
fn str_eq(a: &str, b: &str) -> (same: bool)
    ensures
        same == (a@ == b@),
{
    a == b
}

impl PipelineSelector {
    /// Whether both selectors name the same pipeline.
    pub fn same(&self, other: &PipelineSelector) -> (same: bool)
        ensures
            same == (self@ == other@),
    {
        match (*self, *other) {
            (PipelineSelector::Default, PipelineSelector::Default) => true,
            (PipelineSelector::Compute, PipelineSelector::Compute) => true,
            (PipelineSelector::Custom { name: a }, PipelineSelector::Custom { name: b }) => str_eq(
                a,
                b,
            ),
            _ => false,
        }
    }
}

/// How vertices are assembled into primitives.
#[derive(Clone, Copy, Debug, PartialEq, Eq, Structural)]
pub enum PrimitiveTopology {
    PointList,
    LineList,
    LineStrip,
    TriangleList,
    TriangleStrip,
}

/// The winding order of a front-facing triangle.
#[derive(Clone, Copy, Debug, PartialEq, Eq, Structural)]
pub enum FrontFace {
    Ccw,
    Cw,
}

/// One side of a triangle.
#[derive(Clone, Copy, Debug, PartialEq, Eq, Structural)]
pub enum Face {
    Front,
    Back,
}

/// How the inside of a polygon is rasterized.
#[derive(Clone, Copy, Debug, PartialEq, Eq, Structural)]
pub enum PolygonMode {
    Fill,
    Line,
    Point,
}

/// The fixed state of primitive assembly and rasterization.
#[derive(Clone, Copy, Debug, PartialEq, Eq, Structural)]
pub struct PrimitiveState {
    pub topology: PrimitiveTopology,
    pub front_face: FrontFace,
    /// The side that is discarded, if any.
    pub cull_mode: Option<Face>,
    pub polygon_mode: PolygonMode,
}

/// How a fragment is combined with what the target already holds.
#[derive(Clone, Copy, Debug, PartialEq, Eq, Structural)]
pub enum BlendState {
    Replace,
    AlphaBlending,
    PremultipliedAlphaBlending,
}

/// The channels of a color target that are written.
#[derive(Clone, Copy, Debug, PartialEq, Eq, Structural)]
pub struct ColorWrites {
    pub red: bool,
    pub green: bool,
    pub blue: bool,
    pub alpha: bool,
}

/// The color target a render pipeline writes to.
#[derive(Clone, Copy, Debug, PartialEq, Eq)]
pub struct ColorTargetState {
    pub format: wgpu::TextureFormat,
    /// `None` overwrites the target without blending.
    pub blend: Option<BlendState>,
    pub write_mask: ColorWrites,
}

/// The comparison of a depth test.
#[derive(Clone, Copy, Debug, PartialEq, Eq, Structural)]
pub enum CompareFunction {
    Never,
    Less,
    Equal,
    LessEqual,
    Greater,
    NotEqual,
    GreaterEqual,
    Always,
}

/// The depth test of a render pipeline.
#[derive(Clone, Copy, Debug, PartialEq, Eq)]
pub struct DepthStencilState {
    pub format: wgpu::TextureFormat,
    pub depth_write_enabled: bool,
    pub depth_compare: CompareFunction,
}

/// A window of the push-constant block that some stages can read: the bytes
/// from `start` up to, not including, `end`.
#[derive(Clone, Copy, Debug, PartialEq, Eq, Structural)]
pub struct PushConstantRange {
    pub stages: ShaderStages,
    pub start: u32,
    pub end: u32,
}

/// The resources a pipeline expects to find bound.
#[derive(Clone, Debug, PartialEq, Eq)]
pub struct PipelineLayoutDescriptor {
    pub label: Option<&'static str>,
    pub bind_group_layouts: Vec<BindGroupLayoutDescriptor>,
    pub push_constant_ranges: Vec<PushConstantRange>,
}

/// The views of `layouts`, in the same order.
pub open spec fn bind_group_layout_views(layouts: Seq<BindGroupLayoutDescriptor>) -> Seq<
    BindGroupLayoutView,
> {
    Seq::new(layouts.len(), |i: int| layouts[i]@)
}

/// The views of `layouts`, in the same order.
pub open spec fn vertex_buffer_layout_views(layouts: Seq<VertexBufferLayout>) -> Seq<
    VertexBufferLayoutView,
> {
    Seq::new(layouts.len(), |i: int| layouts[i]@)
}

/// What a pipeline layout is in contracts.
pub struct PipelineLayoutView {
    pub label: Option<Seq<char>>,
    pub bind_group_layouts: Seq<BindGroupLayoutView>,
    pub push_constant_ranges: Seq<PushConstantRange>,
}

impl View for PipelineLayoutDescriptor {
    type V = PipelineLayoutView;

    open spec fn view(&self) -> PipelineLayoutView {
        PipelineLayoutView {
            label: label_view(self.label),
            bind_group_layouts: bind_group_layout_views(self.bind_group_layouts@),
            push_constant_ranges: self.push_constant_ranges@,
        }
    }
}

/// A render pipeline to create.
#[derive(Clone, Debug, PartialEq, Eq)]
pub struct RenderPipelineDescriptor {
    pub label: Option<&'static str>,
    pub layout: PipelineLayoutDescriptor,
    /// Source text of the shader module that holds both entry points.
    pub shader_source: &'static str,
    pub vertex_entry_point: &'static str,
    /// The layout of each vertex buffer slot, slot 0 first.
    pub buffers: Vec<VertexBufferLayout>,
    pub primitive: PrimitiveState,
    /// Samples per pixel of the color target.
    pub multisample_count: u32,
    pub fragment_entry_point: &'static str,
    pub target: ColorTargetState,
    /// `None` runs no depth or stencil test.
    pub depth_stencil: Option<DepthStencilState>,
}

/// What a render pipeline descriptor is in contracts.
pub struct RenderPipelineView {
    pub label: Option<Seq<char>>,
    pub layout: PipelineLayoutView,
    pub shader_source: Seq<char>,
    pub vertex_entry_point: Seq<char>,
    pub buffers: Seq<VertexBufferLayoutView>,
    pub primitive: PrimitiveState,
    pub multisample_count: u32,
    pub fragment_entry_point: Seq<char>,
    pub target: ColorTargetState,
    pub depth_stencil: Option<DepthStencilState>,
}

impl View for RenderPipelineDescriptor {
    type V = RenderPipelineView;

    open spec fn view(&self) -> RenderPipelineView {
        RenderPipelineView {
            label: label_view(self.label),
            layout: self.layout@,
            shader_source: self.shader_source@,
            vertex_entry_point: self.vertex_entry_point@,
            buffers: vertex_buffer_layout_views(self.buffers@),
            primitive: self.primitive,
            multisample_count: self.multisample_count,
            fragment_entry_point: self.fragment_entry_point@,
            target: self.target,
            depth_stencil: self.depth_stencil,
        }
    }
}

/// A compute pipeline to create.
#[derive(Clone, Debug, PartialEq, Eq)]
pub struct ComputePipelineDescriptor {
    pub label: Option<&'static str>,
    pub layout: PipelineLayoutDescriptor,
    /// Source text of the shader module that holds the entry point.
    pub shader_source: &'static str,
    pub entry_point: &'static str,
}

/// What a compute pipeline descriptor is in contracts.
pub struct ComputePipelineView {
    pub label: Option<Seq<char>>,
    pub layout: PipelineLayoutView,
    pub shader_source: Seq<char>,
    pub entry_point: Seq<char>,
}

impl View for ComputePipelineDescriptor {
    type V = ComputePipelineView;

    open spec fn view(&self) -> ComputePipelineView {
        ComputePipelineView {
            label: label_view(self.label),
            layout: self.layout@,
            shader_source: self.shader_source@,
            entry_point: self.entry_point@,
        }
    }
}

/// A pipeline of either kind.
#[derive(Clone, Debug, PartialEq, Eq)]
pub enum Pipeline {
    Render(RenderPipelineDescriptor),
    Compute(ComputePipelineDescriptor),
}

/// What a pipeline is in contracts.
pub enum PipelineView {
    Render(RenderPipelineView),
    Compute(ComputePipelineView),
}

impl View for Pipeline {
    type V = PipelineView;

    open spec fn view(&self) -> PipelineView {
        match *self {
            Pipeline::Render(descriptor) => PipelineView::Render(descriptor@),
            Pipeline::Compute(descriptor) => PipelineView::Compute(descriptor@),
        }
    }
}

/// A selector with the pipeline kept under it.
#[derive(Clone, Debug, PartialEq, Eq)]
pub struct RegistryEntry {
    pub selector: PipelineSelector,
    pub pipeline: Pipeline,
}

/// Maps selectors to pipelines. Its view is that mapping. The entries are
/// kept in a list that is searched in order: a handful of pipelines is all a
/// sandbox has, and of a hash map keyed by a selector nothing could be proved.
#[derive(Debug, PartialEq, Eq)]
pub struct PipelineRegistry {
    entries: Vec<RegistryEntry>,
}

/// Whether `entries` holds `key` at position `i`.
pub open spec fn holds_at(entries: Seq<RegistryEntry>, key: PipelineKey, i: int) -> bool {
    0 <= i < entries.len() && entries[i].selector@ == key
}

impl View for PipelineRegistry {
    type V = Map<PipelineKey, PipelineView>;

    closed spec fn view(&self) -> Map<PipelineKey, PipelineView> {
        let entries = self.entries@;
        Map::new(
            |key: PipelineKey| exists|i: int| holds_at(entries, key, i),
            |key: PipelineKey| entries[choose|i: int| holds_at(entries, key, i)].pipeline@,
        )
    }
}

impl PipelineRegistry {
    /// No selector is kept twice.
    pub closed spec fn wf(&self) -> bool {
        forall|i: int, j: int|
            0 <= i < self.entries@.len() && 0 <= j < self.entries@.len()
                && (#[trigger] self.entries@[i]).selector@ == (#[trigger] self.entries@[j]).selector@
                ==> i == j
    }

    /// An empty registry.
    pub fn new() -> (registry: Self)
        ensures
            registry.wf(),
            registry@ == Map::<PipelineKey, PipelineView>::empty(),
    {
        let registry = PipelineRegistry { entries: Vec::new() };
        assert(registry@ =~= Map::<PipelineKey, PipelineView>::empty());
        registry
    }

    /// Position of `selector` among the entries, if it is kept.
    fn position(&self, selector: &PipelineSelector) -> (found: Option<usize>)
        ensures
            match found {
                Some(i) => holds_at(self.entries@, selector@, i as int),
                None => forall|i: int| !holds_at(self.entries@, selector@, i),
            },
    {
        let mut i: usize = 0;
        while i < self.entries.len()
            invariant
                i <= self.entries@.len(),
                forall|k: int| 0 <= k < i ==> !holds_at(self.entries@, selector@, k),
            decreases self.entries@.len() - i,
        {
            if self.entries[i].selector.same(selector) {
                return Some(i);
            }
            i = i + 1;
        }
        None
    }

    /// Whether a pipeline is kept under `selector`.
    pub fn contains(&self, selector: &PipelineSelector) -> (kept: bool)
        ensures
            kept == self@.dom().contains(selector@),
    {
        self.position(selector).is_some()
    }

    /// The pipeline kept under `selector`. Asking for a selector that is not
    /// kept is a mistake of the caller.
    pub fn get(&self, selector: &PipelineSelector) -> (pipeline: &Pipeline)
        requires
            self.wf(),
            self@.dom().contains(selector@),
        ensures
            pipeline@ == self@[selector@],
    {
        match self.position(selector) {
            Some(i) => {
                proof {
                    let chosen = choose|k: int| holds_at(self.entries@, selector@, k);
                    assert(holds_at(self.entries@, selector@, chosen));
                    assert(chosen == i);
                }
                &self.entries[i].pipeline
            },
            None => {
                proof {
                    let k = choose|k: int| holds_at(self.entries@, selector@, k);
                    assert(holds_at(self.entries@, selector@, k));
                }
                vstd::pervasive::unreached()
            },
        }
    }

    /// Keeps `pipeline` under `selector`, in place of the pipeline kept there
    /// before, if there was one.
    pub fn insert(&mut self, selector: PipelineSelector, pipeline: Pipeline)
        requires
            old(self).wf(),
        ensures
            final(self).wf(),
            final(self)@ == old(self)@.insert(selector@, pipeline@),
    {
        let ghost before = self.entries@;
        let ghost key = selector@;
        let ghost value = pipeline@;
        let ghost at: int;
        let entry = RegistryEntry { selector, pipeline };
        match self.position(&selector) {
            Some(i) => {
                self.entries[i] = entry;
                proof {
                    at = i as int;
                }
            },
            None => {
                self.entries.push(entry);
                proof {
                    at = before.len() as int;
                }
            },
        }
        proof {
            let after = self.entries@;
            assert(holds_at(after, key, at));
            assert(after[at].pipeline@ == value);
            assert(forall|i: int| 0 <= i < before.len() && i != at ==> #[trigger] after[i] == before[i]);
            assert(after.len() == before.len() || (after.len() == before.len() + 1 && at == before.len()));
            assert(forall|i: int| holds_at(before, key, i) ==> i == at);
            assert forall|i: int, j: int|
                0 <= i < after.len() && 0 <= j < after.len() && (#[trigger] after[i]).selector@ == (
                #[trigger] after[j]).selector@ implies i == j by {
                if i != at {
                    assert(holds_at(before, after[i].selector@, i));
                }
                if j != at {
                    assert(holds_at(before, after[j].selector@, j));
                }
            }
            assert(forall|i: int| holds_at(after, key, i) ==> i == at);
            assert forall|k: PipelineKey|
                self@.dom().contains(k) == old(self)@.insert(key, value).dom().contains(k) by {
                if self@.dom().contains(k) && k != key {
                    let i = choose|i: int| holds_at(after, k, i);
                    assert(holds_at(before, k, i));
                }
                if old(self)@.dom().contains(k) && k != key {
                    let i = choose|i: int| holds_at(before, k, i);
                    assert(holds_at(after, k, i));
                }
            }
            assert forall|k: PipelineKey| self@.dom().contains(k) implies self@[k] == old(
                self,
            )@.insert(key, value)[k] by {
                let i = choose|i: int| holds_at(after, k, i);
                assert(holds_at(after, k, i));
                if k != key {
                    let j = choose|j: int| holds_at(before, k, j);
                    assert(holds_at(before, k, i));
                    assert(holds_at(before, k, j));
                } else {
                    assert(i == at);
                }
            }
            assert(self@ =~= old(self)@.insert(key, value));
        }
    }

    /// Every kept selector with its pipeline, each selector once.
    pub fn entries(&self) -> (entries: &[RegistryEntry])
        requires
            self.wf(),
        ensures
            forall|i: int|
                0 <= i < entries@.len() ==> self@.contains_pair(
                    (#[trigger] entries@[i]).selector@,
                    entries@[i].pipeline@,
                ),
            forall|key: PipelineKey|
                self@.dom().contains(key) ==> exists|i: int| holds_at(entries@, key, i),
            forall|i: int, j: int|
                0 <= i < j < entries@.len() ==> (#[trigger] entries@[i]).selector@ != (
                #[trigger] entries@[j]).selector@,
    {
        let entries = self.entries.as_slice();
        proof {
            assert forall|i: int| 0 <= i < entries@.len() implies self@.contains_pair(
                (#[trigger] entries@[i]).selector@,
                entries@[i].pipeline@,
            ) by {
                let key = entries@[i].selector@;
                assert(holds_at(self.entries@, key, i));
                let chosen = choose|k: int| holds_at(self.entries@, key, k);
                assert(holds_at(self.entries@, key, chosen));
            }
        }
        entries
    }
}

} // verus!
