//! Recorded passes: the commands of one compute pass or one render pass, in
//! the order in which they were issued. Whoever owns the real device replays
//! them on it.

use vstd::prelude::*;
use std::ops::Range;
use crate::device::{BindGroupId, BufferId};
use crate::layout::ComputePushConstants;
use crate::pipeline::PipelineSelector;

verus! {

/// The width of the values in an index buffer.
#[derive(Clone, Copy, Debug, PartialEq, Eq, Structural)]
pub enum IndexFormat {
    Uint16,
    Uint32,
}

/// One command of a compute pass.
#[derive(Clone, Debug, PartialEq, Eq)]
pub enum ComputeCommand {
    SetPipeline { pipeline: PipelineSelector },
    SetBindGroup { index: u32, group: BindGroupId },
    /// Writes `data` into the push-constant block, `offset` bytes in.
    SetPushConstants { offset: u32, data: ComputePushConstants },
    /// Starts `x` by `y` by `z` workgroups.
    DispatchWorkgroups { x: u32, y: u32, z: u32 },
}

/// A compute pass and the commands recorded in it so far.
#[derive(Clone, Debug, PartialEq, Eq)]
pub struct ComputePass {
    pub label: Option<&'static str>,
    pub commands: Vec<ComputeCommand>,
}

/// How many of `commands` start workgroups.
pub open spec fn dispatch_count(commands: Seq<ComputeCommand>) -> nat
    decreases commands.len(),
{
    if commands.len() == 0 {
        0
    } else {
        dispatch_count(commands.drop_last()) + if commands.last() is DispatchWorkgroups {
            1nat
        } else {
            0nat
        }
    }
}

/// One more command adds one to the count exactly when it starts workgroups.
pub proof fn lemma_dispatch_count_push(commands: Seq<ComputeCommand>, command: ComputeCommand)
    ensures
        dispatch_count(commands.push(command)) == dispatch_count(commands) + if command
            is DispatchWorkgroups {
            1nat
        } else {
            0nat
        },
{
    assert(commands.push(command).drop_last() =~= commands);
}

impl ComputePass {
    /// Opens a pass with no commands.
    pub fn begin(label: Option<&'static str>) -> (pass: Self)
        ensures
            pass.label == label,
            pass.commands@ == Seq::<ComputeCommand>::empty(),
    {
        ComputePass { label, commands: Vec::new() }
    }

    /// Selects the pipeline that the following dispatches run.
    pub fn set_pipeline(&mut self, pipeline: PipelineSelector)
        ensures
            final(self).label == old(self).label,
            final(self).commands@ == old(self).commands@.push(
                ComputeCommand::SetPipeline { pipeline },
            ),
    {
        self.commands.push(ComputeCommand::SetPipeline { pipeline });
    }

    /// Binds `group` at `index`.
    pub fn set_bind_group(&mut self, index: u32, group: BindGroupId)
        ensures
            final(self).label == old(self).label,
            final(self).commands@ == old(self).commands@.push(
                ComputeCommand::SetBindGroup { index, group },
            ),
    {
        self.commands.push(ComputeCommand::SetBindGroup { index, group });
    }

    /// Writes `data` into the push-constant block, `offset` bytes in.
    pub fn set_push_constants(&mut self, offset: u32, data: ComputePushConstants)
        ensures
            final(self).label == old(self).label,
            final(self).commands@ == old(self).commands@.push(
                ComputeCommand::SetPushConstants { offset, data },
            ),
    {
        self.commands.push(ComputeCommand::SetPushConstants { offset, data });
    }

    /// Starts `x` by `y` by `z` workgroups.
    pub fn dispatch_workgroups(&mut self, x: u32, y: u32, z: u32)
        ensures
            final(self).label == old(self).label,
            final(self).commands@ == old(self).commands@.push(
                ComputeCommand::DispatchWorkgroups { x, y, z },
            ),
    {
        self.commands.push(ComputeCommand::DispatchWorkgroups { x, y, z });
    }
}

/// One command of a render pass.
#[derive(Clone, Debug, PartialEq, Eq)]
pub enum RenderCommand {
    SetPipeline { pipeline: PipelineSelector },
    SetBindGroup { index: u32, group: BindGroupId },
    /// Binds the whole of `buffer` to vertex input `slot`.
    SetVertexBuffer { slot: u32, buffer: BufferId },
    /// Binds the whole of `buffer` as the index buffer.
    SetIndexBuffer { buffer: BufferId, format: IndexFormat },
    /// Draws the indices from `first_index` up to, not including,
    /// `end_index`, each offset by `base_vertex`, once for each instance
    /// from `first_instance` up to, not including, `end_instance`.
    DrawIndexed {
        first_index: u32,
        end_index: u32,
        base_vertex: i32,
        first_instance: u32,
        end_instance: u32,
    },
}

/// The number of values from `start` up to, not including, `end`.
pub open spec fn range_len(start: u32, end: u32) -> nat {
    if start <= end {
        (end - start) as nat
    } else {
        0
    }
}

/// The draw that `RenderPass::draw_indexed` records for its arguments.
pub open spec fn indexed_draw(indices: Range<u32>, base_vertex: i32, instances: Range<u32>)
    -> RenderCommand {
    RenderCommand::DrawIndexed {
        first_index: indices.start,
        end_index: indices.end,
        base_vertex,
        first_instance: instances.start,
        end_instance: instances.end,
    }
}

impl RenderCommand {
    /// The number of instances the command draws.
    pub open spec fn instance_count(self) -> nat {
        match self {
            RenderCommand::DrawIndexed { first_instance, end_instance, .. } => range_len(
                first_instance,
                end_instance,
            ),
            _ => 0,
        }
    }
}

/// How many of `commands` draw.
pub open spec fn draw_count(commands: Seq<RenderCommand>) -> nat
    decreases commands.len(),
{
    if commands.len() == 0 {
        0
    } else {
        draw_count(commands.drop_last()) + if commands.last() is DrawIndexed {
            1nat
        } else {
            0nat
        }
    }
}

/// One more command adds one to the count exactly when it draws.
pub proof fn lemma_draw_count_push(commands: Seq<RenderCommand>, command: RenderCommand)
    ensures
        draw_count(commands.push(command)) == draw_count(commands) + if command is DrawIndexed {
            1nat
        } else {
            0nat
        },
{
    assert(commands.push(command).drop_last() =~= commands);
}

/// A named clear color.
#[derive(Clone, Copy, Debug, PartialEq, Eq, Structural)]
pub enum Color {
    Transparent,
    Black,
    White,
    Red,
    Green,
    Blue,
}

/// What a pass does to an attachment when it begins.
#[derive(Clone, Copy, Debug, PartialEq, Eq, Structural)]
pub enum LoadOp {
    Clear(Color),
    Load,
}

/// What a pass does to an attachment when it ends.
#[derive(Clone, Copy, Debug, PartialEq, Eq, Structural)]
pub enum StoreOp {
    Store,
    Discard,
}

/// An image a render pass can write to.
#[derive(Clone, Copy, Debug, PartialEq, Eq, Structural)]
pub enum AttachmentView {
    /// The multisampled offscreen target.
    MultisampleFramebuffer,
    /// The swapchain image acquired for this frame.
    SurfaceTexture,
}

/// The color attachment of a render pass.
#[derive(Clone, Copy, Debug, PartialEq, Eq, Structural)]
pub struct ColorAttachment {
    pub view: AttachmentView,
    /// Where the samples of `view` are averaged into when the pass ends.
    pub resolve_target: Option<AttachmentView>,
    pub load: LoadOp,
    pub store: StoreOp,
}

/// A render pass and the commands recorded in it so far.
#[derive(Clone, Debug, PartialEq, Eq)]
pub struct RenderPass {
    pub label: Option<&'static str>,
    pub color_attachment: ColorAttachment,
    pub commands: Vec<RenderCommand>,
}

impl RenderPass {
    /// Whether `later` is this pass with `added` recorded after what it held.
    pub open spec fn extended_by(self, later: RenderPass, added: Seq<RenderCommand>) -> bool {
        &&& later.label == self.label
        &&& later.color_attachment == self.color_attachment
        &&& later.commands@ == self.commands@ + added
    }

    /// Opens a pass with no commands.
    pub fn begin(label: Option<&'static str>, color_attachment: ColorAttachment) -> (pass: Self)
        ensures
            pass.label == label,
            pass.color_attachment == color_attachment,
            pass.commands@ == Seq::<RenderCommand>::empty(),
    {
        RenderPass { label, color_attachment, commands: Vec::new() }
    }

    /// Selects the pipeline that the following draws run.
    pub fn set_pipeline(&mut self, pipeline: PipelineSelector)
        ensures
            old(self).extended_by(*final(self), seq![RenderCommand::SetPipeline { pipeline }]),
    {
        self.commands.push(RenderCommand::SetPipeline { pipeline });
        assert(self.commands@ =~= old(self).commands@ + seq![
            RenderCommand::SetPipeline { pipeline },
        ]);
    }

    /// Binds `group` at `index`.
    pub fn set_bind_group(&mut self, index: u32, group: BindGroupId)
        ensures
            old(self).extended_by(*final(self), seq![RenderCommand::SetBindGroup { index, group }]),
    {
        self.commands.push(RenderCommand::SetBindGroup { index, group });
        assert(self.commands@ =~= old(self).commands@ + seq![
            RenderCommand::SetBindGroup { index, group },
        ]);
    }

    /// Binds the whole of `buffer` to vertex input `slot`.
    pub fn set_vertex_buffer(&mut self, slot: u32, buffer: BufferId)
        ensures
            old(self).extended_by(
                *final(self),
                seq![RenderCommand::SetVertexBuffer { slot, buffer }],
            ),
    {
        self.commands.push(RenderCommand::SetVertexBuffer { slot, buffer });
        assert(self.commands@ =~= old(self).commands@ + seq![
            RenderCommand::SetVertexBuffer { slot, buffer },
        ]);
    }

    /// Binds the whole of `buffer` as the index buffer.
    pub fn set_index_buffer(&mut self, buffer: BufferId, format: IndexFormat)
        ensures
            old(self).extended_by(
                *final(self),
                seq![RenderCommand::SetIndexBuffer { buffer, format }],
            ),
    {
        self.commands.push(RenderCommand::SetIndexBuffer { buffer, format });
        assert(self.commands@ =~= old(self).commands@ + seq![
            RenderCommand::SetIndexBuffer { buffer, format },
        ]);
    }

    /// Draws the indices `indices`, each offset by `base_vertex`, once for
    /// each instance of `instances`.
    pub fn draw_indexed(&mut self, indices: Range<u32>, base_vertex: i32, instances: Range<u32>)
        ensures
            old(self).extended_by(
                *final(self),
                seq![indexed_draw(indices, base_vertex, instances)],
            ),
    {
        self.commands.push(
            RenderCommand::DrawIndexed {
                first_index: indices.start,
                end_index: indices.end,
                base_vertex,
                first_instance: instances.start,
                end_instance: instances.end,
            },
        );
        assert(self.commands@ =~= old(self).commands@ + seq![
            indexed_draw(indices, base_vertex, instances),
        ]);
    }
}

} // verus!
