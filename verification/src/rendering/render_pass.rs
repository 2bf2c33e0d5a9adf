//! Render-pass recording.  A render pass is a bounded recording scope: it
//! is opened with its attachments' clear operations, collects draw
//! commands in order, and is closed before the frame is submitted.  The
//! recorded command list is exactly what the driver replays.

use vstd::prelude::*;

use crate::rendering::buffer::Buffer;
use crate::rendering::bind_group::BindGroup;
use crate::rendering::pipeline::RenderPipeline;

verus! {

/// The format indices in a bound index buffer have.
#[derive(Clone, Copy, PartialEq, Eq, Debug)]
pub enum IndexFormat {
    Uint16,
    Uint32,
}

/// A double-precision RGBA color, each channel held as the bit pattern of
/// its IEEE-754 double so that the verified core stores no floating point.
#[derive(Clone, Copy, PartialEq, Eq, Debug)]
pub struct Color {
    pub r_bits: u64,
    pub g_bits: u64,
    pub b_bits: u64,
    pub a_bits: u64,
}

/// What happens to the color attachment when the pass opens.
#[derive(Clone, Copy, PartialEq, Eq, Debug)]
pub enum LoadOp {
    Clear(Color),
    Load,
}

/// The depth attachment of a pass: cleared on open to the given depth
/// (held as an IEEE-754 double bit pattern) and stored on close.
#[derive(Clone, Copy, PartialEq, Eq, Debug)]
pub struct DepthAttachment {
    pub clear_bits: u64,
    pub store: bool,
}

/// What a render pass is opened with: one color attachment with its load
/// operation, and an optional depth attachment.
#[derive(Clone, Copy, PartialEq, Eq, Debug)]
pub struct RenderPassDescriptor {
    pub label: Option<&'static str>,
    pub color_load: LoadOp,
    pub color_store: bool,
    pub depth: Option<DepthAttachment>,
}

/// One recorded command of a render pass.
#[derive(Clone, Copy, PartialEq, Eq, Debug)]
pub enum RenderCommand {
    SetPipeline { label: Option<&'static str> },
    SetBindGroup { slot: u32 },
    SetVertexBuffer { slot: u32 },
    SetIndexBuffer { format: IndexFormat },
    DrawIndexed {
        start_index: u32,
        end_index: u32,
        base_vertex: i32,
        start_instance: u32,
        end_instance: u32,
    },
}

/// An open render pass: what it was opened with and the commands recorded
/// into it so far, in order.
#[derive(PartialEq, Eq, Debug)]
pub struct RenderPass {
    pub descriptor: RenderPassDescriptor,
    pub commands: Vec<RenderCommand>,
}

impl RenderPass {
    /// Opens a pass with no commands recorded yet.
    pub fn begin(descriptor: RenderPassDescriptor) -> (r: RenderPass)
        ensures
            r.descriptor == descriptor,
            r.commands@ == Seq::<RenderCommand>::empty(),
    {
        RenderPass { descriptor, commands: Vec::new() }
    }

    /// Records binding the given pipeline.
    pub fn set_pipeline(&mut self, pipeline: &RenderPipeline)
        ensures
            final(self).descriptor == old(self).descriptor,
            final(self).commands@ == old(self).commands@.push(
                RenderCommand::SetPipeline { label: pipeline.label },
            ),
    {
        self.commands.push(RenderCommand::SetPipeline { label: pipeline.label });
    }

    /// Records binding the given binding set at `slot`.
    pub fn set_bind_group(&mut self, slot: u32, group: &BindGroup)
        ensures
            final(self).descriptor == old(self).descriptor,
            final(self).commands@ == old(self).commands@.push(
                RenderCommand::SetBindGroup { slot },
            ),
    {
        let _ = group;
        self.commands.push(RenderCommand::SetBindGroup { slot });
    }

    /// Records binding `buffer` as the vertex buffer at `slot`.  The
    /// buffer must have been created for vertex use.
    pub fn set_vertex_buffer(&mut self, slot: u32, buffer: &Buffer)
        requires
            buffer.usage.vertex,
        ensures
            final(self).descriptor == old(self).descriptor,
            final(self).commands@ == old(self).commands@.push(
                RenderCommand::SetVertexBuffer { slot },
            ),
    {
        let _ = buffer;
        self.commands.push(RenderCommand::SetVertexBuffer { slot });
    }

    /// Records binding `buffer` as the index buffer.  The buffer must
    /// have been created for index use.
    pub fn set_index_buffer(&mut self, buffer: &Buffer, format: IndexFormat)
        requires
            buffer.usage.index,
        ensures
            final(self).descriptor == old(self).descriptor,
            final(self).commands@ == old(self).commands@.push(
                RenderCommand::SetIndexBuffer { format },
            ),
    {
        let _ = buffer;
        self.commands.push(RenderCommand::SetIndexBuffer { format });
    }

    /// Records one indexed draw over the index range
    /// `start_index..end_index` and the instance range
    /// `start_instance..end_instance`.
    pub fn draw_indexed(
        &mut self,
        start_index: u32,
        end_index: u32,
        base_vertex: i32,
        start_instance: u32,
        end_instance: u32,
    )
        ensures
            final(self).descriptor == old(self).descriptor,
            final(self).commands@ == old(self).commands@.push(
                RenderCommand::DrawIndexed {
                    start_index,
                    end_index,
                    base_vertex,
                    start_instance,
                    end_instance,
                },
            ),
    {
        self.commands.push(
            RenderCommand::DrawIndexed {
                start_index,
                end_index,
                base_vertex,
                start_instance,
                end_instance,
            },
        );
    }
}

} // verus!
