//! A command buffer as recorded data.
//!
//! Recording appends plain `Command` values; the embedder replays them
//! against the real device.  Because the commands are data, the ordering
//! and layout-transition obligations of the render graph can be stated and
//! proved over the recorded sequence itself.

use vstd::prelude::*;

use crate::gpu_types::ImageLayout;
use crate::gpu_types::Rect2D;
use crate::matrix_bits::Mat4Bits;
use crate::matrix_bits::Vec3Bits;

verus! {

/// Queue family index meaning "no ownership transfer".
pub const QUEUE_FAMILY_IGNORED: u32 = 0xFFFF_FFFF;

/// What a rendering scope does with an attachment's prior contents.
#[derive(Clone, Copy, PartialEq, Eq, Structural, Debug)]
pub enum LoadOp {
    Clear,
    Load,
    DontCare,
}

/// What a rendering scope does with an attachment's results.
#[derive(Clone, Copy, PartialEq, Eq, Structural, Debug)]
pub enum StoreOp {
    Store,
    DontCare,
}

/// The value an attachment is cleared to, as bit patterns.
#[derive(Clone, Copy, PartialEq, Eq, Structural, Debug)]
pub enum ClearValue {
    Color { r: u32, g: u32, b: u32, a: u32 },
    DepthStencil { depth: u32, stencil: u32 },
}

/// Width of the indices in an index buffer.
#[derive(Clone, Copy, PartialEq, Eq, Structural, Debug)]
pub enum IndexType {
    Uint16,
    Uint32,
}

/// An image-memory barrier: an execution and memory dependency that also
/// transitions `image` from `old_layout` to `new_layout`.
#[derive(Clone, Copy, PartialEq, Eq, Structural, Debug)]
pub struct ImageMemoryBarrier {
    pub src_stage_mask: u32,
    pub dst_stage_mask: u32,
    pub src_access_mask: u32,
    pub dst_access_mask: u32,
    pub old_layout: ImageLayout,
    pub new_layout: ImageLayout,
    pub src_queue_family_index: u32,
    pub dst_queue_family_index: u32,
    pub image: u64,
    pub aspect_mask: u32,
}

/// One attachment of a rendering scope with its load/store policy.
#[derive(Clone, Copy, PartialEq, Eq, Structural, Debug)]
pub struct AttachmentInfo {
    pub image_view: u64,
    pub image_layout: ImageLayout,
    pub load_op: LoadOp,
    pub store_op: StoreOp,
    pub clear_value: ClearValue,
}

/// A per-draw push-constant block, kept typed; `PushConstantsData::get`
/// and `LightningPushConstantsData::get` define its bit-exact wire form.
#[derive(Clone, Copy, PartialEq, Eq, Debug)]
pub enum PushData {
    Geometry { model: Mat4Bits, view: Mat4Bits, projection: Mat4Bits },
    Lighting { light_space: Mat4Bits, view_direction: Vec3Bits },
}

/// One recorded command.
#[derive(Clone, Copy, PartialEq, Eq, Debug)]
pub enum Command {
    PipelineBarrier(ImageMemoryBarrier),
    BeginRendering {
        render_area: Rect2D,
        color0: Option<AttachmentInfo>,
        color1: Option<AttachmentInfo>,
        color2: Option<AttachmentInfo>,
        depth: Option<AttachmentInfo>,
    },
    BindPipeline { pipeline: u64 },
    BindDescriptorSet { layout: u64, set: u64 },
    PushConstants { layout: u64, stage_flags: u32, data: PushData },
    BindVertexBuffers { first_binding: u32, buffer0: u64, buffer1: Option<u64> },
    BindIndexBuffer { buffer: u64, index_type: IndexType },
    DrawIndexed {
        index_count: u32,
        instance_count: u32,
        first_index: u32,
        vertex_offset: i32,
        first_instance: u32,
    },
    Draw { vertex_count: u32, instance_count: u32, first_vertex: u32, first_instance: u32 },
    EndRendering,
}

/// A command buffer under recording: the sequence of commands recorded so
/// far, in program order.
pub struct CommandBuffer {
    commands: Vec<Command>,
}

impl View for CommandBuffer {
    type V = Seq<Command>;

    closed spec fn view(&self) -> Seq<Command> {
        self.commands@
    }
}

impl CommandBuffer {
    /// An empty recording.
    pub fn new() -> (cb: CommandBuffer)
        ensures
            cb@ == Seq::<Command>::empty(),
    {
        CommandBuffer { commands: Vec::new() }
    }

    /// Drop everything recorded so far (the pool was reset).
    pub fn clear(&mut self)
        ensures
            final(self)@ == Seq::<Command>::empty(),
    {
        self.commands.clear();
    }

    /// The recorded commands, in order.
    pub fn commands(&self) -> (r: &Vec<Command>)
        ensures
            r@ == self@,
    {
        &self.commands
    }

    /// How many commands are recorded.
    pub fn len(&self) -> (r: usize)
        ensures
            r == self@.len(),
    {
        self.commands.len()
    }

    /// Record an image-memory barrier.
    pub fn pipeline_barrier(&mut self, barrier: ImageMemoryBarrier)
        ensures
            final(self)@ == old(self)@.push(Command::PipelineBarrier(barrier)),
    {
        self.commands.push(Command::PipelineBarrier(barrier));
    }

    /// Begin a dynamic rendering scope over the given attachments.
    pub fn begin_rendering(
        &mut self,
        render_area: Rect2D,
        color0: Option<AttachmentInfo>,
        color1: Option<AttachmentInfo>,
        color2: Option<AttachmentInfo>,
        depth: Option<AttachmentInfo>,
    )
        ensures
            final(self)@ == old(self)@.push(
                Command::BeginRendering { render_area, color0, color1, color2, depth },
            ),
    {
        self.commands.push(Command::BeginRendering { render_area, color0, color1, color2, depth });
    }

    /// Bind a graphics pipeline.
    pub fn bind_pipeline(&mut self, pipeline: u64)
        ensures
            final(self)@ == old(self)@.push(Command::BindPipeline { pipeline }),
    {
        self.commands.push(Command::BindPipeline { pipeline });
    }

    /// Bind a descriptor set.
    pub fn bind_descriptor_set(&mut self, layout: u64, set: u64)
        ensures
            final(self)@ == old(self)@.push(Command::BindDescriptorSet { layout, set }),
    {
        self.commands.push(Command::BindDescriptorSet { layout, set });
    }

    /// Push a per-draw constant block.
    pub fn push_constants(&mut self, layout: u64, stage_flags: u32, data: PushData)
        ensures
            final(self)@ == old(self)@.push(
                Command::PushConstants { layout, stage_flags, data },
            ),
    {
        self.commands.push(Command::PushConstants { layout, stage_flags, data });
    }

    /// Bind one or two vertex buffers starting at `first_binding`.
    pub fn bind_vertex_buffers(&mut self, first_binding: u32, buffer0: u64, buffer1: Option<u64>)
        ensures
            final(self)@ == old(self)@.push(
                Command::BindVertexBuffers { first_binding, buffer0, buffer1 },
            ),
    {
        self.commands.push(Command::BindVertexBuffers { first_binding, buffer0, buffer1 });
    }

    /// Bind an index buffer.
    pub fn bind_index_buffer(&mut self, buffer: u64, index_type: IndexType)
        ensures
            final(self)@ == old(self)@.push(Command::BindIndexBuffer { buffer, index_type }),
    {
        self.commands.push(Command::BindIndexBuffer { buffer, index_type });
    }

    /// Record an indexed draw.
    pub fn draw_indexed(
        &mut self,
        index_count: u32,
        instance_count: u32,
        first_index: u32,
        vertex_offset: i32,
        first_instance: u32,
    )
        ensures
            final(self)@ == old(self)@.push(
                Command::DrawIndexed {
                    index_count,
                    instance_count,
                    first_index,
                    vertex_offset,
                    first_instance,
                },
            ),
    {
        self.commands.push(
            Command::DrawIndexed {
                index_count,
                instance_count,
                first_index,
                vertex_offset,
                first_instance,
            },
        );
    }

    /// Record a non-indexed draw.
    pub fn draw(&mut self, vertex_count: u32, instance_count: u32, first_vertex: u32, first_instance: u32)
        ensures
            final(self)@ == old(self)@.push(
                Command::Draw { vertex_count, instance_count, first_vertex, first_instance },
            ),
    {
        self.commands.push(
            Command::Draw { vertex_count, instance_count, first_vertex, first_instance },
        );
    }

    /// End the current rendering scope.
    pub fn end_rendering(&mut self)
        ensures
            final(self)@ == old(self)@.push(Command::EndRendering),
    {
        self.commands.push(Command::EndRendering);
    }
}

} // verus!
