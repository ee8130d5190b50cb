//! The geometry pass: renders every draw call into three color targets —
//! albedo, normal, world position — plus a depth buffer, all sized to the
//! render area.

use vstd::prelude::*;

use crate::allocator::Allocator;
use crate::command_buffer::AttachmentInfo;
use crate::command_buffer::ClearValue;
use crate::command_buffer::Command;
use crate::command_buffer::CommandBuffer;
use crate::command_buffer::IndexType;
use crate::command_buffer::LoadOp;
use crate::command_buffer::PushData;
use crate::command_buffer::StoreOp;
use crate::command_buffer_helpers::single_image_barrier;
use crate::command_buffer_helpers::single_image_pipeline_barrier;
use crate::draw_data::DrawCall;
use crate::draw_data::DrawData;
use crate::gpu_types::ACCESS_COLOR_ATTACHMENT_WRITE;
use crate::gpu_types::ACCESS_DEPTH_STENCIL_ATTACHMENT_WRITE;
use crate::gpu_types::ACCESS_NONE;
use crate::gpu_types::ASPECT_COLOR;
use crate::gpu_types::ASPECT_DEPTH;
use crate::gpu_types::Extent3D;
use crate::gpu_types::FORMAT_D32_SFLOAT;
use crate::gpu_types::FORMAT_R16G16B16A16_SFLOAT;
use crate::gpu_types::FORMAT_R8G8B8A8_UNORM;
use crate::gpu_types::IMAGE_USAGE_COLOR_ATTACHMENT;
use crate::gpu_types::IMAGE_USAGE_DEPTH_STENCIL_ATTACHMENT;
use crate::gpu_types::IMAGE_USAGE_SAMPLED;
use crate::gpu_types::ImageLayout;
use crate::gpu_types::Rect2D;
use crate::gpu_types::SHADER_STAGE_VERTEX;
use crate::gpu_types::STAGE_COLOR_ATTACHMENT_OUTPUT;
use crate::gpu_types::STAGE_EARLY_FRAGMENT_TESTS;
use crate::gpu_types::STAGE_TOP_OF_PIPE;
use crate::image::Image;
use crate::image::ImageCreateInfo;
use crate::matrix_bits::Mat4Bits;
use crate::render_pass_attachment_output::RenderPassAttachmentOutput;
use crate::shadow_map_render_pass::DEPTH_CLEAR_BITS;

verus! {

/// The format of the albedo color target.
pub const DEFERRED_COLOR_FORMAT: u32 = FORMAT_R8G8B8A8_UNORM;

/// The format of the normal target.
pub const DEFERRED_NORMAL_FORMAT: u32 = FORMAT_R16G16B16A16_SFLOAT;

/// The format of the world-position target.
pub const DEFERRED_POSITION_FORMAT: u32 = FORMAT_R16G16B16A16_SFLOAT;

/// The format of the depth buffer.
pub const DEFERRED_DEPTH_FORMAT: u32 = FORMAT_D32_SFLOAT;

/// A color attachment of the geometry scope: cleared to transparent
/// black on load, stored on end.
pub open spec fn geometry_color_attachment(view: u64) -> AttachmentInfo {
    AttachmentInfo {
        image_view: view,
        image_layout: ImageLayout::ColorAttachmentOptimal,
        load_op: LoadOp::Clear,
        store_op: StoreOp::Store,
        clear_value: ClearValue::Color { r: 0, g: 0, b: 0, a: 0 },
    }
}

/// The depth attachment of the geometry scope.
pub open spec fn geometry_depth_attachment(view: u64) -> AttachmentInfo {
    AttachmentInfo {
        image_view: view,
        image_layout: ImageLayout::DepthAttachmentOptimal,
        load_op: LoadOp::Clear,
        store_op: StoreOp::Store,
        clear_value: ClearValue::DepthStencil { depth: DEPTH_CLEAR_BITS, stencil: 0 },
    }
}

/// A barrier taking a freshly used color target into writable layout.
pub open spec fn geometry_color_barrier(img: Image) -> Command {
    Command::PipelineBarrier(
        single_image_barrier(
            img,
            STAGE_TOP_OF_PIPE,
            STAGE_COLOR_ATTACHMENT_OUTPUT,
            ACCESS_NONE,
            ACCESS_COLOR_ATTACHMENT_WRITE,
            ImageLayout::ColorAttachmentOptimal,
        ),
    )
}

/// The five commands of one geometry draw call: push the camera
/// matrices, bind the call's pipeline, bind both vertex streams and the
/// index buffer, draw indexed.
pub open spec fn geometry_draw_commands(
    dc: DrawCall,
    layout: u64,
    view: Mat4Bits,
    projection: Mat4Bits,
) -> Seq<Command> {
    seq![
        Command::PushConstants {
            layout,
            stage_flags: SHADER_STAGE_VERTEX,
            data: PushData::Geometry { model: dc.model, view, projection },
        },
        Command::BindPipeline { pipeline: dc.pipeline },
        Command::BindVertexBuffers {
            first_binding: 0,
            buffer0: dc.mesh.positions_buffer,
            buffer1: Some(dc.mesh.attributes_buffer),
        },
        Command::BindIndexBuffer { buffer: dc.mesh.index_buffer, index_type: IndexType::Uint32 },
        Command::DrawIndexed {
            index_count: dc.mesh.index_count,
            instance_count: 1,
            first_index: 0,
            vertex_offset: 0,
            first_instance: 0,
        },
    ]
}

/// The geometry draw blocks of a draw-call list, in order.
pub open spec fn geometry_draws(
    calls: Seq<DrawCall>,
    layout: u64,
    view: Mat4Bits,
    projection: Mat4Bits,
) -> Seq<Command>
    decreases calls.len(),
{
    if calls.len() == 0 {
        Seq::empty()
    } else {
        geometry_draws(calls.drop_last(), layout, view, projection) + geometry_draw_commands(
            calls.last(),
            layout,
            view,
            projection,
        )
    }
}

/// The six commands that open the geometry pass: four barriers — each
/// from its image's tracked current layout — then the rendering scope
/// over all four attachments.
pub open spec fn geometry_pass_prefix(p: DeferredRenderPass) -> Seq<Command> {
    seq![
        geometry_color_barrier(p.color_image),
        geometry_color_barrier(p.normal_image),
        geometry_color_barrier(p.position_image),
        Command::PipelineBarrier(
            single_image_barrier(
                p.depth_image,
                STAGE_TOP_OF_PIPE,
                STAGE_EARLY_FRAGMENT_TESTS,
                ACCESS_NONE,
                ACCESS_DEPTH_STENCIL_ATTACHMENT_WRITE,
                ImageLayout::DepthAttachmentOptimal,
            ),
        ),
        Command::BeginRendering {
            render_area: p.render_area,
            color0: Some(geometry_color_attachment(p.color_image.view_id)),
            color1: Some(geometry_color_attachment(p.normal_image.view_id)),
            color2: Some(geometry_color_attachment(p.position_image.view_id)),
            depth: Some(geometry_depth_attachment(p.depth_image.view_id)),
        },
    ]
}

/// Everything the geometry pass records for one frame.
pub open spec fn geometry_pass_commands(
    p: DeferredRenderPass,
    calls: Seq<DrawCall>,
    layout: u64,
    view: Mat4Bits,
    projection: Mat4Bits,
) -> Seq<Command> {
    geometry_pass_prefix(p) + geometry_draws(calls, layout, view, projection)
        + seq![Command::EndRendering]
}

/// The geometry pass with the four attachments its renders into after a
/// frame.
pub open spec fn geometry_pass_after_render(p: DeferredRenderPass) -> DeferredRenderPass {
    DeferredRenderPass {
        color_image: (Image { layout: ImageLayout::ColorAttachmentOptimal, ..p.color_image }),
        normal_image: (Image { layout: ImageLayout::ColorAttachmentOptimal, ..p.normal_image }),
        position_image: (Image { layout: ImageLayout::ColorAttachmentOptimal, ..p.position_image }),
        depth_image: (Image { layout: ImageLayout::DepthAttachmentOptimal, ..p.depth_image }),
        ..p
    }
}

/// The geometry pass: its render area and its four owned attachments.
pub struct DeferredRenderPass {
    pub render_area: Rect2D,
    pub color_image: Image,
    pub normal_image: Image,
    pub position_image: Image,
    pub depth_image: Image,
}

/// The geometry pass's output descriptor set.
#[derive(Clone, Copy, PartialEq, Eq, Structural, Debug)]
pub struct DeferredRenderPassOutput {
    pub color: RenderPassAttachmentOutput,
    pub normal: RenderPassAttachmentOutput,
    pub position: RenderPassAttachmentOutput,
    pub depth: RenderPassAttachmentOutput,
}

impl DeferredRenderPass {
    /// Pass invariant: the four attachments are distinct live resources.
    pub open spec fn wf(&self) -> bool {
        &&& self.color_image.alive
        &&& self.normal_image.alive
        &&& self.position_image.alive
        &&& self.depth_image.alive
        &&& self.color_image.id != self.normal_image.id
        &&& self.color_image.id != self.position_image.id
        &&& self.color_image.id != self.depth_image.id
        &&& self.normal_image.id != self.position_image.id
        &&& self.normal_image.id != self.depth_image.id
        &&& self.position_image.id != self.depth_image.id
        &&& self.color_image.id == self.color_image.alloc_id
        &&& self.normal_image.id == self.normal_image.alloc_id
        &&& self.position_image.id == self.position_image.alloc_id
        &&& self.depth_image.id == self.depth_image.alloc_id
    }

    /// True if all four backing allocations are live in `a`.
    pub open spec fn backed_by(&self, a: Allocator) -> bool {
        &&& a.is_live(self.color_image.alloc_id)
        &&& a.is_live(self.normal_image.alloc_id)
        &&& a.is_live(self.position_image.alloc_id)
        &&& a.is_live(self.depth_image.alloc_id)
    }

    /// True if `x` is one of the four attachment ids.
    pub open spec fn owns_image(&self, x: u64) -> bool {
        x == self.color_image.id || x == self.normal_image.id || x == self.position_image.id || x
            == self.depth_image.id
    }

    /// Create the three color targets and the depth buffer, all sized to
    /// `render_area`, all in undefined layout.
    pub fn new(a: &mut Allocator, render_area: &Rect2D) -> (p: DeferredRenderPass)
        requires
            old(a).wf(),
            old(a).can_allocate(4),
        ensures
            final(a).wf(),
            p.wf(),
            p.backed_by(*final(a)),
            p.render_area == *render_area,
            p.color_image.layout == ImageLayout::Undefined,
            p.normal_image.layout == ImageLayout::Undefined,
            p.position_image.layout == ImageLayout::Undefined,
            p.depth_image.layout == ImageLayout::Undefined,
            p.color_image.format == DEFERRED_COLOR_FORMAT,
            p.normal_image.format == DEFERRED_NORMAL_FORMAT,
            p.position_image.format == DEFERRED_POSITION_FORMAT,
            p.depth_image.format == DEFERRED_DEPTH_FORMAT,
            p.color_image.aspect_mask == ASPECT_COLOR,
            p.normal_image.aspect_mask == ASPECT_COLOR,
            p.position_image.aspect_mask == ASPECT_COLOR,
            p.depth_image.aspect_mask == ASPECT_DEPTH,
            forall|x: u64| old(a).is_fresh(x) || !p.owns_image(x),
            forall|x: u64| !p.owns_image(x) ==> final(a).is_live(x) == old(a).is_live(x),
            forall|x: u64| p.owns_image(x) ==> !old(a).is_live(x),
            final(a).count() == old(a).count() + 4,
            forall|n: nat| old(a).can_allocate(n + 4) ==> final(a).can_allocate(n),
            forall|x: u64| final(a).is_fresh(x) ==> !p.owns_image(x),
            forall|x: u64| final(a).is_fresh(x) ==> old(a).is_fresh(x),
    {
        let color_image = Self::create_color_image(a, render_area, DEFERRED_COLOR_FORMAT);
        let normal_image = Self::create_color_image(a, render_area, DEFERRED_NORMAL_FORMAT);
        let position_image = Self::create_color_image(a, render_area, DEFERRED_POSITION_FORMAT);
        let depth_image = Self::create_depth_image(a, render_area);
        let p = DeferredRenderPass {
            render_area: *render_area,
            color_image,
            normal_image,
            position_image,
            depth_image,
        };
        proof {
            assert forall|x: u64| old(a).is_fresh(x) || !p.owns_image(x) by {
                if !old(a).is_fresh(x) {
                    assert(x < old(a).next_id);
                }
            }
        }
        p
    }

    /// Release the four attachments.
    pub fn destroy(&mut self, a: &mut Allocator)
        requires
            old(a).wf(),
            old(self).wf(),
            old(self).backed_by(*old(a)),
        ensures
            final(a).wf(),
            final(a).count() == old(a).count() - 4,
            forall|x: u64| old(self).owns_image(x) ==> !final(a).is_live(x),
            forall|x: u64| !old(self).owns_image(x) ==> final(a).is_live(x) == old(a).is_live(x),
            forall|n: nat| old(a).can_allocate(n) ==> final(a).can_allocate(n),
            !final(self).color_image.alive,
            !final(self).normal_image.alive,
            !final(self).position_image.alive,
            !final(self).depth_image.alive,
    {
        let _ = self.color_image.destroy(a);
        let _ = self.normal_image.destroy(a);
        let _ = self.position_image.destroy(a);
        let _ = self.depth_image.destroy(a);
    }

    /// Record one frame of the geometry pass: transition all four
    /// attachments from their tracked layouts, render every draw call
    /// with the camera matrices, end the scope.
    pub fn render(&mut self, command_buffer: &mut CommandBuffer, draw_data: &DrawData)
        ensures
            final(command_buffer)@ == old(command_buffer)@ + geometry_pass_commands(
                *old(self),
                draw_data.draw_calls@,
                draw_data.deferred_pipeline_layout,
                draw_data.view,
                draw_data.projection,
            ),
            *final(self) == geometry_pass_after_render(*old(self)),
    {
        let ghost pre_self = *old(self);
        let ghost cb0 = old(command_buffer)@;
        self.begin_render_pass(command_buffer);
        let ghost prefix = cb0 + geometry_pass_prefix(pre_self);

        let layout = draw_data.deferred_pipeline_layout;
        let view = draw_data.view;
        let projection = draw_data.projection;
        let ghost post_self = *self;

        let num_calls = draw_data.draw_calls.len();
        let mut i: usize = 0;
        while i < num_calls
            invariant
                *self == post_self,
                num_calls == draw_data.draw_calls@.len(),
                i <= num_calls,
                layout == draw_data.deferred_pipeline_layout,
                view == draw_data.view,
                projection == draw_data.projection,
                command_buffer@ == prefix + geometry_draws(
                    draw_data.draw_calls@.take(i as int),
                    layout,
                    view,
                    projection,
                ),
            decreases num_calls - i,
        {
            let dc = &draw_data.draw_calls[i];
            command_buffer.push_constants(
                layout,
                SHADER_STAGE_VERTEX,
                PushData::Geometry { model: dc.model, view, projection },
            );
            command_buffer.bind_pipeline(dc.pipeline);
            command_buffer.bind_vertex_buffers(
                0,
                dc.mesh.positions_buffer,
                Some(dc.mesh.attributes_buffer),
            );
            command_buffer.bind_index_buffer(dc.mesh.index_buffer, IndexType::Uint32);
            command_buffer.draw_indexed(dc.mesh.index_count, 1, 0, 0, 0);
            proof {
                let calls = draw_data.draw_calls@;
                assert(calls.take(i + 1).drop_last() =~= calls.take(i as int));
                assert(calls.take(i + 1).last() == calls[i as int]);
                assert(command_buffer@ =~= prefix + geometry_draws(
                    calls.take(i + 1),
                    layout,
                    view,
                    projection,
                ));
            }
            i += 1;
        }
        self.end_render_pass(command_buffer);
        proof {
            let calls = draw_data.draw_calls@;
            assert(calls.take(calls.len() as int) =~= calls);
            assert(command_buffer@ =~= cb0 + geometry_pass_commands(
                pre_self,
                calls,
                draw_data.deferred_pipeline_layout,
                draw_data.view,
                draw_data.projection,
            ));
        }
    }

    /// Transition the four attachments for writing and open the
    /// rendering scope over them.
    fn begin_render_pass(&mut self, command_buffer: &mut CommandBuffer)
        ensures
            final(command_buffer)@ == old(command_buffer)@ + geometry_pass_prefix(*old(self)),
            *final(self) == geometry_pass_after_render(*old(self)),
    {
        single_image_pipeline_barrier(
            command_buffer,
            &mut self.color_image,
            STAGE_TOP_OF_PIPE,
            STAGE_COLOR_ATTACHMENT_OUTPUT,
            ACCESS_NONE,
            ACCESS_COLOR_ATTACHMENT_WRITE,
            ImageLayout::ColorAttachmentOptimal,
        );
        single_image_pipeline_barrier(
            command_buffer,
            &mut self.normal_image,
            STAGE_TOP_OF_PIPE,
            STAGE_COLOR_ATTACHMENT_OUTPUT,
            ACCESS_NONE,
            ACCESS_COLOR_ATTACHMENT_WRITE,
            ImageLayout::ColorAttachmentOptimal,
        );
        single_image_pipeline_barrier(
            command_buffer,
            &mut self.position_image,
            STAGE_TOP_OF_PIPE,
            STAGE_COLOR_ATTACHMENT_OUTPUT,
            ACCESS_NONE,
            ACCESS_COLOR_ATTACHMENT_WRITE,
            ImageLayout::ColorAttachmentOptimal,
        );
        single_image_pipeline_barrier(
            command_buffer,
            &mut self.depth_image,
            STAGE_TOP_OF_PIPE,
            STAGE_EARLY_FRAGMENT_TESTS,
            ACCESS_NONE,
            ACCESS_DEPTH_STENCIL_ATTACHMENT_WRITE,
            ImageLayout::DepthAttachmentOptimal,
        );
        let color_attachment = AttachmentInfo {
            image_view: self.color_image.view_id,
            image_layout: ImageLayout::ColorAttachmentOptimal,
            load_op: LoadOp::Clear,
            store_op: StoreOp::Store,
            clear_value: ClearValue::Color { r: 0, g: 0, b: 0, a: 0 },
        };
        let normal_attachment = AttachmentInfo {
            image_view: self.normal_image.view_id,
            image_layout: ImageLayout::ColorAttachmentOptimal,
            load_op: LoadOp::Clear,
            store_op: StoreOp::Store,
            clear_value: ClearValue::Color { r: 0, g: 0, b: 0, a: 0 },
        };
        let position_attachment = AttachmentInfo {
            image_view: self.position_image.view_id,
            image_layout: ImageLayout::ColorAttachmentOptimal,
            load_op: LoadOp::Clear,
            store_op: StoreOp::Store,
            clear_value: ClearValue::Color { r: 0, g: 0, b: 0, a: 0 },
        };
        let depth_attachment = AttachmentInfo {
            image_view: self.depth_image.view_id,
            image_layout: ImageLayout::DepthAttachmentOptimal,
            load_op: LoadOp::Clear,
            store_op: StoreOp::Store,
            clear_value: ClearValue::DepthStencil { depth: DEPTH_CLEAR_BITS, stencil: 0 },
        };
        command_buffer.begin_rendering(
            self.render_area,
            Some(color_attachment),
            Some(normal_attachment),
            Some(position_attachment),
            Some(depth_attachment),
        );
        proof {
            assert(command_buffer@ =~= old(command_buffer)@ + geometry_pass_prefix(*old(self)));
        }
    }

    /// Close the rendering scope.
    fn end_render_pass(&self, command_buffer: &mut CommandBuffer)
        ensures
            final(command_buffer)@ == old(command_buffer)@.push(Command::EndRendering),
    {
        command_buffer.end_rendering();
    }

    /// A color target sized to the render area, usable as a sampled
    /// input of the lighting pass.
    fn create_color_image(a: &mut Allocator, render_area: &Rect2D, format: u32) -> (img: Image)
        requires
            old(a).wf(),
            old(a).can_allocate(1),
        ensures
            final(a).wf(),
            img.alive,
            img.layout == ImageLayout::Undefined,
            img.format == format,
            img.aspect_mask == ASPECT_COLOR,
            img.id == img.alloc_id,
            img.view_id == img.alloc_id,
            !old(a).is_live(img.alloc_id),
            old(a).is_fresh(img.alloc_id),
            final(a).is_live(img.alloc_id),
            forall|x: u64| x != img.alloc_id ==> final(a).is_live(x) == old(a).is_live(x),
            final(a).count() == old(a).count() + 1,
            forall|n: nat| old(a).can_allocate(n + 1) ==> final(a).can_allocate(n),
            forall|x: u64| final(a).is_fresh(x) ==> x != img.alloc_id,
            forall|x: u64| final(a).is_fresh(x) ==> old(a).is_fresh(x),
    {
        let create_info = ImageCreateInfo {
            extent: Extent3D {
                width: render_area.extent.width,
                height: render_area.extent.height,
                depth: 1,
            },
            format,
            usage: IMAGE_USAGE_COLOR_ATTACHMENT | IMAGE_USAGE_SAMPLED,
            aspect_mask: ASPECT_COLOR,
        };
        Image::new(a, &create_info)
    }

    /// The depth buffer sized to the render area.
    fn create_depth_image(a: &mut Allocator, render_area: &Rect2D) -> (img: Image)
        requires
            old(a).wf(),
            old(a).can_allocate(1),
        ensures
            final(a).wf(),
            img.alive,
            img.layout == ImageLayout::Undefined,
            img.format == DEFERRED_DEPTH_FORMAT,
            img.aspect_mask == ASPECT_DEPTH,
            img.id == img.alloc_id,
            img.view_id == img.alloc_id,
            !old(a).is_live(img.alloc_id),
            old(a).is_fresh(img.alloc_id),
            final(a).is_live(img.alloc_id),
            forall|x: u64| x != img.alloc_id ==> final(a).is_live(x) == old(a).is_live(x),
            final(a).count() == old(a).count() + 1,
            forall|n: nat| old(a).can_allocate(n + 1) ==> final(a).can_allocate(n),
            forall|x: u64| final(a).is_fresh(x) ==> x != img.alloc_id,
            forall|x: u64| final(a).is_fresh(x) ==> old(a).is_fresh(x),
    {
        let create_info = ImageCreateInfo {
            extent: Extent3D {
                width: render_area.extent.width,
                height: render_area.extent.height,
                depth: 1,
            },
            format: DEFERRED_DEPTH_FORMAT,
            usage: IMAGE_USAGE_DEPTH_STENCIL_ATTACHMENT,
            aspect_mask: ASPECT_DEPTH,
        };
        Image::new(a, &create_info)
    }

    /// The four attachments' hand-off descriptors, each carrying its
    /// image's tracked current layout.
    pub fn get_output(&self) -> (r: DeferredRenderPassOutput)
        ensures
            r.color == (RenderPassAttachmentOutput {
                image: self.color_image.id,
                image_view: self.color_image.view_id,
                image_layout: self.color_image.layout,
            }),
            r.normal == (RenderPassAttachmentOutput {
                image: self.normal_image.id,
                image_view: self.normal_image.view_id,
                image_layout: self.normal_image.layout,
            }),
            r.position == (RenderPassAttachmentOutput {
                image: self.position_image.id,
                image_view: self.position_image.view_id,
                image_layout: self.position_image.layout,
            }),
            r.depth == (RenderPassAttachmentOutput {
                image: self.depth_image.id,
                image_view: self.depth_image.view_id,
                image_layout: self.depth_image.layout,
            }),
    {
        DeferredRenderPassOutput {
            color: RenderPassAttachmentOutput {
                image: self.color_image.id,
                image_view: self.color_image.view_id,
                image_layout: self.color_image.layout,
            },
            normal: RenderPassAttachmentOutput {
                image: self.normal_image.id,
                image_view: self.normal_image.view_id,
                image_layout: self.normal_image.layout,
            },
            position: RenderPassAttachmentOutput {
                image: self.position_image.id,
                image_view: self.position_image.view_id,
                image_layout: self.position_image.layout,
            },
            depth: RenderPassAttachmentOutput {
                image: self.depth_image.id,
                image_view: self.depth_image.view_id,
                image_layout: self.depth_image.layout,
            },
        }
    }
}

} // verus!
