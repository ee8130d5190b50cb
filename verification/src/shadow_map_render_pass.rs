//! The shadow pass: renders scene depth from the light's point of view
//! into a fixed-resolution depth image.

use vstd::prelude::*;

use crate::allocator::Allocator;
use crate::allocator::UsageViolation;
use crate::command_buffer::AttachmentInfo;
use crate::command_buffer::ClearValue;
use crate::command_buffer::Command;
use crate::command_buffer::CommandBuffer;
use crate::command_buffer::IndexType;
use crate::command_buffer::LoadOp;
use crate::command_buffer::PushData;
use crate::command_buffer::StoreOp;
use crate::command_buffer_helpers::single_image_barrier;
use crate::command_buffer_helpers::single_image_pipeline_barrier;
use crate::draw_data::DrawCall;
use crate::draw_data::DrawData;
use crate::gpu_types::ACCESS_DEPTH_STENCIL_ATTACHMENT_WRITE;
use crate::gpu_types::ACCESS_NONE;
use crate::gpu_types::ASPECT_DEPTH;
use crate::gpu_types::Extent2D;
use crate::gpu_types::Extent3D;
use crate::gpu_types::FORMAT_D32_SFLOAT;
use crate::gpu_types::IMAGE_USAGE_DEPTH_STENCIL_ATTACHMENT;
use crate::gpu_types::IMAGE_USAGE_SAMPLED;
use crate::gpu_types::ImageLayout;
use crate::gpu_types::Offset2D;
use crate::gpu_types::Rect2D;
use crate::gpu_types::SHADER_STAGE_VERTEX;
use crate::gpu_types::STAGE_EARLY_FRAGMENT_TESTS;
use crate::gpu_types::STAGE_TOP_OF_PIPE;
use crate::image::Image;
use crate::image::ImageCreateInfo;
use crate::matrix_bits::F32_ONE_BITS;
use crate::matrix_bits::Mat4Bits;
use crate::pipeline_manager::ShadowMapMaterial;
use crate::render_pass_attachment_output::RenderPassAttachmentOutput;

verus! {

/// Side length of the square shadow map, independent of the swapchain.
pub const SHADOW_MAP_RESOLUTION: u32 = 2048;

/// Bit pattern of the depth value attachments are cleared to (one: the
/// far plane).
pub const DEPTH_CLEAR_BITS: u32 = F32_ONE_BITS;

/// The shadow map's render area.
pub open spec fn spec_shadow_map_dimensions() -> Rect2D {
    Rect2D {
        offset: Offset2D { x: 0, y: 0 },
        extent: Extent2D { width: SHADOW_MAP_RESOLUTION, height: SHADOW_MAP_RESOLUTION },
    }
}

/// The shadow map's render area.
pub fn shadow_map_dimensions() -> (r: Rect2D)
    ensures
        r == spec_shadow_map_dimensions(),
{
    Rect2D {
        offset: Offset2D { x: 0, y: 0 },
        extent: Extent2D { width: SHADOW_MAP_RESOLUTION, height: SHADOW_MAP_RESOLUTION },
    }
}

/// The depth attachment of the shadow rendering scope: cleared on load,
/// stored on end.
pub open spec fn shadow_depth_attachment(depth_view: u64) -> AttachmentInfo {
    AttachmentInfo {
        image_view: depth_view,
        image_layout: ImageLayout::DepthAttachmentOptimal,
        load_op: LoadOp::Clear,
        store_op: StoreOp::Store,
        clear_value: ClearValue::DepthStencil { depth: DEPTH_CLEAR_BITS, stencil: 0 },
    }
}

/// The five commands of one shadow draw call: push the light's matrices,
/// bind the shadow pipeline, bind the position stream and the index
/// buffer, draw indexed.
pub open spec fn shadow_draw_commands(
    dc: DrawCall,
    layout: u64,
    pipeline: u64,
    view: Mat4Bits,
    projection: Mat4Bits,
) -> Seq<Command> {
    seq![
        Command::PushConstants {
            layout,
            stage_flags: SHADER_STAGE_VERTEX,
            data: PushData::Geometry { model: dc.model, view, projection },
        },
        Command::BindPipeline { pipeline },
        Command::BindVertexBuffers {
            first_binding: 0,
            buffer0: dc.mesh.positions_buffer,
            buffer1: None,
        },
        Command::BindIndexBuffer { buffer: dc.mesh.index_buffer, index_type: IndexType::Uint32 },
        Command::DrawIndexed {
            index_count: dc.mesh.index_count,
            instance_count: 1,
            first_index: 0,
            vertex_offset: 0,
            first_instance: 0,
        },
    ]
}

/// The shadow draw blocks of a draw-call list, in order.
pub open spec fn shadow_draws(
    calls: Seq<DrawCall>,
    layout: u64,
    pipeline: u64,
    view: Mat4Bits,
    projection: Mat4Bits,
) -> Seq<Command>
    decreases calls.len(),
{
    if calls.len() == 0 {
        Seq::empty()
    } else {
        shadow_draws(calls.drop_last(), layout, pipeline, view, projection)
            + shadow_draw_commands(calls.last(), layout, pipeline, view, projection)
    }
}

/// Everything the shadow pass records for one frame: the depth barrier
/// (from the image's tracked current layout), the rendering scope, the
/// draw blocks, and the scope's end.
pub open spec fn shadow_pass_commands(p: ShadowMapRenderPass, dd_calls: Seq<DrawCall>, view: Mat4Bits, projection: Mat4Bits) -> Seq<
    Command,
> {
    seq![
        Command::PipelineBarrier(
            single_image_barrier(
                p.depth_image,
                STAGE_TOP_OF_PIPE,
                STAGE_EARLY_FRAGMENT_TESTS,
                ACCESS_NONE,
                ACCESS_DEPTH_STENCIL_ATTACHMENT_WRITE,
                ImageLayout::DepthAttachmentOptimal,
            ),
        ),
        Command::BeginRendering {
            render_area: spec_shadow_map_dimensions(),
            color0: None,
            color1: None,
            color2: None,
            depth: Some(shadow_depth_attachment(p.depth_image.view_id)),
        },
    ] + shadow_draws(
        dd_calls,
        p.shadow_map_material.layout,
        p.shadow_map_material.pipeline,
        view,
        projection,
    ) + seq![Command::EndRendering]
}

/// The shadow pass: its depth attachment and the material it draws with.
pub struct ShadowMapRenderPass {
    pub depth_image: Image,
    pub shadow_map_material: ShadowMapMaterial,
}

impl ShadowMapRenderPass {
    /// Create the fixed-resolution depth image and keep the shadow
    /// material.
    pub fn new(a: &mut Allocator, shadow_map_material: ShadowMapMaterial) -> (p:
        ShadowMapRenderPass)
        requires
            old(a).wf(),
            old(a).can_allocate(1),
        ensures
            final(a).wf(),
            p.shadow_map_material == shadow_map_material,
            p.depth_image.alive,
            p.depth_image.layout == ImageLayout::Undefined,
            p.depth_image.aspect_mask == ASPECT_DEPTH,
            p.depth_image.format == FORMAT_D32_SFLOAT,
            p.depth_image.id == p.depth_image.alloc_id,
            p.depth_image.view_id == p.depth_image.alloc_id,
            p.depth_image.extent == (Extent3D {
                width: SHADOW_MAP_RESOLUTION,
                height: SHADOW_MAP_RESOLUTION,
                depth: 1,
            }),
            !old(a).is_live(p.depth_image.alloc_id),
            old(a).is_fresh(p.depth_image.alloc_id),
            final(a).is_live(p.depth_image.alloc_id),
            forall|x: u64|
                x != p.depth_image.alloc_id ==> final(a).is_live(x) == old(a).is_live(x),
            final(a).count() == old(a).count() + 1,
            forall|n: nat| old(a).can_allocate(n + 1) ==> final(a).can_allocate(n),
            forall|x: u64| final(a).is_fresh(x) ==> x != p.depth_image.alloc_id,
            forall|x: u64| final(a).is_fresh(x) ==> old(a).is_fresh(x),
    {
        let depth_image = Self::create_depth_image(a);
        ShadowMapRenderPass { depth_image, shadow_map_material }
    }

    /// Release the depth image.
    pub fn destroy(&mut self, a: &mut Allocator) -> (r: Result<(), UsageViolation>)
        requires
            old(a).wf(),
        ensures
            final(a).wf(),
            old(self).depth_image.alive && old(a).is_live(old(self).depth_image.alloc_id) ==> {
                &&& r is Ok
                &&& !final(a).is_live(old(self).depth_image.alloc_id)
                &&& final(a).count() == old(a).count() - 1
            },
            !old(self).depth_image.alive ==> r == Result::<(), UsageViolation>::Err(
                UsageViolation::DoubleFree,
            ) && *final(a) == *old(a),
            !final(self).depth_image.alive,
            forall|x: u64|
                x != old(self).depth_image.alloc_id ==> final(a).is_live(x) == old(a).is_live(x),
            forall|n: nat| old(a).can_allocate(n) ==> final(a).can_allocate(n),
    {
        self.depth_image.destroy(a)
    }

    /// Record one frame of the shadow pass: transition the depth image
    /// from its tracked layout, render every draw call depth-only with
    /// the light's matrices, end the scope.
    pub fn render(&mut self, command_buffer: &mut CommandBuffer, draw_data: &DrawData)
        ensures
            final(command_buffer)@ == old(command_buffer)@ + shadow_pass_commands(
                *old(self),
                draw_data.draw_calls@,
                draw_data.directional_light.view,
                draw_data.directional_light.projection,
            ),
            *final(self) == (ShadowMapRenderPass {
                depth_image: (Image {
                    layout: ImageLayout::DepthAttachmentOptimal,
                    ..old(self).depth_image
                }),
                ..*old(self)
            }),
    {
        let ghost pre_self = *old(self);
        let ghost cb0 = old(command_buffer)@;
        self.begin_render_pass(command_buffer);
        let ghost prefix = cb0 + shadow_pass_prefix(pre_self);

        let view = draw_data.directional_light.get_view();
        let projection = draw_data.directional_light.get_projection();
        let layout = self.shadow_map_material.layout;
        let pipeline = self.shadow_map_material.pipeline;
        let ghost post_self = *self;

        let num_calls = draw_data.draw_calls.len();
        let mut i: usize = 0;
        while i < num_calls
            invariant
                *self == post_self,
                num_calls == draw_data.draw_calls@.len(),
                i <= num_calls,
                layout == pre_self.shadow_map_material.layout,
                pipeline == pre_self.shadow_map_material.pipeline,
                command_buffer@ == prefix + shadow_draws(
                    draw_data.draw_calls@.take(i as int),
                    layout,
                    pipeline,
                    view,
                    projection,
                ),
            decreases num_calls - i,
        {
            let dc = &draw_data.draw_calls[i];
            command_buffer.push_constants(
                layout,
                SHADER_STAGE_VERTEX,
                PushData::Geometry { model: dc.model, view, projection },
            );
            command_buffer.bind_pipeline(pipeline);
            command_buffer.bind_vertex_buffers(0, dc.mesh.positions_buffer, None);
            command_buffer.bind_index_buffer(dc.mesh.index_buffer, IndexType::Uint32);
            command_buffer.draw_indexed(dc.mesh.index_count, 1, 0, 0, 0);
            proof {
                let calls = draw_data.draw_calls@;
                assert(calls.take(i + 1).drop_last() =~= calls.take(i as int));
                assert(calls.take(i + 1).last() == calls[i as int]);
                assert(command_buffer@ =~= prefix + shadow_draws(
                    calls.take(i + 1),
                    layout,
                    pipeline,
                    view,
                    projection,
                ));
            }
            i += 1;
        }
        self.end_render_pass(command_buffer);
        proof {
            let calls = draw_data.draw_calls@;
            assert(calls.take(calls.len() as int) =~= calls);
            assert(command_buffer@ =~= cb0 + shadow_pass_commands(
                pre_self,
                calls,
                draw_data.directional_light.view,
                draw_data.directional_light.projection,
            ));
        }
    }

    /// Transition the depth image for writing and open the depth-only
    /// rendering scope.
    fn begin_render_pass(&mut self, command_buffer: &mut CommandBuffer)
        ensures
            final(command_buffer)@ == old(command_buffer)@ + shadow_pass_prefix(*old(self)),
            *final(self) == (ShadowMapRenderPass {
                depth_image: (Image {
                    layout: ImageLayout::DepthAttachmentOptimal,
                    ..old(self).depth_image
                }),
                ..*old(self)
            }),
    {
        single_image_pipeline_barrier(
            command_buffer,
            &mut self.depth_image,
            STAGE_TOP_OF_PIPE,
            STAGE_EARLY_FRAGMENT_TESTS,
            ACCESS_NONE,
            ACCESS_DEPTH_STENCIL_ATTACHMENT_WRITE,
            ImageLayout::DepthAttachmentOptimal,
        );
        let depth_attachment = AttachmentInfo {
            image_view: self.depth_image.view_id,
            image_layout: ImageLayout::DepthAttachmentOptimal,
            load_op: LoadOp::Clear,
            store_op: StoreOp::Store,
            clear_value: ClearValue::DepthStencil { depth: DEPTH_CLEAR_BITS, stencil: 0 },
        };
        command_buffer.begin_rendering(
            shadow_map_dimensions(),
            None,
            None,
            None,
            Some(depth_attachment),
        );
        proof {
            assert(command_buffer@ =~= old(command_buffer)@ + shadow_pass_prefix(*old(self)));
        }
    }

    /// Close the rendering scope.
    fn end_render_pass(&self, command_buffer: &mut CommandBuffer)
        ensures
            final(command_buffer)@ == old(command_buffer)@.push(Command::EndRendering),
    {
        command_buffer.end_rendering();
    }

    /// The fixed-resolution depth image, usable as a sampled shadow map.
    fn create_depth_image(a: &mut Allocator) -> (img: Image)
        requires
            old(a).wf(),
            old(a).can_allocate(1),
        ensures
            final(a).wf(),
            img.alive,
            img.layout == ImageLayout::Undefined,
            img.aspect_mask == ASPECT_DEPTH,
            img.format == FORMAT_D32_SFLOAT,
            img.id == img.alloc_id,
            img.view_id == img.alloc_id,
            img.extent == (Extent3D {
                width: SHADOW_MAP_RESOLUTION,
                height: SHADOW_MAP_RESOLUTION,
                depth: 1,
            }),
            !old(a).is_live(img.alloc_id),
            old(a).is_fresh(img.alloc_id),
            final(a).is_live(img.alloc_id),
            forall|x: u64| x != img.alloc_id ==> final(a).is_live(x) == old(a).is_live(x),
            final(a).count() == old(a).count() + 1,
            forall|n: nat| old(a).can_allocate(n + 1) ==> final(a).can_allocate(n),
            forall|x: u64| final(a).is_fresh(x) ==> x != img.alloc_id,
            forall|x: u64| final(a).is_fresh(x) ==> old(a).is_fresh(x),
    {
        let create_info = ImageCreateInfo {
            extent: Extent3D { width: SHADOW_MAP_RESOLUTION, height: SHADOW_MAP_RESOLUTION, depth: 1 },
            format: FORMAT_D32_SFLOAT,
            usage: IMAGE_USAGE_DEPTH_STENCIL_ATTACHMENT | IMAGE_USAGE_SAMPLED,
            aspect_mask: ASPECT_DEPTH,
        };
        Image::new(a, &create_info)
    }

    /// The depth attachment's hand-off descriptor, carrying the image's
    /// tracked current layout.
    pub fn get_output(&self) -> (r: ShadowMapRenderPassOutput)
        ensures
            r.depth.image == self.depth_image.id,
            r.depth.image_view == self.depth_image.view_id,
            r.depth.image_layout == self.depth_image.layout,
    {
        ShadowMapRenderPassOutput {
            depth: RenderPassAttachmentOutput {
                image: self.depth_image.id,
                image_view: self.depth_image.view_id,
                image_layout: self.depth_image.layout,
            },
        }
    }
}

/// The two commands that open the shadow pass: the depth barrier and the
/// rendering scope.
pub open spec fn shadow_pass_prefix(p: ShadowMapRenderPass) -> Seq<Command> {
    seq![
        Command::PipelineBarrier(
            single_image_barrier(
                p.depth_image,
                STAGE_TOP_OF_PIPE,
                STAGE_EARLY_FRAGMENT_TESTS,
                ACCESS_NONE,
                ACCESS_DEPTH_STENCIL_ATTACHMENT_WRITE,
                ImageLayout::DepthAttachmentOptimal,
            ),
        ),
        Command::BeginRendering {
            render_area: spec_shadow_map_dimensions(),
            color0: None,
            color1: None,
            color2: None,
            depth: Some(shadow_depth_attachment(p.depth_image.view_id)),
        },
    ]
}

/// The shadow pass's output descriptor set.
#[derive(Clone, Copy, PartialEq, Eq, Structural, Debug)]
pub struct ShadowMapRenderPassOutput {
    pub depth: RenderPassAttachmentOutput,
}

} // verus!
