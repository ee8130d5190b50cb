//! The lighting-composite pass: reads the geometry pass's three color
//! outputs and the shadow pass's depth output as sampled images and
//! composites one full-screen draw into the swapchain image.
//!
//! This pass owns the critical cross-pass hand-off: at its start it
//! transitions all four inputs into shader-readable layout and the
//! swapchain image into writable layout, each barrier naming the exact
//! tracked layout its producer left the image in; at its end it hands the
//! swapchain image over for presentation.

use vstd::prelude::*;

use crate::command_buffer::AttachmentInfo;
use crate::command_buffer::ClearValue;
use crate::command_buffer::Command;
use crate::command_buffer::CommandBuffer;
use crate::command_buffer::LoadOp;
use crate::command_buffer::PushData;
use crate::command_buffer::StoreOp;
use crate::command_buffer_helpers::single_image_barrier;
use crate::command_buffer_helpers::single_image_pipeline_barrier;
use crate::deferred_render_pass::DeferredRenderPass;
use crate::gpu_types::ACCESS_COLOR_ATTACHMENT_WRITE;
use crate::gpu_types::ACCESS_NONE;
use crate::gpu_types::ACCESS_SHADER_READ;
use crate::gpu_types::ImageLayout;
use crate::gpu_types::Rect2D;
use crate::gpu_types::SHADER_STAGE_FRAGMENT;
use crate::gpu_types::STAGE_BOTTOM_OF_PIPE;
use crate::gpu_types::STAGE_COLOR_ATTACHMENT_OUTPUT;
use crate::gpu_types::STAGE_FRAGMENT_SHADER;
use crate::gpu_types::STAGE_TOP_OF_PIPE;
use crate::image::Image;
use crate::matrix_bits::Mat4Bits;
use crate::matrix_bits::Vec3Bits;
use crate::pipeline_manager::DeferredLightningMaterial;
use crate::shadow_map_render_pass::ShadowMapRenderPass;

verus! {

/// A barrier taking a producer's output into shader-readable layout,
/// from the exact tracked layout the producer left it in.
pub open spec fn sampled_input_barrier(img: Image) -> Command {
    Command::PipelineBarrier(
        single_image_barrier(
            img,
            STAGE_TOP_OF_PIPE,
            STAGE_FRAGMENT_SHADER,
            ACCESS_NONE,
            ACCESS_SHADER_READ,
            ImageLayout::ShaderReadOnlyOptimal,
        ),
    )
}

/// The swapchain attachment of the composite scope: cleared to
/// transparent black on load, stored on end.
pub open spec fn swapchain_attachment(view: u64) -> AttachmentInfo {
    AttachmentInfo {
        image_view: view,
        image_layout: ImageLayout::ColorAttachmentOptimal,
        load_op: LoadOp::Clear,
        store_op: StoreOp::Store,
        clear_value: ClearValue::Color { r: 0, g: 0, b: 0, a: 0 },
    }
}

/// Everything the lighting-composite pass records for one frame, given
/// the states of the swapchain image and the two producer passes as they
/// stand when the pass begins.
pub open spec fn lighting_pass_commands(
    material: DeferredLightningMaterial,
    render_area: Rect2D,
    swapchain_image: Image,
    geometry: DeferredRenderPass,
    shadow: ShadowMapRenderPass,
    light_space: Mat4Bits,
    view_direction: Vec3Bits,
) -> Seq<Command> {
    seq![
        Command::PipelineBarrier(
            single_image_barrier(
                swapchain_image,
                STAGE_COLOR_ATTACHMENT_OUTPUT,
                STAGE_COLOR_ATTACHMENT_OUTPUT,
                ACCESS_NONE,
                ACCESS_COLOR_ATTACHMENT_WRITE,
                ImageLayout::ColorAttachmentOptimal,
            ),
        ),
        sampled_input_barrier(geometry.color_image),
        sampled_input_barrier(geometry.normal_image),
        sampled_input_barrier(geometry.position_image),
        sampled_input_barrier(shadow.depth_image),
        Command::BeginRendering {
            render_area,
            color0: Some(swapchain_attachment(swapchain_image.view_id)),
            color1: None,
            color2: None,
            depth: None,
        },
        Command::PushConstants {
            layout: material.layout,
            stage_flags: SHADER_STAGE_FRAGMENT,
            data: PushData::Lighting { light_space, view_direction },
        },
        Command::BindPipeline { pipeline: material.pipeline },
        Command::BindDescriptorSet { layout: material.layout, set: material.set },
        Command::Draw { vertex_count: 6, instance_count: 1, first_vertex: 0, first_instance: 0 },
        Command::EndRendering,
        Command::PipelineBarrier(
            single_image_barrier(
                (Image { layout: ImageLayout::ColorAttachmentOptimal, ..swapchain_image }),
                STAGE_COLOR_ATTACHMENT_OUTPUT,
                STAGE_BOTTOM_OF_PIPE,
                ACCESS_COLOR_ATTACHMENT_WRITE,
                ACCESS_NONE,
                ImageLayout::PresentSrc,
            ),
        ),
    ]
}

/// Index of the full-screen composite draw inside
/// `lighting_pass_commands`.
pub open spec fn lighting_draw_offset() -> int {
    9
}

/// The lighting-composite pass: its render area and material.  The
/// producer outputs are taken at render time, so their tracked layouts
/// are always current.
pub struct DeferredLightningRenderPass {
    pub render_area: Rect2D,
    pub material: DeferredLightningMaterial,
}

impl DeferredLightningRenderPass {
    /// Keep the composite material and the render area.
    pub fn new(material: DeferredLightningMaterial, render_area: &Rect2D) -> (p:
        DeferredLightningRenderPass)
        ensures
            p.material == material,
            p.render_area == *render_area,
    {
        DeferredLightningRenderPass { render_area: *render_area, material }
    }

    /// Record one frame of the composite: transition the swapchain image
    /// for writing and all four producer outputs for sampling — each
    /// from its tracked current layout — draw the full-screen triangle
    /// pair, and hand the swapchain image over for presentation.
    pub fn render(
        &self,
        command_buffer: &mut CommandBuffer,
        swapchain_image: &mut Image,
        geometry: &mut DeferredRenderPass,
        shadow: &mut ShadowMapRenderPass,
        light_space: &Mat4Bits,
        view_direction: &Vec3Bits,
    )
        ensures
            final(command_buffer)@ == old(command_buffer)@ + lighting_pass_commands(
                self.material,
                self.render_area,
                *old(swapchain_image),
                *old(geometry),
                *old(shadow),
                *light_space,
                *view_direction,
            ),
            *final(swapchain_image) == (Image {
                layout: ImageLayout::PresentSrc,
                ..*old(swapchain_image)
            }),
            *final(geometry) == (DeferredRenderPass {
                color_image: (Image {
                    layout: ImageLayout::ShaderReadOnlyOptimal,
                    ..old(geometry).color_image
                }),
                normal_image: (Image {
                    layout: ImageLayout::ShaderReadOnlyOptimal,
                    ..old(geometry).normal_image
                }),
                position_image: (Image {
                    layout: ImageLayout::ShaderReadOnlyOptimal,
                    ..old(geometry).position_image
                }),
                ..*old(geometry)
            }),
            *final(shadow) == (ShadowMapRenderPass {
                depth_image: (Image {
                    layout: ImageLayout::ShaderReadOnlyOptimal,
                    ..old(shadow).depth_image
                }),
                ..*old(shadow)
            }),
    {
        // Swapchain image becomes writable; the four inputs become
        // readable, each from the exact layout its producer left.
        single_image_pipeline_barrier(
            command_buffer,
            swapchain_image,
            STAGE_COLOR_ATTACHMENT_OUTPUT,
            STAGE_COLOR_ATTACHMENT_OUTPUT,
            ACCESS_NONE,
            ACCESS_COLOR_ATTACHMENT_WRITE,
            ImageLayout::ColorAttachmentOptimal,
        );
        single_image_pipeline_barrier(
            command_buffer,
            &mut geometry.color_image,
            STAGE_TOP_OF_PIPE,
            STAGE_FRAGMENT_SHADER,
            ACCESS_NONE,
            ACCESS_SHADER_READ,
            ImageLayout::ShaderReadOnlyOptimal,
        );
        single_image_pipeline_barrier(
            command_buffer,
            &mut geometry.normal_image,
            STAGE_TOP_OF_PIPE,
            STAGE_FRAGMENT_SHADER,
            ACCESS_NONE,
            ACCESS_SHADER_READ,
            ImageLayout::ShaderReadOnlyOptimal,
        );
        single_image_pipeline_barrier(
            command_buffer,
            &mut geometry.position_image,
            STAGE_TOP_OF_PIPE,
            STAGE_FRAGMENT_SHADER,
            ACCESS_NONE,
            ACCESS_SHADER_READ,
            ImageLayout::ShaderReadOnlyOptimal,
        );
        single_image_pipeline_barrier(
            command_buffer,
            &mut shadow.depth_image,
            STAGE_TOP_OF_PIPE,
            STAGE_FRAGMENT_SHADER,
            ACCESS_NONE,
            ACCESS_SHADER_READ,
            ImageLayout::ShaderReadOnlyOptimal,
        );
        let attachment = AttachmentInfo {
            image_view: swapchain_image.view_id,
            image_layout: ImageLayout::ColorAttachmentOptimal,
            load_op: LoadOp::Clear,
            store_op: StoreOp::Store,
            clear_value: ClearValue::Color { r: 0, g: 0, b: 0, a: 0 },
        };
        command_buffer.begin_rendering(self.render_area, Some(attachment), None, None, None);
        command_buffer.push_constants(
            self.material.layout,
            SHADER_STAGE_FRAGMENT,
            PushData::Lighting { light_space: *light_space, view_direction: *view_direction },
        );
        command_buffer.bind_pipeline(self.material.pipeline);
        command_buffer.bind_descriptor_set(self.material.layout, self.material.set);
        command_buffer.draw(6, 1, 0, 0);
        command_buffer.end_rendering();
        // Hand the swapchain image over for presentation.
        single_image_pipeline_barrier(
            command_buffer,
            swapchain_image,
            STAGE_COLOR_ATTACHMENT_OUTPUT,
            STAGE_BOTTOM_OF_PIPE,
            ACCESS_COLOR_ATTACHMENT_WRITE,
            ACCESS_NONE,
            ImageLayout::PresentSrc,
        );
        proof {
            assert(command_buffer@ =~= old(command_buffer)@ + lighting_pass_commands(
                self.material,
                self.render_area,
                *old(swapchain_image),
                *old(geometry),
                *old(shadow),
                *light_space,
                *view_direction,
            ));
        }
    }
}

} // verus!
