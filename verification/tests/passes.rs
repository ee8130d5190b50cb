//! The render passes in isolation: recorded commands and the tracked
//! layouts their hand-off descriptors carry.

use deferred_renderer::allocator::Allocator;
use deferred_renderer::command_buffer::Command;
use deferred_renderer::command_buffer::CommandBuffer;
use deferred_renderer::deferred_render_pass::DeferredRenderPass;
use deferred_renderer::draw_data::DirectionalLight;
use deferred_renderer::draw_data::DrawData;
use deferred_renderer::gpu_types::Extent2D;
use deferred_renderer::gpu_types::ImageLayout;
use deferred_renderer::gpu_types::Offset2D;
use deferred_renderer::gpu_types::Rect2D;
use deferred_renderer::matrix_bits::Mat4Bits;
use deferred_renderer::matrix_bits::Vec3Bits;
use deferred_renderer::pipeline_manager::ShadowMapMaterial;
use deferred_renderer::shadow_map_render_pass::ShadowMapRenderPass;
use deferred_renderer::shadow_map_render_pass::SHADOW_MAP_RESOLUTION;

fn snapshot() -> DrawData {
    let identity = Mat4Bits::identity();
    let light = DirectionalLight::new(identity, identity, identity);
    DrawData::new(identity, identity, Vec3Bits::new(0, 0, 0), light, 7)
}

#[test]
fn shadow_pass_transitions_from_tracked_layout() {
    let mut a = Allocator::new();
    let material = ShadowMapMaterial { pipeline: 1, layout: 2 };
    let mut pass = ShadowMapRenderPass::new(&mut a, material);
    assert_eq!(pass.depth_image.layout, ImageLayout::Undefined);
    assert_eq!(pass.depth_image.extent.width, SHADOW_MAP_RESOLUTION);

    let mut cb = CommandBuffer::new();
    let dd = snapshot();
    pass.render(&mut cb, &dd);

    // First use: the barrier departs from the undefined layout.
    match &cb.commands()[0] {
        Command::PipelineBarrier(b) => {
            assert_eq!(b.image, pass.depth_image.id);
            assert_eq!(b.old_layout, ImageLayout::Undefined);
            assert_eq!(b.new_layout, ImageLayout::DepthAttachmentOptimal);
        }
        other => panic!("expected depth barrier, found {:?}", other),
    }
    assert_eq!(pass.depth_image.layout, ImageLayout::DepthAttachmentOptimal);

    // Second frame: the barrier departs from the layout the first frame
    // left, not from a hard-coded assumption.
    let mut cb2 = CommandBuffer::new();
    pass.render(&mut cb2, &dd);
    match &cb2.commands()[0] {
        Command::PipelineBarrier(b) => {
            assert_eq!(b.old_layout, ImageLayout::DepthAttachmentOptimal);
        }
        other => panic!("expected depth barrier, found {:?}", other),
    }

    let output = pass.get_output();
    assert_eq!(output.depth.image, pass.depth_image.id);
    assert_eq!(output.depth.image_layout, ImageLayout::DepthAttachmentOptimal);
}

#[test]
fn geometry_output_descriptors_carry_tracked_layouts() {
    let mut a = Allocator::new();
    let area = Rect2D {
        offset: Offset2D { x: 0, y: 0 },
        extent: Extent2D { width: 320, height: 200 },
    };
    let mut pass = DeferredRenderPass::new(&mut a, &area);

    let before = pass.get_output();
    assert_eq!(before.color.image_layout, ImageLayout::Undefined);
    assert_eq!(before.depth.image_layout, ImageLayout::Undefined);

    let mut cb = CommandBuffer::new();
    let dd = snapshot();
    pass.render(&mut cb, &dd);

    let after = pass.get_output();
    assert_eq!(after.color.image_layout, ImageLayout::ColorAttachmentOptimal);
    assert_eq!(after.normal.image_layout, ImageLayout::ColorAttachmentOptimal);
    assert_eq!(after.position.image_layout, ImageLayout::ColorAttachmentOptimal);
    assert_eq!(after.depth.image_layout, ImageLayout::DepthAttachmentOptimal);

    // The three color targets and the depth buffer are four distinct
    // images, all sized to the render area.
    let ids = [
        after.color.image,
        after.normal.image,
        after.position.image,
        after.depth.image,
    ];
    for i in 0..4 {
        for j in 0..4 {
            if i != j {
                assert_ne!(ids[i], ids[j]);
            }
        }
    }
    assert_eq!(pass.color_image.extent.width, 320);
    assert_eq!(pass.color_image.extent.height, 200);

    pass.destroy(&mut a);
    assert_eq!(a.allocation_count(), 0);
}
