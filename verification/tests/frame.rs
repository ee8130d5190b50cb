//! The frame orchestrator: fence gating, the recorded frame stream, and
//! the cross-pass layout hand-off.

use deferred_renderer::allocator::Allocator;
use deferred_renderer::command_buffer::ClearValue;
use deferred_renderer::command_buffer::Command;
use deferred_renderer::command_buffer::LoadOp;
use deferred_renderer::draw_data::DirectionalLight;
use deferred_renderer::draw_data::DrawCall;
use deferred_renderer::draw_data::DrawData;
use deferred_renderer::draw_data::MeshData;
use deferred_renderer::frame_worker::Fence;
use deferred_renderer::frame_worker::FrameWorker;
use deferred_renderer::gpu_types::Extent2D;
use deferred_renderer::gpu_types::FORMAT_R8G8B8A8_UNORM;
use deferred_renderer::gpu_types::ImageLayout;
use deferred_renderer::gpu_types::Offset2D;
use deferred_renderer::gpu_types::Rect2D;
use deferred_renderer::gpu_types::STAGE_BOTTOM_OF_PIPE;
use deferred_renderer::gpu_types::STAGE_COLOR_ATTACHMENT_OUTPUT;
use deferred_renderer::matrix_bits::Mat4Bits;
use deferred_renderer::matrix_bits::Vec3Bits;
use deferred_renderer::pipeline_manager::DeferredLightningMaterial;
use deferred_renderer::pipeline_manager::ShadowMapMaterial;

fn make_worker(a: &mut Allocator) -> FrameWorker {
    let swapchain_image = a.allocate();
    let shadow_material = ShadowMapMaterial { pipeline: 11, layout: 12 };
    let lightning_material = DeferredLightningMaterial { pipeline: 21, layout: 22, set: 23 };
    let render_area = Rect2D {
        offset: Offset2D { x: 0, y: 0 },
        extent: Extent2D { width: 640, height: 480 },
    };
    FrameWorker::new(
        a,
        shadow_material,
        lightning_material,
        swapchain_image,
        100,
        FORMAT_R8G8B8A8_UNORM,
        &render_area,
        1000,
        1001,
        1002,
    )
}

fn empty_snapshot() -> DrawData {
    let identity = Mat4Bits::identity();
    let light = DirectionalLight::new(identity, identity, identity);
    DrawData::new(identity, identity, Vec3Bits::new(0, 0, 1.0f32.to_bits()), light, 31)
}

#[test]
fn fence_gates_command_pool_reset() {
    let mut a = Allocator::new();
    let mut w = make_worker(&mut a);

    // The fence is created signalled: the first frame may begin.
    assert!(w.try_begin_frame());
    let dd = empty_snapshot();
    w.draw(&dd);
    let info = w.submit(2001, 2002);
    assert_eq!(info.wait_semaphore, 2001);
    assert_eq!(info.wait_stage, STAGE_COLOR_ATTACHMENT_OUTPUT);
    assert_eq!(info.signal_semaphore, 2002);
    assert_eq!(info.signal_stage, STAGE_BOTTOM_OF_PIPE);
    assert_eq!(info.fence, 1000);
    let pr = w.present();
    assert_eq!(pr.wait_semaphore, 2002);
    let present_fence = Fence { id: 77, signaled: true };
    let retired = w.retire_semaphores(&present_fence);
    assert_eq!(retired, (1001, 1002));

    // A slow GPU: the fence has not been observed signalled, so the
    // orchestrator refuses to reset the slot's command pool.
    assert!(!w.try_begin_frame());
    assert!(!w.try_begin_frame());

    // The wait returns; now the next frame may begin.
    w.observe_fence_signaled();
    assert!(w.try_begin_frame());
}

#[test]
fn zero_draw_frame_stream() {
    let mut a = Allocator::new();
    let mut w = make_worker(&mut a);
    assert!(w.try_begin_frame());
    let dd = empty_snapshot();
    w.draw(&dd);

    let cmds = w.command_buffer.commands();
    // Shadow pass: barrier, begin, end.  Geometry pass: four barriers,
    // begin, end.  Lighting pass: five barriers, begin, push, bind
    // pipeline, bind set, draw, end, present barrier.
    assert_eq!(cmds.len(), 21);

    // No geometry reaches the stream: not a single indexed draw.
    assert!(cmds.iter().all(|c| !matches!(c, Command::DrawIndexed { .. })));

    // Every attachment is cleared, none preserved: the geometry scope
    // clears its three color targets to transparent black.
    match &cmds[7] {
        Command::BeginRendering { color0, color1, color2, depth, .. } => {
            for att in [color0, color1, color2] {
                let att = att.expect("color attachment");
                assert_eq!(att.load_op, LoadOp::Clear);
                assert_eq!(att.clear_value, ClearValue::Color { r: 0, g: 0, b: 0, a: 0 });
            }
            assert!(depth.is_some());
        }
        other => panic!("expected geometry scope, found {:?}", other),
    }

    // The presented image is the lighting scope's clear color composited
    // by the one full-screen draw over the all-clear inputs.
    match &cmds[14] {
        Command::BeginRendering { color0, color1, color2, depth, .. } => {
            let att = color0.expect("swapchain attachment");
            assert_eq!(att.load_op, LoadOp::Clear);
            assert_eq!(att.clear_value, ClearValue::Color { r: 0, g: 0, b: 0, a: 0 });
            assert!(color1.is_none() && color2.is_none() && depth.is_none());
        }
        other => panic!("expected lighting scope, found {:?}", other),
    }
    assert_eq!(
        cmds[18],
        Command::Draw { vertex_count: 6, instance_count: 1, first_vertex: 0, first_instance: 0 }
    );

    // The frame ends with the swapchain image handed over for present.
    match &cmds[20] {
        Command::PipelineBarrier(b) => {
            assert_eq!(b.image, w.swapchain_image.id);
            assert_eq!(b.old_layout, ImageLayout::ColorAttachmentOptimal);
            assert_eq!(b.new_layout, ImageLayout::PresentSrc);
        }
        other => panic!("expected present barrier, found {:?}", other),
    }
    assert_eq!(w.swapchain_image.layout, ImageLayout::PresentSrc);
}

#[test]
fn layout_handoff_barriers_precede_composite_draw() {
    let mut a = Allocator::new();
    let mut w = make_worker(&mut a);
    let color = w.deferred_render_pass.color_image.id;
    let normal = w.deferred_render_pass.normal_image.id;
    let position = w.deferred_render_pass.position_image.id;
    let shadow_depth = w.shadow_map_render_pass.depth_image.id;

    assert!(w.try_begin_frame());
    let mut dd = empty_snapshot();
    let mesh = MeshData::new(36, 41, 42, 43);
    dd.add_draw_call(DrawCall::new(&mesh, Mat4Bits::identity(), 51));
    w.draw(&dd);

    let cmds = w.command_buffer.commands();
    // One draw call adds five commands to each of the shadow and
    // geometry passes.
    assert_eq!(cmds.len(), 31);

    // The lighting pass's input barriers take each producer output from
    // the exact layout its producer left it in to shader-readable.
    let expectations = [
        (20, color, ImageLayout::ColorAttachmentOptimal),
        (21, normal, ImageLayout::ColorAttachmentOptimal),
        (22, position, ImageLayout::ColorAttachmentOptimal),
        (23, shadow_depth, ImageLayout::DepthAttachmentOptimal),
    ];
    for (idx, image, produced) in expectations {
        match &cmds[idx] {
            Command::PipelineBarrier(b) => {
                assert_eq!(b.image, image);
                assert_eq!(b.old_layout, produced);
                assert_eq!(b.new_layout, ImageLayout::ShaderReadOnlyOptimal);
            }
            other => panic!("expected input barrier at {}, found {:?}", idx, other),
        }
    }

    // The composite draw comes strictly after all four input barriers.
    assert_eq!(
        cmds[28],
        Command::Draw { vertex_count: 6, instance_count: 1, first_vertex: 0, first_instance: 0 }
    );

    // The geometry draw block carries the call's mesh.
    match &cmds[16] {
        Command::BindIndexBuffer { buffer, .. } => assert_eq!(*buffer, 41),
        other => panic!("expected index-buffer bind, found {:?}", other),
    }
    match &cmds[17] {
        Command::DrawIndexed { index_count, .. } => assert_eq!(*index_count, 36),
        other => panic!("expected indexed draw, found {:?}", other),
    }
}

#[test]
fn teardown_balances_books() {
    let mut a = Allocator::new();
    let baseline = a.allocation_count();
    let mut w = make_worker(&mut a);
    // One swapchain handle plus five attachments.
    assert_eq!(a.allocation_count(), baseline + 6);
    w.destroy(&mut a);
    assert_eq!(a.allocation_count(), baseline + 1);
}
