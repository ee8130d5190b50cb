//! The frame orchestrator: one per swapchain image.
//!
//! Each slot cycles Idle, Recording, Submitted, Presented and back.  The
//! slot's fence is the sole guard against resetting a command pool the
//! GPU is still reading: `try_begin_frame` refuses to advance until the
//! fence has been observed signalled.  Blocking waits, submits and
//! presents are the embedder's outside work; the orchestrator hands it
//! exact descriptions of what to do and takes back the events.

use vstd::prelude::*;

use crate::allocator::Allocator;
use crate::command_buffer::Command;
use crate::command_buffer::CommandBuffer;
use crate::deferred_lightning_render_pass::DeferredLightningRenderPass;
use crate::deferred_lightning_render_pass::lighting_draw_offset;
use crate::deferred_lightning_render_pass::lighting_pass_commands;
use crate::deferred_render_pass::DeferredRenderPass;
use crate::deferred_render_pass::geometry_pass_after_render;
use crate::deferred_render_pass::geometry_pass_commands;
use crate::draw_data::DirectionalLight;
use crate::draw_data::DrawCall;
use crate::draw_data::DrawData;
use crate::gpu_types::ASPECT_COLOR;
use crate::gpu_types::Extent3D;
use crate::gpu_types::IMAGE_USAGE_COLOR_ATTACHMENT;
use crate::gpu_types::ImageLayout;
use crate::gpu_types::Rect2D;
use crate::gpu_types::STAGE_BOTTOM_OF_PIPE;
use crate::gpu_types::STAGE_COLOR_ATTACHMENT_OUTPUT;
use crate::image::Image;
use crate::matrix_bits::Mat4Bits;
use crate::matrix_bits::Vec3Bits;
use crate::pipeline_manager::DeferredLightningMaterial;
use crate::pipeline_manager::ShadowMapMaterial;
use crate::shadow_map_render_pass::ShadowMapRenderPass;
use crate::shadow_map_render_pass::shadow_pass_commands;

verus! {

/// A CPU-observable GPU-completion signal.
#[derive(Clone, Copy, PartialEq, Eq, Structural, Debug)]
pub struct Fence {
    pub id: u64,
    pub signaled: bool,
}

/// The synchronization triple of one slot: the queue fence and the two
/// per-frame semaphores.
#[derive(Clone, Copy, PartialEq, Eq, Structural, Debug)]
pub struct Synchronization {
    pub queue_fence: Fence,
    pub image_acquire_semaphore: u64,
    pub present_semaphore: u64,
}

impl Synchronization {
    /// A fresh triple.  The fence starts signalled: a valid initial
    /// state, since no prior submission exists to wait for.
    pub fn new(fence_id: u64, image_acquire_semaphore: u64, present_semaphore: u64) -> (r:
        Synchronization)
        ensures
            r == (Synchronization {
                queue_fence: Fence { id: fence_id, signaled: true },
                image_acquire_semaphore,
                present_semaphore,
            }),
    {
        Synchronization {
            queue_fence: Fence { id: fence_id, signaled: true },
            image_acquire_semaphore,
            present_semaphore,
        }
    }

    /// Store this frame's semaphores and hand back the retired pair for
    /// destruction.  Semaphores are never reused across frames: the old
    /// pair may still be referenced by an in-flight present.
    pub fn replace_semaphores(&mut self, image_acquire: u64, present: u64) -> (olds: (u64, u64))
        ensures
            olds == (old(self).image_acquire_semaphore, old(self).present_semaphore),
            *final(self) == (Synchronization {
                image_acquire_semaphore: image_acquire,
                present_semaphore: present,
                ..*old(self)
            }),
    {
        let olds = (self.image_acquire_semaphore, self.present_semaphore);
        self.image_acquire_semaphore = image_acquire;
        self.present_semaphore = present;
        olds
    }
}

/// Where a slot stands in its frame cycle.
#[derive(Clone, Copy, PartialEq, Eq, Structural, Debug)]
pub enum SlotState {
    Idle,
    Recording,
    Submitted,
    Presented,
}

/// What the embedder must submit: wait on the acquire semaphore at
/// color-attachment output, signal the fresh present semaphore, signal
/// the slot's fence.
#[derive(Clone, Copy, PartialEq, Eq, Structural, Debug)]
pub struct SubmitInfo {
    pub wait_semaphore: u64,
    pub wait_stage: u32,
    pub signal_semaphore: u64,
    pub signal_stage: u32,
    pub fence: u64,
}

/// What the embedder must present: wait on the render-complete
/// semaphore.
#[derive(Clone, Copy, PartialEq, Eq, Structural, Debug)]
pub struct PresentRequest {
    pub wait_semaphore: u64,
}

/// One slot's orchestrator: the swapchain image it renders to, its
/// synchronization triple, its command recording, and the three passes.
pub struct FrameWorker {
    pub swapchain_image: Image,
    pub synchronization: Synchronization,
    pub command_pool_resets: u64,
    pub command_buffer: CommandBuffer,
    pub state: SlotState,
    pub shadow_map_render_pass: ShadowMapRenderPass,
    pub deferred_render_pass: DeferredRenderPass,
    pub deferred_lightning_render_pass: DeferredLightningRenderPass,
    pub incoming_image_acquire_semaphore: u64,
    pub incoming_present_semaphore: u64,
}

/// What `try_begin_frame` guarantees: the relation between the worker
/// before (`w0`) and after (`w1`), and whether the slot advanced.  The
/// command pool is reset — and the recording cleared — exactly when the
/// slot was idle with its fence signalled.
pub open spec fn begin_frame_post(w0: FrameWorker, w1: FrameWorker, r: bool) -> bool {
    &&& r == (w0.state == SlotState::Idle && w0.synchronization.queue_fence.signaled)
    &&& !r ==> w1 == w0
    &&& r ==> {
        &&& w1.state == SlotState::Recording
        &&& w1.command_pool_resets == w0.command_pool_resets + 1
        &&& w1.command_buffer@ == Seq::<Command>::empty()
        &&& w1.synchronization == (Synchronization {
            queue_fence: Fence { id: w0.synchronization.queue_fence.id, signaled: false },
            ..w0.synchronization
        })
        &&& w1.swapchain_image == w0.swapchain_image
        &&& w1.shadow_map_render_pass == w0.shadow_map_render_pass
        &&& w1.deferred_render_pass == w0.deferred_render_pass
        &&& w1.deferred_lightning_render_pass == w0.deferred_lightning_render_pass
        &&& w1.incoming_image_acquire_semaphore == w0.incoming_image_acquire_semaphore
        &&& w1.incoming_present_semaphore == w0.incoming_present_semaphore
    }
}

/// A slot's command pool is never reset while its fence is unsignalled:
/// if `try_begin_frame` reset the pool, the slot was idle and the fence
/// had been observed signalled; with the fence unsignalled, nothing
/// changed at all.
pub proof fn lemma_fence_gating(w0: FrameWorker, w1: FrameWorker, r: bool)
    requires
        begin_frame_post(w0, w1, r),
    ensures
        w1.command_pool_resets != w0.command_pool_resets ==> w0.synchronization.queue_fence.signaled
            && w0.state == SlotState::Idle,
        !w0.synchronization.queue_fence.signaled ==> w1 == w0,
{
}

/// Everything one frame records, in order: the shadow pass, the geometry
/// pass, then the lighting-composite pass over the producers' states as
/// those passes leave them.
pub open spec fn frame_commands(
    w: FrameWorker,
    calls: Seq<DrawCall>,
    light: DirectionalLight,
    view: Mat4Bits,
    projection: Mat4Bits,
    view_direction: Vec3Bits,
    deferred_layout: u64,
) -> Seq<Command> {
    shadow_pass_commands(w.shadow_map_render_pass, calls, light.view, light.projection)
        + geometry_pass_commands(w.deferred_render_pass, calls, deferred_layout, view, projection)
        + lighting_pass_commands(
        w.deferred_lightning_render_pass.material,
        w.deferred_lightning_render_pass.render_area,
        w.swapchain_image,
        geometry_pass_after_render(w.deferred_render_pass),
        (ShadowMapRenderPass {
            depth_image: (Image {
                layout: ImageLayout::DepthAttachmentOptimal,
                ..w.shadow_map_render_pass.depth_image
            }),
            ..w.shadow_map_render_pass
        }),
        light.light_space,
        view_direction,
    )
}

/// Index of the lighting-composite full-screen draw within
/// `frame_commands`.
pub open spec fn lighting_draw_index(
    w: FrameWorker,
    calls: Seq<DrawCall>,
    light: DirectionalLight,
    view: Mat4Bits,
    projection: Mat4Bits,
    deferred_layout: u64,
) -> int {
    shadow_pass_commands(w.shadow_map_render_pass, calls, light.view, light.projection).len()
        + geometry_pass_commands(
        w.deferred_render_pass,
        calls,
        deferred_layout,
        view,
        projection,
    ).len() + lighting_draw_offset()
}

/// The layout `image` is in after executing `cmds` from layout `init`:
/// the last barrier on the image decides, or `init` if there is none.
pub open spec fn layout_in(cmds: Seq<Command>, image: u64, init: ImageLayout) -> ImageLayout
    decreases cmds.len(),
{
    if cmds.len() == 0 {
        init
    } else {
        match cmds.last() {
            Command::PipelineBarrier(b) => if b.image == image {
                b.new_layout
            } else {
                layout_in(cmds.drop_last(), image, init)
            },
            _ => layout_in(cmds.drop_last(), image, init),
        }
    }
}

/// One command appended: a barrier on the image decides the layout, any
/// other command leaves it.
pub proof fn lemma_layout_in_snoc(c: Seq<Command>, cmd: Command, image: u64, init: ImageLayout)
    ensures
        layout_in(c.push(cmd), image, init) == (match cmd {
            Command::PipelineBarrier(b) => if b.image == image {
                b.new_layout
            } else {
                layout_in(c, image, init)
            },
            _ => layout_in(c, image, init),
        }),
{
    assert(c.push(cmd).drop_last() =~= c);
    assert(c.push(cmd).last() == cmd);
}

/// The layout hand-off of the deferred design: in the commands one frame
/// records, when the lighting-composite full-screen draw executes, each
/// of the geometry pass's three color outputs and the shadow pass's
/// depth output is in shader-readable layout, and the swapchain image is
/// writable — whatever layouts the six images started the frame in.
pub proof fn lemma_layout_handoff(
    w: FrameWorker,
    calls: Seq<DrawCall>,
    light: DirectionalLight,
    view: Mat4Bits,
    projection: Mat4Bits,
    view_direction: Vec3Bits,
    deferred_layout: u64,
    init: ImageLayout,
)
    requires
        w.wf(),
    ensures
        ({
            let cmds = frame_commands(w, calls, light, view, projection, view_direction,
                deferred_layout);
            let di = lighting_draw_index(w, calls, light, view, projection, deferred_layout);
            &&& 0 <= di < cmds.len()
            &&& cmds[di] == (Command::Draw {
                vertex_count: 6,
                instance_count: 1,
                first_vertex: 0,
                first_instance: 0,
            })
            &&& layout_in(cmds.take(di), w.deferred_render_pass.color_image.id, init)
                == ImageLayout::ShaderReadOnlyOptimal
            &&& layout_in(cmds.take(di), w.deferred_render_pass.normal_image.id, init)
                == ImageLayout::ShaderReadOnlyOptimal
            &&& layout_in(cmds.take(di), w.deferred_render_pass.position_image.id, init)
                == ImageLayout::ShaderReadOnlyOptimal
            &&& layout_in(cmds.take(di), w.shadow_map_render_pass.depth_image.id, init)
                == ImageLayout::ShaderReadOnlyOptimal
            &&& layout_in(cmds.take(di), w.swapchain_image.id, init)
                == ImageLayout::ColorAttachmentOptimal
        }),
{
    let s1 = shadow_pass_commands(w.shadow_map_render_pass, calls, light.view, light.projection);
    let s2 = geometry_pass_commands(w.deferred_render_pass, calls, deferred_layout, view,
        projection);
    let g_after = geometry_pass_after_render(w.deferred_render_pass);
    let sh_after = ShadowMapRenderPass {
        depth_image: (Image {
            layout: ImageLayout::DepthAttachmentOptimal,
            ..w.shadow_map_render_pass.depth_image
        }),
        ..w.shadow_map_render_pass
    };
    let s3 = lighting_pass_commands(
        w.deferred_lightning_render_pass.material,
        w.deferred_lightning_render_pass.render_area,
        w.swapchain_image,
        g_after,
        sh_after,
        light.light_space,
        view_direction,
    );
    let cmds = frame_commands(w, calls, light, view, projection, view_direction, deferred_layout);
    let di = lighting_draw_index(w, calls, light, view, projection, deferred_layout);
    let base = s1 + s2;
    assert(cmds =~= base + s3);
    assert(s3.len() == 12);
    assert(di == base.len() + 9);
    assert(cmds[di] == s3[9]);
    assert(s3[9] == (Command::Draw {
        vertex_count: 6,
        instance_count: 1,
        first_vertex: 0,
        first_instance: 0,
    }));
    assert(cmds.take(di) =~= base + s3.take(9));

    let color = w.deferred_render_pass.color_image.id;
    let normal = w.deferred_render_pass.normal_image.id;
    let position = w.deferred_render_pass.position_image.id;
    let shadow_depth = w.shadow_map_render_pass.depth_image.id;
    let swapchain = w.swapchain_image.id;

    // Peel the nine commands of the lighting prefix from the right: four
    // non-barrier commands, then the five barriers, newest first.
    assert(base + s3.take(9) =~= (base + s3.take(8)).push(s3[8]));
    assert(base + s3.take(8) =~= (base + s3.take(7)).push(s3[7]));
    assert(base + s3.take(7) =~= (base + s3.take(6)).push(s3[6]));
    assert(base + s3.take(6) =~= (base + s3.take(5)).push(s3[5]));
    assert(base + s3.take(5) =~= (base + s3.take(4)).push(s3[4]));
    assert(base + s3.take(4) =~= (base + s3.take(3)).push(s3[3]));
    assert(base + s3.take(3) =~= (base + s3.take(2)).push(s3[2]));
    assert(base + s3.take(2) =~= (base + s3.take(1)).push(s3[1]));
    assert(base + s3.take(1) =~= (base + s3.take(0)).push(s3[0]));

    assert forall|img: u64|
        layout_in(base + s3.take(9), img, init) == layout_in(base + s3.take(5), img, init) by {
        lemma_layout_in_snoc(base + s3.take(8), s3[8], img, init);
        lemma_layout_in_snoc(base + s3.take(7), s3[7], img, init);
        lemma_layout_in_snoc(base + s3.take(6), s3[6], img, init);
        lemma_layout_in_snoc(base + s3.take(5), s3[5], img, init);
    }

    // The five barriers, newest first: the last one on each image
    // decides its layout at the draw.
    lemma_layout_in_snoc(base + s3.take(4), s3[4], color, init);
    lemma_layout_in_snoc(base + s3.take(3), s3[3], color, init);
    lemma_layout_in_snoc(base + s3.take(2), s3[2], color, init);
    lemma_layout_in_snoc(base + s3.take(1), s3[1], color, init);
    assert(layout_in(base + s3.take(5), color, init) == ImageLayout::ShaderReadOnlyOptimal);

    lemma_layout_in_snoc(base + s3.take(4), s3[4], normal, init);
    lemma_layout_in_snoc(base + s3.take(3), s3[3], normal, init);
    lemma_layout_in_snoc(base + s3.take(2), s3[2], normal, init);
    assert(layout_in(base + s3.take(5), normal, init) == ImageLayout::ShaderReadOnlyOptimal);

    lemma_layout_in_snoc(base + s3.take(4), s3[4], position, init);
    lemma_layout_in_snoc(base + s3.take(3), s3[3], position, init);
    assert(layout_in(base + s3.take(5), position, init) == ImageLayout::ShaderReadOnlyOptimal);

    lemma_layout_in_snoc(base + s3.take(4), s3[4], shadow_depth, init);
    assert(layout_in(base + s3.take(5), shadow_depth, init)
        == ImageLayout::ShaderReadOnlyOptimal);

    lemma_layout_in_snoc(base + s3.take(4), s3[4], swapchain, init);
    lemma_layout_in_snoc(base + s3.take(3), s3[3], swapchain, init);
    lemma_layout_in_snoc(base + s3.take(2), s3[2], swapchain, init);
    lemma_layout_in_snoc(base + s3.take(1), s3[1], swapchain, init);
    lemma_layout_in_snoc(base + s3.take(0), s3[0], swapchain, init);
    assert(layout_in(base + s3.take(5), swapchain, init)
        == ImageLayout::ColorAttachmentOptimal);
}

impl FrameWorker {
    /// Slot invariant: the four geometry attachments, the shadow map and
    /// the swapchain image are six distinct images.
    pub open spec fn wf(&self) -> bool {
        &&& self.deferred_render_pass.wf()
        &&& self.shadow_map_render_pass.depth_image.id
            == self.shadow_map_render_pass.depth_image.alloc_id
        &&& !self.deferred_render_pass.owns_image(self.shadow_map_render_pass.depth_image.id)
        &&& !self.deferred_render_pass.owns_image(self.swapchain_image.id)
        &&& self.swapchain_image.id != self.shadow_map_render_pass.depth_image.id
    }

    /// True if the five owned attachments' allocations are live in `a`.
    pub open spec fn backed_by(&self, a: Allocator) -> bool {
        &&& self.deferred_render_pass.backed_by(a)
        &&& a.is_live(self.shadow_map_render_pass.depth_image.alloc_id)
    }

    /// True if `x` backs one of the five owned attachments.
    pub open spec fn owns_image(&self, x: u64) -> bool {
        self.deferred_render_pass.owns_image(x) || x
            == self.shadow_map_render_pass.depth_image.id
    }

    /// Build the slot: its command recording, a signalled fence, the
    /// shadow and geometry attachments, and the lighting material.  The
    /// swapchain image and view, the surface format and the sync-object
    /// handles come from the embedder; the swapchain handle must predate
    /// this allocator's next fresh handle so the six images are
    /// distinct.
    pub fn new(
        a: &mut Allocator,
        shadow_map_material: ShadowMapMaterial,
        lightning_material: DeferredLightningMaterial,
        swapchain_image: u64,
        swapchain_image_view: u64,
        surface_format: u32,
        render_area: &Rect2D,
        fence_id: u64,
        image_acquire_semaphore: u64,
        present_semaphore: u64,
    ) -> (w: FrameWorker)
        requires
            old(a).wf(),
            old(a).can_allocate(5),
            !old(a).is_fresh(swapchain_image),
        ensures
            final(a).wf(),
            w.wf(),
            w.backed_by(*final(a)),
            w.state == SlotState::Idle,
            w.synchronization == (Synchronization {
                queue_fence: Fence { id: fence_id, signaled: true },
                image_acquire_semaphore,
                present_semaphore,
            }),
            w.command_pool_resets == 0,
            w.command_buffer@ == Seq::<Command>::empty(),
            w.swapchain_image.id == swapchain_image,
            w.swapchain_image.view_id == swapchain_image_view,
            w.swapchain_image.layout == ImageLayout::Undefined,
            w.shadow_map_render_pass.shadow_map_material == shadow_map_material,
            w.shadow_map_render_pass.depth_image.layout == ImageLayout::Undefined,
            w.deferred_render_pass.render_area == *render_area,
            w.deferred_render_pass.color_image.layout == ImageLayout::Undefined,
            w.deferred_render_pass.normal_image.layout == ImageLayout::Undefined,
            w.deferred_render_pass.position_image.layout == ImageLayout::Undefined,
            w.deferred_render_pass.depth_image.layout == ImageLayout::Undefined,
            w.deferred_lightning_render_pass.material == lightning_material,
            w.deferred_lightning_render_pass.render_area == *render_area,
            final(a).count() == old(a).count() + 5,
            forall|x: u64| !w.owns_image(x) ==> final(a).is_live(x) == old(a).is_live(x),
            forall|x: u64| w.owns_image(x) ==> !old(a).is_live(x),
            forall|n: nat| old(a).can_allocate(n + 5) ==> final(a).can_allocate(n),
    {
        let ghost a0 = *old(a);
        let shadow_map_render_pass = ShadowMapRenderPass::new(a, shadow_map_material);
        let ghost a1 = *a;
        let deferred_render_pass = DeferredRenderPass::new(a, render_area);
        proof {
            let sd = shadow_map_render_pass.depth_image;
            let g = deferred_render_pass;
            // The four geometry attachments were fresh when the shadow
            // map already existed, so all five ids are distinct, and all
            // five postdate the swapchain handle.
            assert(g.owns_image(g.color_image.id) && g.owns_image(g.normal_image.id)
                && g.owns_image(g.position_image.id) && g.owns_image(g.depth_image.id));
            assert(a1.is_fresh(g.color_image.id) && a1.is_fresh(g.normal_image.id) && a1.is_fresh(
                g.position_image.id,
            ) && a1.is_fresh(g.depth_image.id));
            assert(g.color_image.id != sd.alloc_id && g.normal_image.id != sd.alloc_id
                && g.position_image.id != sd.alloc_id && g.depth_image.id != sd.alloc_id);
            assert(a0.is_fresh(g.color_image.id) && a0.is_fresh(g.normal_image.id) && a0.is_fresh(
                g.position_image.id,
            ) && a0.is_fresh(g.depth_image.id));
            assert(a0.is_fresh(sd.alloc_id));
            assert(!a0.is_fresh(swapchain_image));
            assert(!g.owns_image(sd.alloc_id));
            assert(!g.owns_image(swapchain_image));
            assert(a.is_live(sd.alloc_id));
        }
        let deferred_lightning_render_pass = DeferredLightningRenderPass::new(
            lightning_material,
            render_area,
        );
        let synchronization = Synchronization::new(
            fence_id,
            image_acquire_semaphore,
            present_semaphore,
        );
        let swapchain = Image {
            id: swapchain_image,
            view_id: swapchain_image_view,
            extent: Extent3D {
                width: render_area.extent.width,
                height: render_area.extent.height,
                depth: 1,
            },
            format: surface_format,
            usage: IMAGE_USAGE_COLOR_ATTACHMENT,
            aspect_mask: ASPECT_COLOR,
            layout: ImageLayout::Undefined,
            alloc_id: 0,
            alive: false,
        };
        FrameWorker {
            swapchain_image: swapchain,
            synchronization,
            command_pool_resets: 0,
            command_buffer: CommandBuffer::new(),
            state: SlotState::Idle,
            shadow_map_render_pass,
            deferred_render_pass,
            deferred_lightning_render_pass,
            incoming_image_acquire_semaphore: image_acquire_semaphore,
            incoming_present_semaphore: present_semaphore,
        }
    }

    /// Try to move Idle to Recording.  Succeeds only when the slot is
    /// idle and its fence has been observed signalled; then the fence is
    /// reset, the command pool is reset and the recording starts empty.
    /// Otherwise nothing changes — the embedder must first wait for the
    /// fence and report it via `observe_fence_signaled`.
    pub fn try_begin_frame(&mut self) -> (r: bool)
        requires
            old(self).command_pool_resets < u64::MAX,
        ensures
            begin_frame_post(*old(self), *final(self), r),
    {
        if !(self.state == SlotState::Idle && self.synchronization.queue_fence.signaled) {
            return false;
        }
        self.synchronization.queue_fence.signaled = false;
        self.command_pool_resets = self.command_pool_resets + 1;
        self.command_buffer.clear();
        self.state = SlotState::Recording;
        true
    }

    /// Record one frame: shadow pass, geometry pass, then the
    /// lighting-composite pass, in that order, into this slot's command
    /// buffer.
    pub fn draw(&mut self, draw_data: &DrawData)
        requires
            old(self).state == SlotState::Recording,
        ensures
            final(self).command_buffer@ == old(self).command_buffer@ + frame_commands(
                *old(self),
                draw_data.draw_calls@,
                draw_data.directional_light,
                draw_data.view,
                draw_data.projection,
                draw_data.view_direction,
                draw_data.deferred_pipeline_layout,
            ),
            final(self).state == SlotState::Recording,
            final(self).swapchain_image == (Image {
                layout: ImageLayout::PresentSrc,
                ..old(self).swapchain_image
            }),
            final(self).shadow_map_render_pass == (ShadowMapRenderPass {
                depth_image: (Image {
                    layout: ImageLayout::ShaderReadOnlyOptimal,
                    ..old(self).shadow_map_render_pass.depth_image
                }),
                ..old(self).shadow_map_render_pass
            }),
            final(self).deferred_render_pass == (DeferredRenderPass {
                color_image: (Image {
                    layout: ImageLayout::ShaderReadOnlyOptimal,
                    ..old(self).deferred_render_pass.color_image
                }),
                normal_image: (Image {
                    layout: ImageLayout::ShaderReadOnlyOptimal,
                    ..old(self).deferred_render_pass.normal_image
                }),
                position_image: (Image {
                    layout: ImageLayout::ShaderReadOnlyOptimal,
                    ..old(self).deferred_render_pass.position_image
                }),
                depth_image: (Image {
                    layout: ImageLayout::DepthAttachmentOptimal,
                    ..old(self).deferred_render_pass.depth_image
                }),
                ..old(self).deferred_render_pass
            }),
            final(self).deferred_lightning_render_pass == old(
                self,
            ).deferred_lightning_render_pass,
            final(self).synchronization == old(self).synchronization,
            final(self).command_pool_resets == old(self).command_pool_resets,
            final(self).incoming_image_acquire_semaphore == old(
                self,
            ).incoming_image_acquire_semaphore,
            final(self).incoming_present_semaphore == old(self).incoming_present_semaphore,
    {
        self.shadow_map_render_pass.render(&mut self.command_buffer, draw_data);
        self.deferred_render_pass.render(&mut self.command_buffer, draw_data);
        self.deferred_lightning_render_pass.render(
            &mut self.command_buffer,
            &mut self.swapchain_image,
            &mut self.deferred_render_pass,
            &mut self.shadow_map_render_pass,
            &draw_data.directional_light.light_space,
            &draw_data.view_direction,
        );
        proof {
            assert(self.command_buffer@ =~= old(self).command_buffer@ + frame_commands(
                *old(self),
                draw_data.draw_calls@,
                draw_data.directional_light,
                draw_data.view,
                draw_data.projection,
                draw_data.view_direction,
                draw_data.deferred_pipeline_layout,
            ));
        }
    }

    /// End the recording and describe the submission: wait on the
    /// acquire semaphore at color-attachment output, signal the fresh
    /// present semaphore, signal the slot's fence.  The two semaphores
    /// are remembered so they can be stored when the frame retires.
    pub fn submit(&mut self, image_acquire_semaphore: u64, present_semaphore: u64) -> (info:
        SubmitInfo)
        requires
            old(self).state == SlotState::Recording,
        ensures
            *final(self) == (FrameWorker {
                state: SlotState::Submitted,
                incoming_image_acquire_semaphore: image_acquire_semaphore,
                incoming_present_semaphore: present_semaphore,
                ..*old(self)
            }),
            info == (SubmitInfo {
                wait_semaphore: image_acquire_semaphore,
                wait_stage: STAGE_COLOR_ATTACHMENT_OUTPUT,
                signal_semaphore: present_semaphore,
                signal_stage: STAGE_BOTTOM_OF_PIPE,
                fence: old(self).synchronization.queue_fence.id,
            }),
    {
        self.state = SlotState::Submitted;
        self.incoming_image_acquire_semaphore = image_acquire_semaphore;
        self.incoming_present_semaphore = present_semaphore;
        SubmitInfo {
            wait_semaphore: image_acquire_semaphore,
            wait_stage: STAGE_COLOR_ATTACHMENT_OUTPUT,
            signal_semaphore: present_semaphore,
            signal_stage: STAGE_BOTTOM_OF_PIPE,
            fence: self.synchronization.queue_fence.id,
        }
    }

    /// Report that a wait on this slot's fence returned: the GPU has
    /// finished the slot's last submission.
    pub fn observe_fence_signaled(&mut self)
        ensures
            *final(self) == (FrameWorker {
                synchronization: (Synchronization {
                    queue_fence: Fence {
                        id: old(self).synchronization.queue_fence.id,
                        signaled: true,
                    },
                    ..old(self).synchronization
                }),
                ..*old(self)
            }),
    {
        self.synchronization.queue_fence.signaled = true;
    }

    /// Describe the present: wait on the render-complete semaphore.
    pub fn present(&mut self) -> (r: PresentRequest)
        requires
            old(self).state == SlotState::Submitted,
        ensures
            *final(self) == (FrameWorker { state: SlotState::Presented, ..*old(self) }),
            r == (PresentRequest { wait_semaphore: old(self).incoming_present_semaphore }),
    {
        self.state = SlotState::Presented;
        PresentRequest { wait_semaphore: self.incoming_present_semaphore }
    }

    /// Retire the frame once the externally supplied present fence has
    /// been waited on: store this frame's semaphores and hand back the
    /// old pair for destruction.  The slot returns to Idle; its queue
    /// fence stays pending until the GPU signals it.
    pub fn retire_semaphores(&mut self, present_fence: &Fence) -> (olds: (u64, u64))
        requires
            old(self).state == SlotState::Presented,
            present_fence.signaled,
        ensures
            olds == (
                old(self).synchronization.image_acquire_semaphore,
                old(self).synchronization.present_semaphore,
            ),
            *final(self) == (FrameWorker {
                state: SlotState::Idle,
                synchronization: (Synchronization {
                    image_acquire_semaphore: old(self).incoming_image_acquire_semaphore,
                    present_semaphore: old(self).incoming_present_semaphore,
                    ..old(self).synchronization
                }),
                ..*old(self)
            }),
    {
        let olds = self.synchronization.replace_semaphores(
            self.incoming_image_acquire_semaphore,
            self.incoming_present_semaphore,
        );
        self.state = SlotState::Idle;
        olds
    }

    /// Tear the slot down: release the five owned attachments.  To be
    /// called only with the slot's fence observed signalled — the GPU
    /// has quiesced.
    pub fn destroy(&mut self, a: &mut Allocator)
        requires
            old(a).wf(),
            old(self).wf(),
            old(self).backed_by(*old(a)),
            old(self).shadow_map_render_pass.depth_image.alive,
            old(self).synchronization.queue_fence.signaled,
        ensures
            final(a).wf(),
            final(a).count() == old(a).count() - 5,
            forall|x: u64| old(self).owns_image(x) ==> !final(a).is_live(x),
            forall|x: u64| !old(self).owns_image(x) ==> final(a).is_live(x) == old(a).is_live(x),
            forall|n: nat| old(a).can_allocate(n) ==> final(a).can_allocate(n),
            !final(self).shadow_map_render_pass.depth_image.alive,
            !final(self).deferred_render_pass.color_image.alive,
            !final(self).deferred_render_pass.normal_image.alive,
            !final(self).deferred_render_pass.position_image.alive,
            !final(self).deferred_render_pass.depth_image.alive,
    {
        let _ = self.shadow_map_render_pass.destroy(a);
        self.deferred_render_pass.destroy(a);
    }
}

} // verus!
