//! Barrier helpers that keep the tracked image layout and the recorded
//! barrier in lock step.

use vstd::prelude::*;

use crate::command_buffer::Command;
use crate::command_buffer::CommandBuffer;
use crate::command_buffer::ImageMemoryBarrier;
use crate::command_buffer::QUEUE_FAMILY_IGNORED;
use crate::gpu_types::ImageLayout;
use crate::image::Image;

verus! {

/// The barrier `single_image_pipeline_barrier` records when it moves
/// `img` into `new_layout`.
pub open spec fn single_image_barrier(
    img: Image,
    src_stage_mask: u32,
    dst_stage_mask: u32,
    src_access_mask: u32,
    dst_access_mask: u32,
    new_layout: ImageLayout,
) -> ImageMemoryBarrier {
    ImageMemoryBarrier {
        src_stage_mask,
        dst_stage_mask,
        src_access_mask,
        dst_access_mask,
        old_layout: img.layout,
        new_layout,
        src_queue_family_index: QUEUE_FAMILY_IGNORED,
        dst_queue_family_index: QUEUE_FAMILY_IGNORED,
        image: img.id,
        aspect_mask: img.aspect_mask,
    }
}

/// Record a barrier over the whole of `image`, transitioning it from its
/// tracked current layout into `new_layout`, and update the tracked layout
/// to match.
pub fn single_image_pipeline_barrier(
    command_buffer: &mut CommandBuffer,
    image: &mut Image,
    src_stage_mask: u32,
    dst_stage_mask: u32,
    src_access_mask: u32,
    dst_access_mask: u32,
    new_layout: ImageLayout,
)
    ensures
        final(command_buffer)@ == old(command_buffer)@.push(
            Command::PipelineBarrier(
                single_image_barrier(
                    *old(image),
                    src_stage_mask,
                    dst_stage_mask,
                    src_access_mask,
                    dst_access_mask,
                    new_layout,
                ),
            ),
        ),
        *final(image) == (Image { layout: new_layout, ..*old(image) }),
{
    let barrier = ImageMemoryBarrier {
        src_stage_mask,
        dst_stage_mask,
        src_access_mask,
        dst_access_mask,
        old_layout: image.layout,
        new_layout,
        src_queue_family_index: QUEUE_FAMILY_IGNORED,
        dst_queue_family_index: QUEUE_FAMILY_IGNORED,
        image: image.id,
        aspect_mask: image.aspect_mask,
    };
    command_buffer.pipeline_barrier(barrier);
    image.layout = new_layout;
}

} // verus!
