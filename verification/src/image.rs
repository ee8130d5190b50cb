//! A device-local image: handle, view, backing allocation, and its tracked
//! current layout.
//!
//! The layout field realizes the tracked layout state machine: every
//! barrier helper reads the image's current layout as the transition source
//! and writes the new layout back, so a pass can never name a stale layout
//! in a barrier.

use vstd::prelude::*;

use crate::allocator::Allocator;
use crate::allocator::UsageViolation;
use crate::gpu_types::Extent3D;
use crate::gpu_types::ImageLayout;

verus! {

/// Everything `Image::new` needs to know about the image to create.
pub struct ImageCreateInfo {
    pub extent: Extent3D,
    pub format: u32,
    pub usage: u32,
    pub aspect_mask: u32,
}

/// One allocated image with its view.  The handle pair is the model's
/// identity for the underlying API objects; the embedder keys its real
/// handles by them.  `layout` is the tracked current layout; `alive` is
/// true until the image is destroyed.
pub struct Image {
    pub id: u64,
    pub view_id: u64,
    pub extent: Extent3D,
    pub format: u32,
    pub usage: u32,
    pub aspect_mask: u32,
    pub layout: ImageLayout,
    pub alloc_id: u64,
    pub alive: bool,
}

impl Image {
    /// Allocate a device-local image with no initial data.  No layout
    /// transition is issued: the image is undefined until a pass
    /// transitions it.
    pub fn new(a: &mut Allocator, create_info: &ImageCreateInfo) -> (img: Image)
        requires
            old(a).wf(),
            old(a).can_allocate(1),
        ensures
            final(a).wf(),
            img.alive,
            img.layout == ImageLayout::Undefined,
            img.extent == create_info.extent,
            img.format == create_info.format,
            img.usage == create_info.usage,
            img.aspect_mask == create_info.aspect_mask,
            img.id == img.alloc_id,
            img.view_id == img.alloc_id,
            !old(a).is_live(img.alloc_id),
            old(a).is_fresh(img.alloc_id),
            final(a).is_live(img.alloc_id),
            forall|x: u64| x != img.alloc_id ==> final(a).is_live(x) == old(a).is_live(x),
            final(a).count() == old(a).count() + 1,
            forall|n: nat| old(a).can_allocate(n + 1) ==> final(a).can_allocate(n),
            forall|x: u64| final(a).is_fresh(x) ==> x != img.alloc_id,
            forall|x: u64| final(a).is_fresh(x) ==> old(a).is_fresh(x),
    {
        let alloc_id = a.allocate();
        Image {
            id: alloc_id,
            view_id: alloc_id,
            extent: create_info.extent,
            format: create_info.format,
            usage: create_info.usage,
            aspect_mask: create_info.aspect_mask,
            layout: ImageLayout::Undefined,
            alloc_id,
            alive: true,
        }
    }

    /// Free the allocation, then drop the image and view objects.  A second
    /// destroy is a usage violation: reported, and the books left
    /// untouched.
    pub fn destroy(&mut self, a: &mut Allocator) -> (r: Result<(), UsageViolation>)
        requires
            old(a).wf(),
        ensures
            final(a).wf(),
            old(self).alive && old(a).is_live(old(self).alloc_id) ==> {
                &&& r is Ok
                &&& !final(a).is_live(old(self).alloc_id)
                &&& final(a).count() == old(a).count() - 1
            },
            !old(self).alive ==> r == Result::<(), UsageViolation>::Err(
                UsageViolation::DoubleFree,
            ) && *final(a) == *old(a),
            !final(self).alive,
            final(self).alloc_id == old(self).alloc_id,
            forall|x: u64| x != old(self).alloc_id ==> final(a).is_live(x) == old(a).is_live(x),
            forall|n: nat| old(a).can_allocate(n) ==> final(a).can_allocate(n),
            forall|x: u64| old(a).is_fresh(x) == final(a).is_fresh(x),
    {
        if !self.alive {
            return Err(UsageViolation::DoubleFree);
        }
        self.alive = false;
        a.free(self.alloc_id)
    }
}

} // verus!
