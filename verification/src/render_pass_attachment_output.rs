//! The hand-off descriptor between passes: a rendered surface, its view,
//! and the layout its producer left it in.  It carries no ownership, only
//! reference and expected-layout metadata.

use vstd::prelude::*;

use crate::gpu_types::ImageLayout;

verus! {

/// A read-only descriptor of a previously rendered attachment.
#[derive(Clone, Copy, PartialEq, Eq, Structural, Debug)]
pub struct RenderPassAttachmentOutput {
    pub image: u64,
    pub image_view: u64,
    pub image_layout: ImageLayout,
}

} // verus!
