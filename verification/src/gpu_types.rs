//! Plain-value types for the GPU API boundary.
//!
//! Device objects are opaque handles, so the model carries them as integers;
//! flag sets are the API's documented bit patterns; image layouts, which the
//! core must track and transition correctly, are a first-class enum.

use vstd::prelude::*;

verus! {

/// The memory arrangement an image is in, tracked per image so that every
/// barrier names the true current layout of its target.
#[derive(Clone, Copy, PartialEq, Eq, Structural, Debug)]
pub enum ImageLayout {
    /// Initial layout of a newly created image; contents undefined.
    Undefined,
    /// Writable as a color render target.
    ColorAttachmentOptimal,
    /// Writable as a depth render target.
    DepthAttachmentOptimal,
    /// Readable by a shader as a sampled image.
    ShaderReadOnlyOptimal,
    /// Hand-off layout for presentation to the surface.
    PresentSrc,
}

/// Pipeline stage bits, as the API numbers them.
pub const STAGE_TOP_OF_PIPE: u32 = 0x1;
pub const STAGE_FRAGMENT_SHADER: u32 = 0x80;
pub const STAGE_EARLY_FRAGMENT_TESTS: u32 = 0x100;
pub const STAGE_COLOR_ATTACHMENT_OUTPUT: u32 = 0x400;
pub const STAGE_BOTTOM_OF_PIPE: u32 = 0x2000;

/// Memory access bits, as the API numbers them.
pub const ACCESS_NONE: u32 = 0x0;
pub const ACCESS_SHADER_READ: u32 = 0x20;
pub const ACCESS_COLOR_ATTACHMENT_WRITE: u32 = 0x100;
pub const ACCESS_DEPTH_STENCIL_ATTACHMENT_WRITE: u32 = 0x400;

/// Image aspect bits.
pub const ASPECT_COLOR: u32 = 0x1;
pub const ASPECT_DEPTH: u32 = 0x2;

/// Buffer usage bits.
pub const BUFFER_USAGE_TRANSFER_SRC: u32 = 0x1;
pub const BUFFER_USAGE_TRANSFER_DST: u32 = 0x2;
pub const BUFFER_USAGE_INDEX_BUFFER: u32 = 0x40;
pub const BUFFER_USAGE_VERTEX_BUFFER: u32 = 0x80;

/// Image usage bits.
pub const IMAGE_USAGE_SAMPLED: u32 = 0x4;
pub const IMAGE_USAGE_COLOR_ATTACHMENT: u32 = 0x10;
pub const IMAGE_USAGE_DEPTH_STENCIL_ATTACHMENT: u32 = 0x20;

/// Shader stage bits.
pub const SHADER_STAGE_VERTEX: u32 = 0x1;
pub const SHADER_STAGE_FRAGMENT: u32 = 0x10;

/// Image format codes, as the API numbers them.
pub const FORMAT_R8G8B8A8_UNORM: u32 = 37;
pub const FORMAT_R16G16B16A16_SFLOAT: u32 = 97;
pub const FORMAT_D32_SFLOAT: u32 = 126;

/// A three-dimensional image extent.
#[derive(Clone, Copy, PartialEq, Eq, Structural, Debug)]
pub struct Extent3D {
    pub width: u32,
    pub height: u32,
    pub depth: u32,
}

/// A two-dimensional extent.
#[derive(Clone, Copy, PartialEq, Eq, Structural, Debug)]
pub struct Extent2D {
    pub width: u32,
    pub height: u32,
}

/// A signed two-dimensional offset.
#[derive(Clone, Copy, PartialEq, Eq, Structural, Debug)]
pub struct Offset2D {
    pub x: i32,
    pub y: i32,
}

/// A render area: offset plus extent.
#[derive(Clone, Copy, PartialEq, Eq, Structural, Debug)]
pub struct Rect2D {
    pub offset: Offset2D,
    pub extent: Extent2D,
}

} // verus!
