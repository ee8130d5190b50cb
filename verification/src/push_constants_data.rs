//! Per-draw push-constant blocks and their bit-exact wire layout.
//!
//! The geometry/shadow block is three column-major matrices — 192 bytes —
//! and the lighting block is one matrix plus a three-component view
//! direction — 76 bytes, with no padding.  `get` produces exactly the
//! bytes the pipeline copies verbatim into the command stream.

use vstd::prelude::*;

use crate::byte_encoding::bytes_of_mat4;
use crate::byte_encoding::push_u32_le;
use crate::byte_encoding::lemma_u32s_le_bytes_len;
use crate::byte_encoding::mat4_le_bytes;
use crate::byte_encoding::u32_le_bytes;
use crate::matrix_bits::Mat4Bits;
use crate::matrix_bits::Vec3Bits;

verus! {

/// The wire form of the geometry and shadow passes' push constants:
/// model, view, projection, each 64 bytes of column-major words.
pub open spec fn geometry_push_bytes(model: Mat4Bits, view: Mat4Bits, projection: Mat4Bits) -> Seq<
    u8,
> {
    mat4_le_bytes(model) + mat4_le_bytes(view) + mat4_le_bytes(projection)
}

/// The wire form of the lighting pass's push constants: the light-space
/// matrix then the view direction, 76 bytes with no padding.
pub open spec fn lighting_push_bytes(light_space: Mat4Bits, view_direction: Vec3Bits) -> Seq<u8> {
    mat4_le_bytes(light_space) + u32_le_bytes(view_direction.x) + u32_le_bytes(view_direction.y)
        + u32_le_bytes(view_direction.z)
}

/// Push constants for the geometry and shadow passes.
#[derive(Clone, Copy, PartialEq, Eq, Debug)]
pub struct PushConstantsData {
    pub model: Mat4Bits,
    pub view: Mat4Bits,
    pub projection: Mat4Bits,
}

impl PushConstantsData {
    /// Bundle the three matrices of one draw.
    pub fn new(model: &Mat4Bits, view: &Mat4Bits, projection: &Mat4Bits) -> (r: PushConstantsData)
        ensures
            r.model == *model,
            r.view == *view,
            r.projection == *projection,
    {
        PushConstantsData { model: *model, view: *view, projection: *projection }
    }

    /// The 192-byte wire form: the three matrices' bytes in order.
    pub fn get(&self) -> (r: Vec<u8>)
        ensures
            r@ == geometry_push_bytes(self.model, self.view, self.projection),
            r@.len() == 192,
    {
        let mut out = bytes_of_mat4(&self.model);
        let mut v = bytes_of_mat4(&self.view);
        out.append(&mut v);
        let mut p = bytes_of_mat4(&self.projection);
        out.append(&mut p);
        out
    }
}

/// Push constants for the lighting-composite pass.
#[derive(Clone, Copy, PartialEq, Eq, Debug)]
pub struct LightningPushConstantsData {
    pub light_space: Mat4Bits,
    pub view: Vec3Bits,
}

impl LightningPushConstantsData {
    /// Bundle the light-space matrix and view direction of the composite
    /// draw.
    pub fn new(light_space: &Mat4Bits, view: &Vec3Bits) -> (r: LightningPushConstantsData)
        ensures
            r.light_space == *light_space,
            r.view == *view,
    {
        LightningPushConstantsData { light_space: *light_space, view: *view }
    }

    /// The 76-byte wire form: matrix bytes then the three direction words.
    pub fn get(&self) -> (r: Vec<u8>)
        ensures
            r@ == lighting_push_bytes(self.light_space, self.view),
            r@.len() == 76,
    {
        let mut out = bytes_of_mat4(&self.light_space);
        push_u32_le(&mut out, self.view.x);
        push_u32_le(&mut out, self.view.y);
        push_u32_le(&mut out, self.view.z);
        proof {
            lemma_u32s_le_bytes_len(self.light_space.words@);
        }
        out
    }
}

} // verus!
