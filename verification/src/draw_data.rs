//! The per-frame scene snapshot: camera and light matrices plus an ordered
//! list of draw calls.
//!
//! The snapshot is immutable once built and owns no GPU memory; it only
//! references buffers owned by the registry.  All matrix values — the
//! camera view and projection, the light's matrices and their product, and
//! the view direction — are computed by the caller's math library and
//! carried here as bit patterns.

use vstd::prelude::*;

use crate::matrix_bits::Mat4Bits;
use crate::matrix_bits::Vec3Bits;

verus! {

/// The directional light of the scene, as the matrices the passes
/// consume: its view, its fixed orthographic projection, and their
/// product `projection * view` (the light-space transform).
#[derive(Clone, Copy, PartialEq, Eq, Debug)]
pub struct DirectionalLight {
    pub view: Mat4Bits,
    pub projection: Mat4Bits,
    pub light_space: Mat4Bits,
}

impl DirectionalLight {
    /// Bundle the light's matrices.  `light_space` must be the product
    /// `projection * view`, computed by the caller's matrix library.
    pub fn new(view: Mat4Bits, projection: Mat4Bits, light_space: Mat4Bits) -> (r:
        DirectionalLight)
        ensures
            r == (DirectionalLight { view, projection, light_space }),
    {
        DirectionalLight { view, projection, light_space }
    }

    /// The light's view matrix.
    pub fn get_view(&self) -> (r: Mat4Bits)
        ensures
            r == self.view,
    {
        self.view
    }

    /// The light's orthographic projection.
    pub fn get_projection(&self) -> (r: Mat4Bits)
        ensures
            r == self.projection,
    {
        self.projection
    }
}

/// The buffers and index count of one mesh, by buffer handle.
#[derive(Clone, Copy, PartialEq, Eq, Structural, Debug)]
pub struct MeshData {
    pub index_count: u32,
    pub index_buffer: u64,
    pub positions_buffer: u64,
    pub attributes_buffer: u64,
}

impl MeshData {
    /// Bundle the handles of one mesh.
    pub fn new(index_count: u32, index_buffer: u64, positions_buffer: u64, attributes_buffer: u64)
        -> (r: MeshData)
        ensures
            r == (MeshData { index_count, index_buffer, positions_buffer, attributes_buffer }),
    {
        MeshData { index_count, index_buffer, positions_buffer, attributes_buffer }
    }
}

/// One draw call: a mesh, its model matrix, and the pipeline it is drawn
/// with.
#[derive(Clone, Copy, PartialEq, Eq, Debug)]
pub struct DrawCall {
    pub mesh: MeshData,
    pub model: Mat4Bits,
    pub pipeline: u64,
}

impl DrawCall {
    /// Bundle one draw call.
    pub fn new(mesh: &MeshData, model: Mat4Bits, pipeline: u64) -> (r: DrawCall)
        ensures
            r == (DrawCall { mesh: *mesh, model, pipeline }),
    {
        DrawCall { mesh: *mesh, model, pipeline }
    }
}

/// The full per-frame snapshot.  `view_direction` is derived from the
/// inverse of `view` by the caller's matrix library.
pub struct DrawData {
    pub directional_light: DirectionalLight,
    pub draw_calls: Vec<DrawCall>,
    pub view: Mat4Bits,
    pub projection: Mat4Bits,
    pub view_direction: Vec3Bits,
    pub deferred_pipeline_layout: u64,
}

impl DrawData {
    /// A snapshot with no draw calls yet.
    pub fn new(
        view: Mat4Bits,
        projection: Mat4Bits,
        view_direction: Vec3Bits,
        directional_light: DirectionalLight,
        deferred_pipeline_layout: u64,
    ) -> (r: DrawData)
        ensures
            r.view == view,
            r.projection == projection,
            r.view_direction == view_direction,
            r.directional_light == directional_light,
            r.deferred_pipeline_layout == deferred_pipeline_layout,
            r.draw_calls@ == Seq::<DrawCall>::empty(),
    {
        DrawData {
            directional_light,
            draw_calls: Vec::new(),
            view,
            projection,
            view_direction,
            deferred_pipeline_layout,
        }
    }

    /// Append one draw call to the snapshot.
    pub fn add_draw_call(&mut self, draw_call: DrawCall)
        ensures
            final(self).draw_calls@ == old(self).draw_calls@.push(draw_call),
            final(self).directional_light == old(self).directional_light,
            final(self).view == old(self).view,
            final(self).projection == old(self).projection,
            final(self).view_direction == old(self).view_direction,
            final(self).deferred_pipeline_layout == old(self).deferred_pipeline_layout,
    {
        self.draw_calls.push(draw_call);
    }
}

} // verus!
