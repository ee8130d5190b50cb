//! A mesh: one index buffer and one vertex buffer, both staged uploads.

use vstd::prelude::*;

use crate::allocator::Allocator;
use crate::allocator::UsageViolation;
use crate::buffer::Buffer;
use crate::buffer::VulkanResource;
use crate::byte_encoding::bytes_of_u16s;
use crate::byte_encoding::bytes_of_vertices;
use crate::byte_encoding::u16s_le_bytes;
use crate::byte_encoding::vertices_bytes;
use crate::gpu_types::BUFFER_USAGE_INDEX_BUFFER;
use crate::gpu_types::BUFFER_USAGE_VERTEX_BUFFER;
use crate::vertex::Vertex;

verus! {

/// One mesh's GPU-side data.
pub struct Mesh {
    pub index_buffer: Buffer,
    pub vertex_buffer: Buffer,
}

impl Mesh {
    /// Mesh invariant: the two buffers are distinct resources, alive and
    /// dead together.
    pub open spec fn wf(&self) -> bool {
        &&& self.index_buffer.alloc_id != self.vertex_buffer.alloc_id
        &&& self.index_buffer.alive == self.vertex_buffer.alive
    }

    /// Stage the indices and vertex positions of a mesh into two fresh
    /// device-local buffers.
    pub fn new(a: &mut Allocator, vertices: Vec<Vertex>, indices: Vec<u16>) -> (m: Mesh)
        requires
            old(a).wf(),
            old(a).can_allocate(4),
        ensures
            final(a).wf(),
            m.wf(),
            m.is_alive(),
            m.index_buffer.contents@ == u16s_le_bytes(indices@),
            m.vertex_buffer.contents@ == vertices_bytes(vertices@),
            final(a).count() == old(a).count() + 2,
            final(a).is_live(m.index_buffer.alloc_id),
            final(a).is_live(m.vertex_buffer.alloc_id),
            !old(a).is_live(m.index_buffer.alloc_id),
            !old(a).is_live(m.vertex_buffer.alloc_id),
            forall|x: u64|
                x != m.index_buffer.alloc_id && x != m.vertex_buffer.alloc_id
                    ==> final(a).is_live(x) == old(a).is_live(x),
            forall|n: nat| old(a).can_allocate(n + 4) ==> final(a).can_allocate(n),
    {
        let index_bytes = bytes_of_u16s(indices.as_slice());
        let index_buffer = Buffer::new(a, index_bytes.as_slice(), BUFFER_USAGE_INDEX_BUFFER);
        let vertex_bytes = bytes_of_vertices(vertices.as_slice());
        let vertex_buffer = Buffer::new(a, vertex_bytes.as_slice(), BUFFER_USAGE_VERTEX_BUFFER);
        Mesh { index_buffer, vertex_buffer }
    }

    /// The staged index buffer.
    pub fn get_index_buffer(&self) -> (r: &Buffer)
        ensures
            *r == self.index_buffer,
    {
        &self.index_buffer
    }

    /// The staged vertex buffer.
    pub fn get_vertex_buffer(&self) -> (r: &Buffer)
        ensures
            *r == self.vertex_buffer,
    {
        &self.vertex_buffer
    }
}

impl VulkanResource for Mesh {
    open spec fn owns(&self, id: u64) -> bool {
        id == self.index_buffer.alloc_id || id == self.vertex_buffer.alloc_id
    }

    open spec fn owned_count(&self) -> nat {
        2
    }

    open spec fn is_alive(&self) -> bool {
        self.index_buffer.alive && self.vertex_buffer.alive
    }

    open spec fn release_ready(&self, a: Allocator) -> bool {
        &&& a.is_live(self.index_buffer.alloc_id)
        &&& a.is_live(self.vertex_buffer.alloc_id)
        &&& self.index_buffer.alloc_id != self.vertex_buffer.alloc_id
    }

    fn release(&mut self, a: &mut Allocator) -> (r: Result<(), UsageViolation>) {
        if !self.index_buffer.alive || !self.vertex_buffer.alive {
            self.index_buffer.alive = false;
            self.vertex_buffer.alive = false;
            return Err(UsageViolation::DoubleFree);
        }
        let r1 = self.index_buffer.release(a);
        let r2 = self.vertex_buffer.release(a);
        match (r1, r2) {
            (Ok(()), Ok(())) => Ok(()),
            _ => Err(UsageViolation::DoubleFree),
        }
    }
}

} // verus!
