//! A mesh vertex position, one 32-bit pattern per coordinate.

use vstd::prelude::*;

verus! {

/// One vertex position.  Coordinates are IEEE-754 bit patterns; the core
/// only serializes them into vertex buffers.
#[derive(Clone, Copy, PartialEq, Eq, Structural, Debug)]
pub struct Vertex {
    pub x: u32,
    pub y: u32,
    pub z: u32,
}

impl Vertex {
    /// Wrap three coordinate bit patterns as a vertex.
    pub fn new(x: u32, y: u32, z: u32) -> (v: Vertex)
        ensures
            v == (Vertex { x, y, z }),
    {
        Vertex { x, y, z }
    }
}

} // verus!
