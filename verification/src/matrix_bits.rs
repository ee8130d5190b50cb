//! Matrices and vectors as IEEE-754 bit patterns.
//!
//! The core never computes with matrix entries — camera and light math are
//! an outside collaborator's job — it only carries matrices into the command
//! stream.  Each entry is therefore held as the 32-bit pattern of its value,
//! which lets the push-constant wire layout be stated and proved bit for
//! bit.

use vstd::prelude::*;

verus! {

/// Bit pattern of a 32-bit one.
pub const F32_ONE_BITS: u32 = 0x3F80_0000;

/// A 4x4 matrix of 32-bit entries in column-major order: entry (row `r`,
/// column `c`) is `words[c * 4 + r]`.
#[derive(Clone, Copy, PartialEq, Eq, Debug)]
pub struct Mat4Bits {
    pub words: [u32; 16],
}

/// A three-component vector of 32-bit entries.
#[derive(Clone, Copy, PartialEq, Eq, Structural, Debug)]
pub struct Vec3Bits {
    pub x: u32,
    pub y: u32,
    pub z: u32,
}

impl Mat4Bits {
    /// Entry at column `c`, row `r`.
    pub open spec fn entry(&self, c: int, r: int) -> u32 {
        self.words[c * 4 + r]
    }

    /// Wrap sixteen column-major words as a matrix.
    pub fn new(words: [u32; 16]) -> (m: Mat4Bits)
        ensures
            m.words == words,
    {
        Mat4Bits { words }
    }

    /// The identity matrix: ones on the diagonal, zeroes elsewhere.
    pub fn identity() -> (m: Mat4Bits)
        ensures
            forall|c: int, r: int|
                0 <= c < 4 && 0 <= r < 4 ==> m.entry(c, r) == if c == r {
                    F32_ONE_BITS
                } else {
                    0u32
                },
    {
        let m = Mat4Bits {
            words: [
                F32_ONE_BITS,
                0,
                0,
                0,
                0,
                F32_ONE_BITS,
                0,
                0,
                0,
                0,
                F32_ONE_BITS,
                0,
                0,
                0,
                0,
                F32_ONE_BITS,
            ],
        };
        m
    }
}

impl Vec3Bits {
    /// Wrap three words as a vector.
    pub fn new(x: u32, y: u32, z: u32) -> (v: Vec3Bits)
        ensures
            v == (Vec3Bits { x, y, z }),
    {
        Vec3Bits { x, y, z }
    }
}

} // verus!
