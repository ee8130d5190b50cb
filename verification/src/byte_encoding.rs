//! Little-endian serialization of the plain values the core uploads or
//! pushes to the device, with bit-exact specifications.

use vstd::prelude::*;

use crate::matrix_bits::Mat4Bits;
use crate::vertex::Vertex;

verus! {

/// The four little-endian bytes of a 32-bit word.
pub open spec fn u32_le_bytes(w: u32) -> Seq<u8> {
    seq![w as u8, (w >> 8) as u8, (w >> 16) as u8, (w >> 24) as u8]
}

/// The two little-endian bytes of a 16-bit word.
pub open spec fn u16_le_bytes(w: u16) -> Seq<u8> {
    seq![w as u8, (w >> 8) as u8]
}

/// A word sequence serialized word by word.
pub open spec fn u32s_le_bytes(ws: Seq<u32>) -> Seq<u8>
    decreases ws.len(),
{
    if ws.len() == 0 {
        Seq::empty()
    } else {
        u32s_le_bytes(ws.drop_last()) + u32_le_bytes(ws.last())
    }
}

/// A 16-bit word sequence serialized word by word.
pub open spec fn u16s_le_bytes(ws: Seq<u16>) -> Seq<u8>
    decreases ws.len(),
{
    if ws.len() == 0 {
        Seq::empty()
    } else {
        u16s_le_bytes(ws.drop_last()) + u16_le_bytes(ws.last())
    }
}

/// The twelve bytes of one vertex position: x, y, z in order.
pub open spec fn vertex_bytes(v: Vertex) -> Seq<u8> {
    u32_le_bytes(v.x) + u32_le_bytes(v.y) + u32_le_bytes(v.z)
}

/// A vertex sequence serialized vertex by vertex.
pub open spec fn vertices_bytes(vs: Seq<Vertex>) -> Seq<u8>
    decreases vs.len(),
{
    if vs.len() == 0 {
        Seq::empty()
    } else {
        vertices_bytes(vs.drop_last()) + vertex_bytes(vs.last())
    }
}

/// The sixty-four bytes of a matrix: its column-major words in order.
pub open spec fn mat4_le_bytes(m: Mat4Bits) -> Seq<u8> {
    u32s_le_bytes(m.words@)
}

/// Append the four little-endian bytes of `w`.
pub fn push_u32_le(out: &mut Vec<u8>, w: u32)
    ensures
        final(out)@ == old(out)@ + u32_le_bytes(w),
{
    out.push(#[verifier::truncate] (w as u8));
    out.push(#[verifier::truncate] ((w >> 8) as u8));
    out.push(#[verifier::truncate] ((w >> 16) as u8));
    out.push(#[verifier::truncate] ((w >> 24) as u8));
    proof {
        assert(out@ =~= old(out)@ + u32_le_bytes(w));
    }
}

/// Serialize 32-bit words to little-endian bytes.
pub fn bytes_of_u32s(ws: &[u32]) -> (r: Vec<u8>)
    ensures
        r@ == u32s_le_bytes(ws@),
{
    let mut out: Vec<u8> = Vec::new();
    let mut i: usize = 0;
    while i < ws.len()
        invariant
            i <= ws@.len(),
            out@ == u32s_le_bytes(ws@.take(i as int)),
        decreases ws@.len() - i,
    {
        let w = ws[i];
        push_u32_le(&mut out, w);
        proof {
            assert(ws@.take(i + 1).drop_last() =~= ws@.take(i as int));
            assert(ws@.take(i + 1).last() == ws@[i as int]);
        }
        i += 1;
    }
    proof {
        assert(ws@.take(ws@.len() as int) =~= ws@);
    }
    out
}

/// Serialize 16-bit words to little-endian bytes.
pub fn bytes_of_u16s(ws: &[u16]) -> (r: Vec<u8>)
    ensures
        r@ == u16s_le_bytes(ws@),
{
    let mut out: Vec<u8> = Vec::new();
    let mut i: usize = 0;
    while i < ws.len()
        invariant
            i <= ws@.len(),
            out@ == u16s_le_bytes(ws@.take(i as int)),
        decreases ws@.len() - i,
    {
        let w = ws[i];
        out.push(#[verifier::truncate] (w as u8));
        out.push(#[verifier::truncate] ((w >> 8) as u8));
        proof {
            assert(ws@.take(i + 1).drop_last() =~= ws@.take(i as int));
            assert(ws@.take(i + 1).last() == ws@[i as int]);
            assert(out@ =~= u16s_le_bytes(ws@.take(i as int)) + u16_le_bytes(ws@[i as int]));
        }
        i += 1;
    }
    proof {
        assert(ws@.take(ws@.len() as int) =~= ws@);
    }
    out
}

/// Serialize vertex positions to little-endian bytes, twelve per vertex.
pub fn bytes_of_vertices(vs: &[Vertex]) -> (r: Vec<u8>)
    ensures
        r@ == vertices_bytes(vs@),
{
    let mut out: Vec<u8> = Vec::new();
    let mut i: usize = 0;
    while i < vs.len()
        invariant
            i <= vs@.len(),
            out@ == vertices_bytes(vs@.take(i as int)),
        decreases vs@.len() - i,
    {
        let v = vs[i];
        push_u32_le(&mut out, v.x);
        push_u32_le(&mut out, v.y);
        push_u32_le(&mut out, v.z);
        proof {
            assert(vs@.take(i + 1).drop_last() =~= vs@.take(i as int));
            assert(vs@.take(i + 1).last() == vs@[i as int]);
            assert(out@ =~= vertices_bytes(vs@.take(i as int)) + vertex_bytes(vs@[i as int]));
        }
        i += 1;
    }
    proof {
        assert(vs@.take(vs@.len() as int) =~= vs@);
    }
    out
}

/// Serialize a matrix: sixty-four bytes, column-major words in order.
pub fn bytes_of_mat4(m: &Mat4Bits) -> (r: Vec<u8>)
    ensures
        r@ == mat4_le_bytes(*m),
        r@.len() == 64,
{
    let r = bytes_of_u32s(m.words.as_slice());
    proof {
        lemma_u32s_le_bytes_len(m.words@);
    }
    r
}

/// Word serialization yields four bytes per word.
pub proof fn lemma_u32s_le_bytes_len(ws: Seq<u32>)
    ensures
        u32s_le_bytes(ws).len() == 4 * ws.len(),
    decreases ws.len(),
{
    if ws.len() > 0 {
        lemma_u32s_le_bytes_len(ws.drop_last());
    }
}

} // verus!
