//! Fixed-layout carriers for GPU-bound numeric data.
//!
//! The renderer's numeric payloads (positions, quaternions, matrices) are
//! 32-bit IEEE 754 values on the GPU side.  The verified core never computes
//! with them; it stores, arranges and serializes their bit patterns as `u32`
//! words.  The host shell converts between these words and its own floating
//! point values at the boundary.

use vstd::prelude::*;

verus! {

/// Bit pattern of `0.0f32`.
pub const F32_ZERO_BITS: u32 = 0x0000_0000;

/// Bit pattern of `0.5f32`.
pub const F32_HALF_BITS: u32 = 0x3F00_0000;

/// Bit pattern of `1.0f32`.
pub const F32_ONE_BITS: u32 = 0x3F80_0000;

/// Three packed words: the bit patterns of an `f32` 3-vector.
#[derive(Clone, Copy, Debug, PartialEq, Eq, Structural)]
pub struct Vec3Bits {
    pub x: u32,
    pub y: u32,
    pub z: u32,
}

/// Four packed words: the bit patterns of an `f32` quaternion.
#[derive(Clone, Copy, Debug, PartialEq, Eq, Structural)]
pub struct QuatBits {
    pub x: u32,
    pub y: u32,
    pub z: u32,
    pub w: u32,
}

/// Column-major 3x3 matrix of `f32` bit patterns (a rotation block).
#[derive(Clone, Copy, Debug, PartialEq, Eq, Structural)]
pub struct Mat3Bits {
    pub c0r0: u32,
    pub c0r1: u32,
    pub c0r2: u32,
    pub c1r0: u32,
    pub c1r1: u32,
    pub c1r2: u32,
    pub c2r0: u32,
    pub c2r1: u32,
    pub c2r2: u32,
}

/// Column-major 4x4 matrix of `f32` bit patterns.
#[derive(Clone, Copy, Debug, PartialEq, Eq, Structural)]
pub struct Mat4Bits {
    pub c0r0: u32,
    pub c0r1: u32,
    pub c0r2: u32,
    pub c0r3: u32,
    pub c1r0: u32,
    pub c1r1: u32,
    pub c1r2: u32,
    pub c1r3: u32,
    pub c2r0: u32,
    pub c2r1: u32,
    pub c2r2: u32,
    pub c2r3: u32,
    pub c3r0: u32,
    pub c3r1: u32,
    pub c3r2: u32,
    pub c3r3: u32,
}

impl Mat4Bits {
    /// The matrix whose words are all the bit pattern of `0.0f32`.
    pub open spec fn zero_spec() -> Mat4Bits {
        Mat4Bits {
            c0r0: F32_ZERO_BITS,
            c0r1: F32_ZERO_BITS,
            c0r2: F32_ZERO_BITS,
            c0r3: F32_ZERO_BITS,
            c1r0: F32_ZERO_BITS,
            c1r1: F32_ZERO_BITS,
            c1r2: F32_ZERO_BITS,
            c1r3: F32_ZERO_BITS,
            c2r0: F32_ZERO_BITS,
            c2r1: F32_ZERO_BITS,
            c2r2: F32_ZERO_BITS,
            c2r3: F32_ZERO_BITS,
            c3r0: F32_ZERO_BITS,
            c3r1: F32_ZERO_BITS,
            c3r2: F32_ZERO_BITS,
            c3r3: F32_ZERO_BITS,
        }
    }

    /// The sixteen words in column-major order, serialized little-endian.
    pub open spec fn bytes_spec(self) -> Seq<u8> {
        le_word_bytes(self.c0r0) + le_word_bytes(self.c0r1) + le_word_bytes(self.c0r2)
            + le_word_bytes(self.c0r3) + le_word_bytes(self.c1r0) + le_word_bytes(self.c1r1)
            + le_word_bytes(self.c1r2) + le_word_bytes(self.c1r3) + le_word_bytes(self.c2r0)
            + le_word_bytes(self.c2r1) + le_word_bytes(self.c2r2) + le_word_bytes(self.c2r3)
            + le_word_bytes(self.c3r0) + le_word_bytes(self.c3r1) + le_word_bytes(self.c3r2)
            + le_word_bytes(self.c3r3)
    }
}

/// Little-endian byte image of one 32-bit word.
pub open spec fn le_word_bytes(w: u32) -> Seq<u8> {
    seq![
        (w & 0xff) as u8,
        ((w >> 8) & 0xff) as u8,
        ((w >> 16) & 0xff) as u8,
        ((w >> 24) & 0xff) as u8,
    ]
}

/// Little-endian byte image of one 16-bit value.
pub open spec fn le_half_bytes(v: u16) -> Seq<u8> {
    seq![(v & 0xff) as u8, ((v >> 8) & 0xff) as u8]
}

/// Appends the little-endian bytes of `w` to `out`.
pub fn push_word_le(out: &mut Vec<u8>, w: u32)
    ensures
        final(out)@ == old(out)@ + le_word_bytes(w),
{
    out.push((w & 0xff) as u8);
    out.push(((w >> 8) & 0xff) as u8);
    out.push(((w >> 16) & 0xff) as u8);
    out.push(((w >> 24) & 0xff) as u8);
    proof {
        assert(out@ =~= old(out)@ + le_word_bytes(w));
    }
}

/// Appends the little-endian bytes of `v` to `out`.
pub fn push_half_le(out: &mut Vec<u8>, v: u16)
    ensures
        final(out)@ == old(out)@ + le_half_bytes(v),
{
    out.push((v & 0xff) as u8);
    out.push(((v >> 8) & 0xff) as u8);
    proof {
        assert(out@ =~= old(out)@ + le_half_bytes(v));
    }
}

/// Appends the column-major little-endian bytes of `m` to `out`.
pub fn push_mat4_le(out: &mut Vec<u8>, m: &Mat4Bits)
    ensures
        final(out)@ == old(out)@ + m.bytes_spec(),
        final(out)@.len() == old(out)@.len() + 64,
{
    push_word_le(out, m.c0r0);
    push_word_le(out, m.c0r1);
    push_word_le(out, m.c0r2);
    push_word_le(out, m.c0r3);
    push_word_le(out, m.c1r0);
    push_word_le(out, m.c1r1);
    push_word_le(out, m.c1r2);
    push_word_le(out, m.c1r3);
    push_word_le(out, m.c2r0);
    push_word_le(out, m.c2r1);
    push_word_le(out, m.c2r2);
    push_word_le(out, m.c2r3);
    push_word_le(out, m.c3r0);
    push_word_le(out, m.c3r1);
    push_word_le(out, m.c3r2);
    push_word_le(out, m.c3r3);
    proof {
        assert(out@ =~= old(out)@ + m.bytes_spec());
    }
}

} // verus!
