//! The per-frame uniform block: one view-projection matrix packaged for
//! upload as a fixed-size value.
//!
//! The matrix itself is floating-point work the host's math collaborator
//! performs: `clip_space_correction * perspective * look_at`.  The core
//! fixes the clip-space correction constant (it remaps depth from the
//! [-1, 1] convention of the math library to the [0, 1] convention of the
//! target API), stores the composed matrix's words, and serializes the
//! block; its byte length is the exact size every bound uniform range must
//! cover.

use vstd::prelude::*;

use crate::words::F32_HALF_BITS;
use crate::words::F32_ONE_BITS;
use crate::words::F32_ZERO_BITS;
use crate::words::Mat4Bits;
use crate::words::push_mat4_le;

verus! {

/// Byte size of the uniform block: one 4x4 matrix of 32-bit words.
pub const UNIFORM_BLOCK_BYTES: usize = 64;

/// The fixed clip-space correction matrix, column major: the identity on
/// x and y, and the affine depth remap `z' = 0.5 * z + 0.5 * w` carried by
/// the third row of its last two columns.
pub open spec fn clip_space_correction_spec() -> Mat4Bits {
    Mat4Bits {
        c0r0: F32_ONE_BITS,
        c0r1: F32_ZERO_BITS,
        c0r2: F32_ZERO_BITS,
        c0r3: F32_ZERO_BITS,
        c1r0: F32_ZERO_BITS,
        c1r1: F32_ONE_BITS,
        c1r2: F32_ZERO_BITS,
        c1r3: F32_ZERO_BITS,
        c2r0: F32_ZERO_BITS,
        c2r1: F32_ZERO_BITS,
        c2r2: F32_HALF_BITS,
        c2r3: F32_ZERO_BITS,
        c3r0: F32_ZERO_BITS,
        c3r1: F32_ZERO_BITS,
        c3r2: F32_HALF_BITS,
        c3r3: F32_ONE_BITS,
    }
}

/// The fixed clip-space correction matrix, for the host's matrix
/// composition.
pub fn clip_space_correction() -> (m: Mat4Bits)
    ensures
        m == clip_space_correction_spec(),
{
    Mat4Bits {
        c0r0: F32_ONE_BITS,
        c0r1: F32_ZERO_BITS,
        c0r2: F32_ZERO_BITS,
        c0r3: F32_ZERO_BITS,
        c1r0: F32_ZERO_BITS,
        c1r1: F32_ONE_BITS,
        c1r2: F32_ZERO_BITS,
        c1r3: F32_ZERO_BITS,
        c2r0: F32_ZERO_BITS,
        c2r1: F32_ZERO_BITS,
        c2r2: F32_HALF_BITS,
        c2r3: F32_ZERO_BITS,
        c3r0: F32_ZERO_BITS,
        c3r1: F32_ZERO_BITS,
        c3r2: F32_HALF_BITS,
        c3r3: F32_ONE_BITS,
    }
}

/// The uniform block: the current view-projection matrix's words.
#[derive(Clone, Copy, Debug, PartialEq, Eq, Structural)]
pub struct Uniforms {
    pub view_proj: Mat4Bits,
}

impl Uniforms {
    /// A zero-initialized block: every word is the bit pattern of `0.0`.
    pub fn new() -> (u: Uniforms)
        ensures
            u.view_proj == Mat4Bits::zero_spec(),
    {
        Uniforms {
            view_proj: Mat4Bits {
                c0r0: F32_ZERO_BITS,
                c0r1: F32_ZERO_BITS,
                c0r2: F32_ZERO_BITS,
                c0r3: F32_ZERO_BITS,
                c1r0: F32_ZERO_BITS,
                c1r1: F32_ZERO_BITS,
                c1r2: F32_ZERO_BITS,
                c1r3: F32_ZERO_BITS,
                c2r0: F32_ZERO_BITS,
                c2r1: F32_ZERO_BITS,
                c2r2: F32_ZERO_BITS,
                c2r3: F32_ZERO_BITS,
                c3r0: F32_ZERO_BITS,
                c3r1: F32_ZERO_BITS,
                c3r2: F32_ZERO_BITS,
                c3r3: F32_ZERO_BITS,
            },
        }
    }

    /// Replaces the stored matrix with the freshly composed view-projection
    /// matrix (the host's math collaborator computes `clip_space_correction
    /// * perspective * look_at` from the camera and hands its words here).
    pub fn update_view_proj(&mut self, view_proj: &Mat4Bits)
        ensures
            final(self).view_proj == *view_proj,
    {
        self.view_proj = *view_proj;
    }

    /// The block's byte image for upload; exactly `UNIFORM_BLOCK_BYTES`
    /// long.
    pub fn bytes(&self) -> (b: Vec<u8>)
        ensures
            b@ == self.view_proj.bytes_spec(),
            b@.len() == UNIFORM_BLOCK_BYTES,
    {
        let mut out: Vec<u8> = Vec::new();
        push_mat4_le(&mut out, &self.view_proj);
        out
    }
}

} // verus!
