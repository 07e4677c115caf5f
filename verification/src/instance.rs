//! One placement of an object's mesh: a position and a rotation, and its
//! raw, GPU-ready form as a column-major 4x4 model matrix.
//!
//! The model matrix is `translation * rotation`.  Because the rotation
//! matrix's fourth row and column are `(0, 0, 0, 1)`, that product carries
//! the rotation's 3x3 block unchanged in its upper-left corner and the
//! position, bit for bit, in its fourth column.  The core therefore composes
//! the matrix itself from the position words and a rotation block supplied
//! by the host's math collaborator; no floating-point product is involved.

use vstd::prelude::*;

use crate::words::F32_ONE_BITS;
use crate::words::F32_ZERO_BITS;
use crate::words::Mat3Bits;
use crate::words::Mat4Bits;
use crate::words::push_mat4_le;
use crate::words::QuatBits;
use crate::words::Vec3Bits;

verus! {

/// Byte length of one raw instance: a 4x4 matrix of 32-bit words.
pub const RAW_INSTANCE_BYTES: usize = 64;

/// One placement (position + rotation) of an object's mesh in the scene.
#[derive(Clone, Copy, Debug, PartialEq, Eq, Structural)]
pub struct Instance {
    pub position: Vec3Bits,
    pub rotation: QuatBits,
}

/// The fixed-layout form of an instance that backs its slot in the
/// GPU-visible instance buffer: one column-major model matrix.
#[derive(Clone, Copy, Debug, PartialEq, Eq, Structural)]
pub struct InstanceRaw {
    pub model: Mat4Bits,
}

impl Instance {
    /// The model matrix assembled from this instance's position and the
    /// given rotation block: the block fills the upper-left 3x3 corner,
    /// the position fills the fourth column, and the remaining words are
    /// those of `0.0` and `1.0`.
    pub open spec fn raw_spec(self, rotation: Mat3Bits) -> InstanceRaw {
        InstanceRaw {
            model: Mat4Bits {
                c0r0: rotation.c0r0,
                c0r1: rotation.c0r1,
                c0r2: rotation.c0r2,
                c0r3: F32_ZERO_BITS,
                c1r0: rotation.c1r0,
                c1r1: rotation.c1r1,
                c1r2: rotation.c1r2,
                c1r3: F32_ZERO_BITS,
                c2r0: rotation.c2r0,
                c2r1: rotation.c2r1,
                c2r2: rotation.c2r2,
                c2r3: F32_ZERO_BITS,
                c3r0: self.position.x,
                c3r1: self.position.y,
                c3r2: self.position.z,
                c3r3: F32_ONE_BITS,
            },
        }
    }

    /// Builds the raw (buffer-ready) form of this instance.  `rotation` is
    /// the 3x3 matrix of this instance's rotation quaternion, computed by
    /// the host's math collaborator.
    pub fn to_raw(&self, rotation: &Mat3Bits) -> (r: InstanceRaw)
        ensures
            r == self.raw_spec(*rotation),
    {
        InstanceRaw {
            model: Mat4Bits {
                c0r0: rotation.c0r0,
                c0r1: rotation.c0r1,
                c0r2: rotation.c0r2,
                c0r3: F32_ZERO_BITS,
                c1r0: rotation.c1r0,
                c1r1: rotation.c1r1,
                c1r2: rotation.c1r2,
                c1r3: F32_ZERO_BITS,
                c2r0: rotation.c2r0,
                c2r1: rotation.c2r1,
                c2r2: rotation.c2r2,
                c2r3: F32_ZERO_BITS,
                c3r0: self.position.x,
                c3r1: self.position.y,
                c3r2: self.position.z,
                c3r3: F32_ONE_BITS,
            },
        }
    }
}

impl InstanceRaw {
    /// The translation column of the model matrix.
    pub open spec fn translation_spec(self) -> Vec3Bits {
        Vec3Bits { x: self.model.c3r0, y: self.model.c3r1, z: self.model.c3r2 }
    }

    /// Reads the translation column back out of the model matrix.
    pub fn translation(&self) -> (t: Vec3Bits)
        ensures
            t == self.translation_spec(),
    {
        Vec3Bits { x: self.model.c3r0, y: self.model.c3r1, z: self.model.c3r2 }
    }

    /// The 64-byte little-endian image of the model matrix, in the order
    /// the instance buffer stores it.
    pub open spec fn bytes_spec(self) -> Seq<u8> {
        self.model.bytes_spec()
    }

    /// Serializes the model matrix for upload.
    pub fn bytes(&self) -> (b: Vec<u8>)
        ensures
            b@ == self.bytes_spec(),
            b@.len() == RAW_INSTANCE_BYTES,
    {
        let mut out: Vec<u8> = Vec::new();
        push_mat4_le(&mut out, &self.model);
        out
    }
}

/// An instance converted to its raw matrix form and decomposed again
/// reproduces the translation column exactly, whatever the rotation block
/// holds.
pub proof fn lemma_raw_translation_round_trip(inst: Instance, rotation: Mat3Bits)
    ensures
        inst.raw_spec(rotation).translation_spec() == inst.position,
{
}

} // verus!
