//! The per-object geometry and instance store.
//!
//! An object owns immutable vertex and index data and an append-only list of
//! instance transforms.  Alongside the transforms it keeps their raw,
//! buffer-ready byte image, re-derived on every append, so that the byte
//! size the bind group must cover is always exactly the instance count times
//! the raw instance stride.  Uploading those bytes, and allocating the
//! GPU-side buffers they fill, is the host shell's work; growth of the
//! instance buffer is a fresh allocation there, which is why every append
//! invalidates the binding state that referenced the old buffer.

use vstd::prelude::*;

use crate::instance::Instance;
use crate::instance::InstanceRaw;
use crate::instance::RAW_INSTANCE_BYTES;
use crate::words::le_half_bytes;
use crate::words::le_word_bytes;
use crate::words::Mat3Bits;
use crate::words::push_half_le;
use crate::words::push_mat4_le;
use crate::words::push_word_le;
use crate::words::QuatBits;
use crate::words::Vec3Bits;

verus! {

/// Byte length of one vertex: position and color, three words each.
pub const VERTEX_BYTES: usize = 24;

/// Byte length of one index.
pub const INDEX_BYTES: usize = 2;

/// One vertex as the shader's vertex input declares it: a position followed
/// by a color, each three 32-bit words.  Field order and byte offsets are a
/// contract with the shader source held by the host shell.
#[derive(Clone, Copy, Debug, PartialEq, Eq, Structural)]
pub struct Vertex {
    pub position: Vec3Bits,
    pub color: Vec3Bits,
}

impl Vertex {
    /// The 24-byte little-endian image of this vertex: position words then
    /// color words.
    pub open spec fn bytes_spec(self) -> Seq<u8> {
        le_word_bytes(self.position.x) + le_word_bytes(self.position.y) + le_word_bytes(
            self.position.z,
        ) + le_word_bytes(self.color.x) + le_word_bytes(self.color.y) + le_word_bytes(self.color.z)
    }
}

/// The byte image of a list of raw instances, in list order.
pub open spec fn raws_bytes_spec(raws: Seq<InstanceRaw>) -> Seq<u8>
    decreases raws.len(),
{
    if raws.len() == 0 {
        Seq::empty()
    } else {
        raws_bytes_spec(raws.drop_last()) + raws.last().bytes_spec()
    }
}

/// The byte image of a vertex list, in list order.
pub open spec fn vertices_bytes_spec(vertices: Seq<Vertex>) -> Seq<u8>
    decreases vertices.len(),
{
    if vertices.len() == 0 {
        Seq::empty()
    } else {
        vertices_bytes_spec(vertices.drop_last()) + vertices.last().bytes_spec()
    }
}

/// The byte image of an index list, in list order.
pub open spec fn indices_bytes_spec(indices: Seq<u16>) -> Seq<u8>
    decreases indices.len(),
{
    if indices.len() == 0 {
        Seq::empty()
    } else {
        indices_bytes_spec(indices.drop_last()) + le_half_bytes(indices.last())
    }
}

/// The instance-buffer byte size equals the instance count times the raw
/// instance stride, for every list of raw instances.
pub proof fn lemma_raws_bytes_len(raws: Seq<InstanceRaw>)
    ensures
        raws_bytes_spec(raws).len() == RAW_INSTANCE_BYTES * raws.len(),
    decreases raws.len(),
{
    if raws.len() > 0 {
        lemma_raws_bytes_len(raws.drop_last());
    }
}

/// Appending one raw instance appends exactly its byte image.
pub proof fn lemma_raws_bytes_push(raws: Seq<InstanceRaw>, raw: InstanceRaw)
    ensures
        raws_bytes_spec(raws.push(raw)) == raws_bytes_spec(raws) + raw.bytes_spec(),
{
    assert(raws.push(raw).drop_last() =~= raws);
}

/// The vertex-buffer byte size equals the vertex count times the vertex
/// stride.
pub proof fn lemma_vertices_bytes_len(vertices: Seq<Vertex>)
    ensures
        vertices_bytes_spec(vertices).len() == VERTEX_BYTES * vertices.len(),
    decreases vertices.len(),
{
    if vertices.len() > 0 {
        lemma_vertices_bytes_len(vertices.drop_last());
    }
}

/// The index-buffer byte size equals the index count times the index
/// stride.
pub proof fn lemma_indices_bytes_len(indices: Seq<u16>)
    ensures
        indices_bytes_spec(indices).len() == INDEX_BYTES * indices.len(),
    decreases indices.len(),
{
    if indices.len() > 0 {
        lemma_indices_bytes_len(indices.drop_last());
    }
}

/// A mesh's immutable geometry plus its mutable, append-only list of
/// instance transforms and their buffer-ready byte image.
#[derive(Debug)]
pub struct Object {
    pub vertices: Vec<Vertex>,
    pub indices: Vec<u16>,
    pub instances: Vec<Instance>,
    pub raws: Vec<InstanceRaw>,
    pub raw_bytes: Vec<u8>,
}

impl Object {
    /// Internal consistency: one raw form per instance, each carrying its
    /// instance's position in the translation column, and the byte image
    /// equal to the raw forms serialized in order.
    pub open spec fn wf(self) -> bool {
        &&& self.raws@.len() == self.instances@.len()
        &&& forall|i: int|
            0 <= i < self.instances@.len() ==> (#[trigger] self.raws@[i]).translation_spec()
                == self.instances@[i].position
        &&& self.raw_bytes@ == raws_bytes_spec(self.raws@)
    }

    /// The instance-buffer byte size, as a mathematical value.
    pub open spec fn instance_buffer_size_spec(self) -> int {
        self.raw_bytes@.len() as int
    }

    /// Creates an object from its immutable geometry, with no instances.
    pub fn new(vertices: Vec<Vertex>, indices: Vec<u16>) -> (o: Object)
        ensures
            o.wf(),
            o.vertices == vertices,
            o.indices == indices,
            o.instances@ == (Seq::<Instance>::empty()),
            o.raws@ == (Seq::<InstanceRaw>::empty()),
            o.raw_bytes@ == (Seq::<u8>::empty()),
    {
        let o = Object {
            vertices,
            indices,
            instances: Vec::new(),
            raws: Vec::new(),
            raw_bytes: Vec::new(),
        };
        proof {
            assert(o.instances@ =~= Seq::<Instance>::empty());
            assert(o.raws@ =~= Seq::<InstanceRaw>::empty());
            assert(o.raw_bytes@ =~= Seq::<u8>::empty());
        }
        o
    }

    /// Appends one instance transform, re-derives the raw buffer contents,
    /// and returns the new instance's zero-based index within this object.
    /// `rotation_matrix` is the 3x3 matrix of `rotation`, computed by the
    /// host's math collaborator.
    pub fn add_instance(
        &mut self,
        position: Vec3Bits,
        rotation: QuatBits,
        rotation_matrix: Mat3Bits,
    ) -> (idx: usize)
        requires
            old(self).wf(),
        ensures
            final(self).wf(),
            idx == old(self).instances@.len(),
            final(self).instances@ == old(self).instances@.push((Instance { position, rotation })),
            final(self).raws@ == old(self).raws@.push(
                (Instance { position, rotation }).raw_spec(rotation_matrix),
            ),
            final(self).raw_bytes@ == old(self).raw_bytes@ + (Instance {
                position,
                rotation,
            }).raw_spec(rotation_matrix).bytes_spec(),
            final(self).vertices == old(self).vertices,
            final(self).indices == old(self).indices,
    {
        let idx = self.instances.len();
        let inst = Instance { position, rotation };
        let raw = inst.to_raw(&rotation_matrix);
        self.instances.push(inst);
        self.raws.push(raw);
        push_mat4_le(&mut self.raw_bytes, &raw.model);
        proof {
            lemma_raws_bytes_push(old(self).raws@, raw);
        }
        idx
    }

    /// The number of instances placed so far.
    pub fn num_instances(&self) -> (n: usize)
        ensures
            n == self.instances@.len(),
    {
        self.instances.len()
    }

    /// The number of indices in the immutable index data.
    pub fn num_indices(&self) -> (n: usize)
        ensures
            n == self.indices@.len(),
    {
        self.indices.len()
    }

    /// The byte size of the instance buffer's contents: the instance count
    /// times the raw instance stride.  The bind-group range covering the
    /// buffer must equal this value byte for byte.
    pub fn instance_buffer_size(&self) -> (n: usize)
        requires
            self.wf(),
        ensures
            n == self.instance_buffer_size_spec(),
            n == RAW_INSTANCE_BYTES * self.instances@.len(),
    {
        proof {
            lemma_raws_bytes_len(self.raws@);
        }
        self.raw_bytes.len()
    }

    /// The raw instance-buffer contents, ready for upload.
    pub fn instance_buffer_bytes(&self) -> (b: &Vec<u8>)
        ensures
            b@ == self.raw_bytes@,
    {
        &self.raw_bytes
    }

    /// Serializes the vertex data for its one-time upload.
    pub fn vertex_bytes(&self) -> (b: Vec<u8>)
        ensures
            b@ == vertices_bytes_spec(self.vertices@),
            b@.len() == VERTEX_BYTES * self.vertices@.len(),
    {
        let mut out: Vec<u8> = Vec::new();
        let mut i: usize = 0;
        while i < self.vertices.len()
            invariant
                i <= self.vertices@.len(),
                out@ == vertices_bytes_spec(self.vertices@.take(i as int)),
            decreases self.vertices@.len() - i,
        {
            let v = self.vertices[i];
            push_word_le(&mut out, v.position.x);
            push_word_le(&mut out, v.position.y);
            push_word_le(&mut out, v.position.z);
            push_word_le(&mut out, v.color.x);
            push_word_le(&mut out, v.color.y);
            push_word_le(&mut out, v.color.z);
            proof {
                assert(self.vertices@.take(i + 1).drop_last() =~= self.vertices@.take(i as int));
                assert(out@ =~= vertices_bytes_spec(self.vertices@.take(i + 1)));
            }
            i = i + 1;
        }
        proof {
            assert(self.vertices@.take(self.vertices@.len() as int) =~= self.vertices@);
            lemma_vertices_bytes_len(self.vertices@);
        }
        out
    }

    /// Serializes the index data for its one-time upload.
    pub fn index_bytes(&self) -> (b: Vec<u8>)
        ensures
            b@ == indices_bytes_spec(self.indices@),
            b@.len() == INDEX_BYTES * self.indices@.len(),
    {
        let mut out: Vec<u8> = Vec::new();
        let mut i: usize = 0;
        while i < self.indices.len()
            invariant
                i <= self.indices@.len(),
                out@ == indices_bytes_spec(self.indices@.take(i as int)),
            decreases self.indices@.len() - i,
        {
            push_half_le(&mut out, self.indices[i]);
            proof {
                assert(self.indices@.take(i + 1).drop_last() =~= self.indices@.take(i as int));
                assert(out@ =~= indices_bytes_spec(self.indices@.take(i + 1)));
            }
            i = i + 1;
        }
        proof {
            assert(self.indices@.take(self.indices@.len() as int) =~= self.indices@);
            lemma_indices_bytes_len(self.indices@);
        }
        out
    }
}

} // verus!
