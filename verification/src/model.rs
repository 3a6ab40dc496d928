//! The mesh that a binary STL file decodes to, and the decoder.

use vstd::prelude::*;
use crate::format::{
    corner_position, declared_count, f32_bits_from_vec_offset, face_normal, record_offset,
    records_present, triple_from_vec_offset, RECORDS_START, STL_HEADER_SIZE, TRIANGLE_SIZE,
};

verus! {

/// The bit pattern of the single-precision number 1.
pub const ONE_BITS: u32 = 0x3F80_0000;

/// The bit pattern of the single-precision number 0.
pub const ZERO_BITS: u32 = 0;

/// The largest triangle count whose vertices can all be numbered in 32 bits.
pub const MAX_TRIANGLES: u32 = 1_431_655_765;

/// One corner of a triangle. Every component is the bit pattern of a
/// single-precision number.
#[derive(Clone, Copy, Debug, PartialEq, Eq)]
pub struct ModelVertex {
    pub position: [u32; 3],
    pub color: [u32; 3],
    pub normal: [u32; 3],
    pub tex_coords: [u32; 2],
}

/// A triangle list: `vertices[indices[3 * t + c]]` is corner `c` of
/// triangle `t`.
#[derive(Debug, PartialEq, Eq)]
pub struct Mesh {
    pub vertices: Vec<ModelVertex>,
    pub indices: Vec<u32>,
}

/// The mathematical content of a [`Mesh`].
#[verifier::ext_equal]
pub struct MeshView {
    pub vertices: Seq<ModelVertex>,
    pub indices: Seq<u32>,
}

/// Why a byte sequence is not a binary STL file.
#[derive(Clone, Copy, Debug, PartialEq, Eq)]
pub enum FormatError {
    /// Fewer than 80 bytes: the header is incomplete.
    TruncatedHeader,
    /// The header is there, but fewer than 4 bytes follow it.
    TruncatedCount,
    /// The record of the triangle with this number is the first that is not
    /// there in full.
    TruncatedTriangle(u32),
}

impl View for Mesh {
    type V = MeshView;

    open spec fn view(&self) -> MeshView {
        MeshView { vertices: self.vertices@, indices: self.indices@ }
    }
}

impl Mesh {
    /// The shape of every decoded mesh: one index for each vertex, three
    /// vertices for each triangle, and the indices count the vertices off.
    pub open spec fn wf(&self) -> bool {
        &&& self.indices@.len() == self.vertices@.len()
        &&& self.vertices@.len() % 3 == 0
        &&& forall|k: int| 0 <= k < self.indices@.len() ==> #[trigger] self.indices@[k] == k
    }

    /// Number of indices to draw: three for each triangle.
    pub fn num_elements(&self) -> (n: u32)
        ensures
            self.indices@.len() <= u32::MAX ==> n == self.indices@.len(),
            self.wf() ==> n == self.indices@.len(),
    {
        let len: usize = self.indices.len();
        proof {
            if self.wf() && len > 0 {
                assert(self.indices@[len - 1] == len - 1);
            }
        }
        #[verifier::truncate]
        (len as u32)
    }
}

/// The content of what [`load_stl`] returns.
pub open spec fn outcome(result: Result<Mesh, FormatError>) -> Result<MeshView, FormatError> {
    match result {
        Ok(mesh) => Ok(mesh@),
        Err(e) => Err(e),
    }
}

/// The vertex that stands for corner `c` of triangle `t` of the file `bytes`:
/// the corner's position, the triangle's face normal, white, and the texture
/// coordinate (0, 0).
pub open spec fn decoded_vertex(bytes: Seq<u8>, t: int, c: int) -> ModelVertex {
    ModelVertex {
        position: corner_position(bytes, t, c),
        color: [ONE_BITS, ONE_BITS, ONE_BITS],
        normal: face_normal(bytes, t),
        tex_coords: [ZERO_BITS, ZERO_BITS],
    }
}

/// The vertices of the first `n` triangles of `bytes`, three per triangle, in
/// file order.
pub open spec fn decoded_vertices(bytes: Seq<u8>, n: nat) -> Seq<ModelVertex> {
    Seq::new(3 * n, |k: int| decoded_vertex(bytes, k / 3, k % 3))
}

/// The indices of a mesh of `n` triangles that shares no vertex:
/// 0, 1, 2, ..., 3n - 1.
pub open spec fn counting_indices(n: nat) -> Seq<u32> {
    Seq::new(3 * n, |k: int| k as u32)
}

/// What decoding `bytes` gives: the mesh of the declared triangles, or the
/// first point at which the file falls short. Bytes after the last declared
/// record are not read.
pub open spec fn stl_decoding(bytes: Seq<u8>) -> Result<MeshView, FormatError> {
    if bytes.len() < STL_HEADER_SIZE {
        Err(FormatError::TruncatedHeader)
    } else if bytes.len() < RECORDS_START {
        Err(FormatError::TruncatedCount)
    } else if records_present(bytes) < declared_count(bytes) {
        Err(FormatError::TruncatedTriangle(records_present(bytes) as u32))
    } else {
        Ok(
            MeshView {
                vertices: decoded_vertices(bytes, declared_count(bytes) as nat),
                indices: counting_indices(declared_count(bytes) as nat),
            },
        )
    }
}

/// The mesh of `bytes` can be indexed in 32 bits: if the file is complete, it
/// declares at most [`MAX_TRIANGLES`] triangles.
pub open spec fn indexable(bytes: Seq<u8>) -> bool {
    stl_decoding(bytes) is Ok ==> declared_count(bytes) <= MAX_TRIANGLES
}

/// Tells whether [`load_stl`] accepts `bytes`.
pub fn is_indexable(bytes: &[u8]) -> (fits: bool)
    ensures
        fits == indexable(bytes@),
{
    if bytes.len() < RECORDS_START {
        return true;
    }
    let num_tris: u32 = f32_bits_from_vec_offset(bytes, STL_HEADER_SIZE);
    let present: usize = (bytes.len() - RECORDS_START) / TRIANGLE_SIZE;
    num_tris <= MAX_TRIANGLES || present < num_tris as usize
}

/// Decodes a binary STL file.
///
/// The header is skipped. Each declared triangle becomes three vertices, in
/// file order, that share the triangle's face normal; the indices count them
/// off. A file that ends before its last declared record is refused, and the
/// error names the first thing that is missing. Nothing is rounded, welded
/// or reordered.
pub fn load_stl(bytes: &[u8]) -> (result: Result<Mesh, FormatError>)
    requires
        indexable(bytes@),
    ensures
        outcome(result) == stl_decoding(bytes@),
        result matches Ok(mesh) ==> {
            &&& mesh.wf()
            &&& mesh.vertices@.len() == 3 * declared_count(bytes@)
            &&& mesh.indices@.len() == 3 * declared_count(bytes@)
        },
{
    if bytes.len() < STL_HEADER_SIZE {
        return Err(FormatError::TruncatedHeader);
    }
    if bytes.len() < RECORDS_START {
        return Err(FormatError::TruncatedCount);
    }
    let num_tris: u32 = f32_bits_from_vec_offset(bytes, STL_HEADER_SIZE);
    let present: usize = (bytes.len() - RECORDS_START) / TRIANGLE_SIZE;
    if present < num_tris as usize {
        return Err(FormatError::TruncatedTriangle(present as u32));
    }
    let mut verts: Vec<ModelVertex> = Vec::new();
    let mut indices: Vec<u32> = Vec::new();
    let mut current_index: u32 = 0;
    let color: [u32; 3] = [ONE_BITS, ONE_BITS, ONE_BITS];
    let tex_coords: [u32; 2] = [ZERO_BITS, ZERO_BITS];
    let mut i: u32 = 0;
    while i < num_tris
        invariant
            i <= num_tris <= MAX_TRIANGLES,
            record_offset(num_tris as int) <= bytes.len(),
            current_index == 3 * i,
            color == [ONE_BITS, ONE_BITS, ONE_BITS],
            tex_coords == [ZERO_BITS, ZERO_BITS],
            verts@ == decoded_vertices(bytes@, i as nat),
            indices@ == counting_indices(i as nat),
        decreases num_tris - i,
    {
        let start: usize = RECORDS_START + TRIANGLE_SIZE * (i as usize);
        let normal = triple_from_vec_offset(bytes, start);
        let pos1 = triple_from_vec_offset(bytes, start + 12);
        let pos2 = triple_from_vec_offset(bytes, start + 24);
        let pos3 = triple_from_vec_offset(bytes, start + 36);
        verts.push(ModelVertex { position: pos1, color, normal, tex_coords });
        verts.push(ModelVertex { position: pos2, color, normal, tex_coords });
        verts.push(ModelVertex { position: pos3, color, normal, tex_coords });
        indices.push(current_index);
        indices.push(current_index + 1);
        indices.push(current_index + 2);
        i = i + 1;
        current_index = current_index + 3;
    }
    Ok(Mesh { vertices: verts, indices })
}

} // verus!
