//! The bytes that a mesh's vertex buffer and index buffer are filled with.
//!
//! A graphics device takes a buffer's contents as raw bytes in the byte order
//! of the machine. The reinterpretation is `bytemuck`'s; what is handed to it
//! is computed and proved here.

use vstd::prelude::*;
use crate::format::{words_be, words_le};
use crate::model::{Mesh, ModelVertex};

verus! {

/// Number of 32-bit words in one vertex.
pub const VERTEX_WORDS: usize = 11;

/// Number of bytes in one vertex.
pub const VERTEX_SIZE: usize = 44;

/// `bytes` is `words` as it lies in memory: every word in the machine's byte
/// order, which is little-endian or big-endian.
pub open spec fn in_memory_order(words: Seq<u32>, bytes: Seq<u8>) -> bool {
    bytes == words_le(words) || bytes == words_be(words)
}

/// The words of one vertex in field order: position, color, normal, texture
/// coordinate.
pub open spec fn vertex_words(v: ModelVertex) -> Seq<u32> {
    v.position@ + v.color@ + v.normal@ + v.tex_coords@
}

/// The words of `vertices`, vertex after vertex.
pub open spec fn mesh_words(vertices: Seq<ModelVertex>) -> Seq<u32> {
    Seq::new(
        (VERTEX_WORDS * vertices.len()) as nat,
        |i: int| vertex_words(vertices[i / (VERTEX_WORDS as int)])[i % (VERTEX_WORDS as int)],
    )
}

/// `bytemuck::cast_slice` from `u32` to `u8`, copied into a vector.
///
/// Trusted: the cast reinterprets the memory of `words` as bytes, so the
/// result is four bytes per word, in order, each word in the byte order of
/// the machine. The cast cannot fail for these two types: `u8` has alignment
/// 1 and size 1.
#[verifier::external_body]
fn cast_words(words: &[u32]) -> (bytes: Vec<u8>)
    ensures
        in_memory_order(words@, bytes@),
{
    bytemuck::cast_slice::<u32, u8>(words).to_vec()
}

/// The words of the mesh's vertices, vertex after vertex.
pub fn vertex_words_of(mesh: &Mesh) -> (words: Vec<u32>)
    ensures
        words@ == mesh_words(mesh.vertices@),
{
    let mut words: Vec<u32> = Vec::new();
    let mut i: usize = 0;
    while i < mesh.vertices.len()
        invariant
            i <= mesh.vertices.len(),
            words@ == mesh_words(mesh.vertices@.take(i as int)),
        decreases mesh.vertices.len() - i,
    {
        let v: ModelVertex = mesh.vertices[i];
        words.push(v.position[0]);
        words.push(v.position[1]);
        words.push(v.position[2]);
        words.push(v.color[0]);
        words.push(v.color[1]);
        words.push(v.color[2]);
        words.push(v.normal[0]);
        words.push(v.normal[1]);
        words.push(v.normal[2]);
        words.push(v.tex_coords[0]);
        words.push(v.tex_coords[1]);
        i = i + 1;
    }
    assert(mesh.vertices@.take(i as int) == mesh.vertices@);
    words
}

/// The contents of the vertex buffer: every vertex as 44 bytes, its eleven
/// words in field order.
pub fn vertex_buffer_contents(mesh: &Mesh) -> (bytes: Vec<u8>)
    ensures
        in_memory_order(mesh_words(mesh.vertices@), bytes@),
        bytes@.len() == VERTEX_SIZE * mesh.vertices@.len(),
{
    let words = vertex_words_of(mesh);
    cast_words(words.as_slice())
}

/// The contents of the 32-bit index buffer.
pub fn index_buffer_contents(mesh: &Mesh) -> (bytes: Vec<u8>)
    ensures
        in_memory_order(mesh.indices@, bytes@),
        bytes@.len() == 4 * mesh.indices@.len(),
{
    cast_words(mesh.indices.as_slice())
}

} // verus!
