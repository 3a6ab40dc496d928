//! The binary STL layout written out for a given mesh, and the proof that
//! decoding reads back what was laid out.

use vstd::prelude::*;
use crate::format::{
    byte_of, corner_position, declared_count, face_normal, lemma_le_u32_of_bytes, record_offset,
    records_present, word_at, words_le, RECORDS_START, STL_HEADER_SIZE, TRIANGLE_SIZE,
};
use crate::model::{
    counting_indices, indexable, stl_decoding, FormatError, MeshView, ModelVertex, MAX_TRIANGLES,
    ONE_BITS, ZERO_BITS,
};

verus! {

/// The twelve words of the record of triangle `t`: the normal of its first
/// corner, then the positions of its three corners.
pub open spec fn record_words(vertices: Seq<ModelVertex>, t: int) -> Seq<u32> {
    vertices[3 * t].normal@ + vertices[3 * t].position@ + vertices[3 * t + 1].position@
        + vertices[3 * t + 2].position@
}

/// The 50 bytes of the record of triangle `t`: its twelve words, then the
/// attribute byte count, all little-endian.
pub open spec fn record_bytes(vertices: Seq<ModelVertex>, attributes: Seq<u16>, t: int) -> Seq<u8> {
    words_le(record_words(vertices, t)) + seq![
        (attributes[t] % 256) as u8,
        (attributes[t] / 256) as u8,
    ]
}

/// The file that holds the triangles of `vertices`, three vertices each,
/// under `header`, with `attributes[t]` as the attribute byte count of
/// triangle `t`.
pub open spec fn stl_encoding(
    header: Seq<u8>,
    vertices: Seq<ModelVertex>,
    attributes: Seq<u16>,
) -> Seq<u8> {
    header + words_le(seq![(vertices.len() / 3) as u32]) + Seq::new(
        (TRIANGLE_SIZE * (vertices.len() / 3)) as nat,
        |j: int|
            record_bytes(vertices, attributes, j / (TRIANGLE_SIZE as int))[j % (
            TRIANGLE_SIZE as int)],
    )
}

/// What can be laid out: an 80-byte header, whole triangles, no more of them
/// than can be indexed, and one attribute byte count for each.
pub open spec fn encodable(header: Seq<u8>, vertices: Seq<ModelVertex>, attributes: Seq<u16>) -> bool {
    &&& header.len() == STL_HEADER_SIZE
    &&& vertices.len() % 3 == 0
    &&& vertices.len() / 3 <= MAX_TRIANGLES
    &&& attributes.len() == vertices.len() / 3
}

/// A mesh as the decoder makes it: the indices count the vertices off, every
/// vertex is white with texture coordinate (0, 0), and the three corners of
/// a triangle have one normal.
pub open spec fn flat_shaded(mesh: MeshView) -> bool {
    &&& mesh.vertices.len() % 3 == 0
    &&& mesh.indices == counting_indices(mesh.vertices.len() / 3)
    &&& forall|k: int|
        0 <= k < mesh.vertices.len() ==> {
            &&& (#[trigger] mesh.vertices[k]).color == [ONE_BITS, ONE_BITS, ONE_BITS]
            &&& mesh.vertices[k].tex_coords == [ZERO_BITS, ZERO_BITS]
            &&& mesh.vertices[k].normal == mesh.vertices[3 * (k / 3)].normal
        }
}

/// The encoding is the header, the count and 50 bytes for each triangle, and
/// its count field holds the number of triangles.
pub proof fn lemma_encoding_frame(header: Seq<u8>, vertices: Seq<ModelVertex>, attributes: Seq<u16>)
    requires
        encodable(header, vertices, attributes),
    ensures
        stl_encoding(header, vertices, attributes).len() == record_offset(
            vertices.len() as int / 3,
        ),
        declared_count(stl_encoding(header, vertices, attributes)) == vertices.len() / 3,
        records_present(stl_encoding(header, vertices, attributes)) == vertices.len() / 3,
{
    let n = (vertices.len() / 3) as u32;
    let enc = stl_encoding(header, vertices, attributes);
    let count = words_le(seq![n]);
    assert(enc[80] == count[0]);
    assert(enc[81] == count[1]);
    assert(enc[82] == count[2]);
    assert(enc[83] == count[3]);
    lemma_le_u32_of_bytes(n);
}

/// Word `w` (0 to 11) of the record of triangle `t` reads back as it was
/// laid out.
pub proof fn lemma_encoded_word(
    header: Seq<u8>,
    vertices: Seq<ModelVertex>,
    attributes: Seq<u16>,
    t: int,
    w: int,
)
    requires
        encodable(header, vertices, attributes),
        0 <= t < vertices.len() / 3,
        0 <= w < 12,
    ensures
        word_at(stl_encoding(header, vertices, attributes), record_offset(t) + 4 * w)
            == record_words(vertices, t)[w],
{
    let enc = stl_encoding(header, vertices, attributes);
    let words = record_words(vertices, t);
    let record = record_bytes(vertices, attributes, t);
    let at = record_offset(t) + 4 * w;
    assert(words.len() == 12);
    assert forall|b: int| 0 <= b < 4 implies #[trigger] enc[at + b] == byte_of(words[w], b) by {
        let j = at + b - RECORDS_START;
        assert(j == 50 * t + (4 * w + b));
        assert(j / 50 == t && j % 50 == 4 * w + b);
        assert(enc[at + b] == record[4 * w + b]);
        assert(record[4 * w + b] == words_le(words)[4 * w + b]);
        assert((4 * w + b) / 4 == w && (4 * w + b) % 4 == b);
    }
    assert(enc[at + 0] == byte_of(words[w], 0));
    lemma_le_u32_of_bytes(words[w]);
}

/// The normal of triangle `t` reads back as that of its first corner.
pub proof fn lemma_encoded_normal(
    header: Seq<u8>,
    vertices: Seq<ModelVertex>,
    attributes: Seq<u16>,
    t: int,
)
    requires
        encodable(header, vertices, attributes),
        0 <= t < vertices.len() / 3,
    ensures
        face_normal(stl_encoding(header, vertices, attributes), t) == vertices[3 * t].normal,
{
    let enc = stl_encoding(header, vertices, attributes);
    lemma_encoded_word(header, vertices, attributes, t, 0);
    lemma_encoded_word(header, vertices, attributes, t, 1);
    lemma_encoded_word(header, vertices, attributes, t, 2);
    assert(face_normal(enc, t) =~= vertices[3 * t].normal);
}

/// The position of corner `c` of triangle `t` reads back as it was laid out.
pub proof fn lemma_encoded_position(
    header: Seq<u8>,
    vertices: Seq<ModelVertex>,
    attributes: Seq<u16>,
    t: int,
    c: int,
)
    requires
        encodable(header, vertices, attributes),
        0 <= t < vertices.len() / 3,
        0 <= c < 3,
    ensures
        corner_position(stl_encoding(header, vertices, attributes), t, c) == vertices[3 * t
            + c].position,
{
    let enc = stl_encoding(header, vertices, attributes);
    lemma_encoded_word(header, vertices, attributes, t, 3 + 3 * c);
    lemma_encoded_word(header, vertices, attributes, t, 4 + 3 * c);
    lemma_encoded_word(header, vertices, attributes, t, 5 + 3 * c);
    assert(corner_position(enc, t, c) =~= vertices[3 * t + c].position);
}

/// Decoding the encoding of whole triangles succeeds and gives back every
/// position bit for bit, in order, and for every vertex the normal of its
/// triangle. The header and the attribute byte counts make no difference.
pub proof fn lemma_decode_encode(header: Seq<u8>, vertices: Seq<ModelVertex>, attributes: Seq<u16>)
    requires
        encodable(header, vertices, attributes),
    ensures
        indexable(stl_encoding(header, vertices, attributes)),
        stl_decoding(stl_encoding(header, vertices, attributes)) matches Ok(mesh) && {
            &&& mesh.vertices.len() == vertices.len()
            &&& mesh.indices == counting_indices(vertices.len() / 3)
            &&& forall|k: int|
                0 <= k < vertices.len() ==> {
                    &&& (#[trigger] mesh.vertices[k]).position == vertices[k].position
                    &&& mesh.vertices[k].normal == vertices[3 * (k / 3)].normal
                    &&& mesh.vertices[k].color == [ONE_BITS, ONE_BITS, ONE_BITS]
                    &&& mesh.vertices[k].tex_coords == [ZERO_BITS, ZERO_BITS]
                }
        },
{
    let enc = stl_encoding(header, vertices, attributes);
    lemma_encoding_frame(header, vertices, attributes);
    let mesh = stl_decoding(enc)->Ok_0;
    assert forall|k: int| 0 <= k < vertices.len() implies {
        &&& (#[trigger] mesh.vertices[k]).position == vertices[k].position
        &&& mesh.vertices[k].normal == vertices[3 * (k / 3)].normal
    } by {
        lemma_encoded_normal(header, vertices, attributes, k / 3);
        lemma_encoded_position(header, vertices, attributes, k / 3, k % 3);
    }
}

/// A flat-shaded mesh comes back from its encoding whole: the same vertices
/// and the same indices.
pub proof fn lemma_decode_encode_flat_shaded(header: Seq<u8>, mesh: MeshView, attributes: Seq<u16>)
    requires
        encodable(header, mesh.vertices, attributes),
        flat_shaded(mesh),
    ensures
        stl_decoding(stl_encoding(header, mesh.vertices, attributes)) == Ok::<
            MeshView,
            FormatError,
        >(mesh),
{
    lemma_decode_encode(header, mesh.vertices, attributes);
    let back = stl_decoding(stl_encoding(header, mesh.vertices, attributes))->Ok_0;
    assert(back.vertices =~= mesh.vertices);
    assert(back =~= mesh);
}

/// Every mesh that decoding gives is flat-shaded.
pub proof fn lemma_decoded_is_flat_shaded(bytes: Seq<u8>)
    requires
        indexable(bytes),
    ensures
        stl_decoding(bytes) matches Ok(mesh) ==> flat_shaded(mesh),
{
    if let Ok(mesh) = stl_decoding(bytes) {
        assert(mesh.vertices.len() / 3 == declared_count(bytes));
    }
}

} // verus!
