//! What holds of decoding on every input: the size of the mesh, how a file
//! that was cut short is refused, and that the result depends on the bytes
//! alone.

use vstd::prelude::*;
use crate::format::{declared_count, record_offset, records_present, RECORDS_START, STL_HEADER_SIZE};
use crate::model::{outcome, stl_decoding, FormatError, Mesh, MeshView};

verus! {

/// A decoded mesh has three vertices and three indices for each triangle
/// that the file declares.
pub proof fn lemma_mesh_size(bytes: Seq<u8>)
    ensures
        stl_decoding(bytes) matches Ok(mesh) ==> {
            &&& mesh.vertices.len() == 3 * declared_count(bytes)
            &&& mesh.indices.len() == 3 * declared_count(bytes)
        },
{
}

/// Decoding succeeds exactly on the files that hold the header, the count
/// and every declared record.
pub proof fn lemma_success(bytes: Seq<u8>)
    ensures
        stl_decoding(bytes) is Ok <==> bytes.len() >= RECORDS_START && bytes.len()
            >= record_offset(declared_count(bytes) as int),
{
}

/// A header and a count of zero, with or without bytes after them, decode to
/// the empty mesh.
pub proof fn lemma_no_triangles(bytes: Seq<u8>)
    requires
        bytes.len() >= RECORDS_START,
        declared_count(bytes) == 0,
    ensures
        stl_decoding(bytes) == Ok::<MeshView, FormatError>(
            MeshView { vertices: Seq::empty(), indices: Seq::empty() },
        ),
{
    let mesh = stl_decoding(bytes)->Ok_0;
    assert(mesh.vertices =~= Seq::empty());
    assert(mesh.indices =~= Seq::empty());
}

/// Any header followed by four zero bytes decodes to the empty mesh.
pub proof fn lemma_empty_file(header: Seq<u8>)
    requires
        header.len() == STL_HEADER_SIZE,
    ensures
        stl_decoding(header + seq![0u8, 0u8, 0u8, 0u8]) == Ok::<MeshView, FormatError>(
            MeshView { vertices: Seq::empty(), indices: Seq::empty() },
        ),
{
    let bytes = header + seq![0u8, 0u8, 0u8, 0u8];
    assert(bytes[80] == 0 && bytes[81] == 0 && bytes[82] == 0 && bytes[83] == 0);
    lemma_no_triangles(bytes);
}

/// A file cut to fewer than 80 bytes is refused for its header.
pub proof fn lemma_cut_in_header(bytes: Seq<u8>, cut: int)
    requires
        0 <= cut <= bytes.len(),
        cut < STL_HEADER_SIZE,
    ensures
        stl_decoding(bytes.take(cut)) == Err::<MeshView, FormatError>(FormatError::TruncatedHeader),
{
}

/// A file cut inside its count field is refused for its count.
pub proof fn lemma_cut_in_count(bytes: Seq<u8>, cut: int)
    requires
        STL_HEADER_SIZE <= cut <= bytes.len(),
        cut < RECORDS_START,
    ensures
        stl_decoding(bytes.take(cut)) == Err::<MeshView, FormatError>(FormatError::TruncatedCount),
{
}

/// A file that decodes, cut anywhere from the start of the record of
/// triangle `k` to just before that record's end, is refused for triangle
/// `k`.
pub proof fn lemma_cut_in_triangle(bytes: Seq<u8>, k: int, cut: int)
    requires
        stl_decoding(bytes) is Ok,
        0 <= k < declared_count(bytes),
        record_offset(k) <= cut < record_offset(k + 1),
    ensures
        stl_decoding(bytes.take(cut)) == Err::<MeshView, FormatError>(
            FormatError::TruncatedTriangle(k as u32),
        ),
{
    let short = bytes.take(cut);
    assert(short[80] == bytes[80] && short[81] == bytes[81] && short[82] == bytes[82]
        && short[83] == bytes[83]);
    assert(declared_count(short) == declared_count(bytes));
    assert(records_present(short) == k);
}

/// The triangle that a refusal names is the first whose record is not there
/// in full: every record before it is, its own is not, and the file declares
/// it.
pub proof fn lemma_refused_triangle(bytes: Seq<u8>, k: u32)
    requires
        stl_decoding(bytes) == Err::<MeshView, FormatError>(FormatError::TruncatedTriangle(k)),
    ensures
        k < declared_count(bytes),
        record_offset(k as int) <= bytes.len() < record_offset(k + 1),
{
}

/// Decoding depends on the bytes alone: two results for one byte sequence
/// have the same content.
pub proof fn lemma_decoding_repeats(
    bytes: Seq<u8>,
    first: Result<Mesh, FormatError>,
    second: Result<Mesh, FormatError>,
)
    requires
        outcome(first) == stl_decoding(bytes),
        outcome(second) == stl_decoding(bytes),
    ensures
        outcome(first) == outcome(second),
        first matches Ok(a) ==> second matches Ok(b) && a.vertices@ == b.vertices@ && a.indices@
            == b.indices@,
        first matches Err(e) ==> second == Err::<Mesh, FormatError>(e),
{
}

} // verus!
