//! The binary STL layout as a mathematical description: where each field of a
//! file lies, and how four bytes make a 32-bit word.

use vstd::prelude::*;

verus! {

/// Length of the free-form header that starts a file.
pub const STL_HEADER_SIZE: usize = 80;

/// Length of one triangle record: twelve 32-bit words and a 16-bit attribute
/// byte count.
pub const TRIANGLE_SIZE: usize = 50;

/// Offset of the first triangle record: the header and the four bytes of the
/// triangle count come before it.
pub const RECORDS_START: usize = 84;

/// The 32-bit word whose little-endian encoding is `b0 b1 b2 b3`.
pub open spec fn le_u32(b0: u8, b1: u8, b2: u8, b3: u8) -> u32 {
    (b0 + 256 * b1 + 65536 * b2 + 16777216 * b3) as u32
}

/// Byte `k` of `word`, counted from the least significant (byte 0) to the most
/// significant (byte 3).
pub open spec fn byte_of(word: u32, k: int) -> u8
    recommends
        0 <= k < 4,
{
    if k == 0 {
        (word % 256) as u8
    } else if k == 1 {
        (word / 256 % 256) as u8
    } else if k == 2 {
        (word / 65536 % 256) as u8
    } else {
        (word / 16777216) as u8
    }
}

/// The words of `words` one after the other, each as four bytes with the
/// least significant first.
pub open spec fn words_le(words: Seq<u32>) -> Seq<u8> {
    Seq::new(4 * words.len(), |i: int| byte_of(words[i / 4], i % 4))
}

/// The words of `words` one after the other, each as four bytes with the
/// most significant first.
pub open spec fn words_be(words: Seq<u32>) -> Seq<u8> {
    Seq::new(4 * words.len(), |i: int| byte_of(words[i / 4], 3 - i % 4))
}

/// A word is the little-endian reading of its own four bytes.
pub proof fn lemma_le_u32_of_bytes(word: u32)
    ensures
        le_u32(byte_of(word, 0), byte_of(word, 1), byte_of(word, 2), byte_of(word, 3)) == word,
{
}

/// The little-endian word that occupies `bytes[offset .. offset + 4]`.
pub open spec fn word_at(bytes: Seq<u8>, offset: int) -> u32
    recommends
        0 <= offset,
        offset + 4 <= bytes.len(),
{
    le_u32(bytes[offset], bytes[offset + 1], bytes[offset + 2], bytes[offset + 3])
}

/// Three consecutive little-endian words starting at `offset`.
pub open spec fn triple_at(bytes: Seq<u8>, offset: int) -> [u32; 3]
    recommends
        0 <= offset,
        offset + 12 <= bytes.len(),
{
    [word_at(bytes, offset), word_at(bytes, offset + 4), word_at(bytes, offset + 8)]
}

/// Offset of the record of triangle `t`.
pub open spec fn record_offset(t: int) -> int {
    RECORDS_START + TRIANGLE_SIZE * t
}

/// The triangle count that a file of at least 84 bytes declares.
pub open spec fn declared_count(bytes: Seq<u8>) -> u32
    recommends
        bytes.len() >= RECORDS_START,
{
    word_at(bytes, STL_HEADER_SIZE as int)
}

/// The face normal of triangle `t`: the first three words of its record.
pub open spec fn face_normal(bytes: Seq<u8>, t: int) -> [u32; 3]
    recommends
        0 <= t,
        record_offset(t + 1) <= bytes.len(),
{
    triple_at(bytes, record_offset(t))
}

/// The position of corner `c` (0, 1 or 2) of triangle `t`, in file order.
pub open spec fn corner_position(bytes: Seq<u8>, t: int, c: int) -> [u32; 3]
    recommends
        0 <= t,
        0 <= c < 3,
        record_offset(t + 1) <= bytes.len(),
{
    triple_at(bytes, record_offset(t) + 12 + 12 * c)
}

/// How many whole triangle records a file of at least 84 bytes holds.
pub open spec fn records_present(bytes: Seq<u8>) -> int
    recommends
        bytes.len() >= RECORDS_START,
{
    (bytes.len() - RECORDS_START) / (TRIANGLE_SIZE as int)
}

/// Reads the little-endian word at `offset`.
pub fn f32_bits_from_vec_offset(vec: &[u8], offset: usize) -> (bits: u32)
    requires
        offset + 4 <= vec.len(),
    ensures
        bits == word_at(vec@, offset as int),
{
    let b0: u32 = vec[offset] as u32;
    let b1: u32 = vec[offset + 1] as u32;
    let b2: u32 = vec[offset + 2] as u32;
    let b3: u32 = vec[offset + 3] as u32;
    b0 + b1 * 256 + b2 * 65536 + b3 * 16777216
}

/// Reads three consecutive little-endian words starting at `offset`.
pub fn triple_from_vec_offset(vec: &[u8], offset: usize) -> (words: [u32; 3])
    requires
        offset + 12 <= vec.len(),
    ensures
        words == triple_at(vec@, offset as int),
{
    [
        f32_bits_from_vec_offset(vec, offset),
        f32_bits_from_vec_offset(vec, offset + 4),
        f32_bits_from_vec_offset(vec, offset + 8),
    ]
}

} // verus!
