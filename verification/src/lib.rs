//! Decoding of binary STL meshes, with the decoder's behaviour stated as
//! contracts over byte sequences and proved.
//!
//! A binary STL file is an 80-byte header, a 32-bit little-endian triangle
//! count and that many 50-byte triangle records. [`model::load_stl`] turns
//! such a file into a [`model::Mesh`]: three vertices per triangle and one
//! index per vertex.
//!
//! Coordinates are IEEE-754 single-precision numbers. The library never does
//! arithmetic on them, so it carries each one as the 32-bit pattern of its
//! encoding; `f32::from_bits` gives the number back.

pub mod format;
pub mod model;
pub mod buffer;
pub mod encoding;
pub mod laws;
