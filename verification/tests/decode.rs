use stl_mesh::format::{f32_bits_from_vec_offset, triple_from_vec_offset};
use stl_mesh::model::{
    is_indexable, load_stl, FormatError, Mesh, ModelVertex, MAX_TRIANGLES, ONE_BITS, ZERO_BITS,
};

/// One triangle of a test file: the normal, then the three corners.
type Triangle = [[f32; 3]; 4];

fn file_with(header: &[u8; 80], count: u32, triangles: &[Triangle], attribute: u16) -> Vec<u8> {
    let mut bytes: Vec<u8> = Vec::new();
    bytes.extend_from_slice(header);
    bytes.extend_from_slice(&count.to_le_bytes());
    for triangle in triangles {
        for triple in triangle {
            for component in triple {
                bytes.extend_from_slice(&component.to_le_bytes());
            }
        }
        bytes.extend_from_slice(&attribute.to_le_bytes());
    }
    bytes
}

fn file_of(triangles: &[Triangle]) -> Vec<u8> {
    file_with(&[0u8; 80], triangles.len() as u32, triangles, 0)
}

fn numbered(n: u32) -> Vec<Triangle> {
    let mut triangles: Vec<Triangle> = Vec::new();
    for t in 0..n {
        let base = (t * 12) as f32;
        triangles.push([
            [base, base + 1.0, base + 2.0],
            [base + 3.0, base + 4.0, base + 5.0],
            [base + 6.0, base + 7.0, base + 8.0],
            [base + 9.0, base + 10.0, base + 11.0],
        ]);
    }
    triangles
}

fn bits(triple: [f32; 3]) -> [u32; 3] {
    [triple[0].to_bits(), triple[1].to_bits(), triple[2].to_bits()]
}

fn floats(triple: [u32; 3]) -> [f32; 3] {
    [f32::from_bits(triple[0]), f32::from_bits(triple[1]), f32::from_bits(triple[2])]
}

fn unit_triangle() -> Triangle {
    [[0.0, 0.0, 1.0], [0.0, 0.0, 0.0], [1.0, 0.0, 0.0], [0.0, 1.0, 0.0]]
}

#[test]
fn single_triangle_decodes_to_three_vertices() {
    let bytes = file_of(&[unit_triangle()]);
    assert_eq!(bytes.len(), 134);
    let mesh = load_stl(&bytes).unwrap();
    assert_eq!(mesh.indices, vec![0, 1, 2]);
    assert_eq!(mesh.vertices.len(), 3);
    let expected_positions = [[0.0f32, 0.0, 0.0], [1.0, 0.0, 0.0], [0.0, 1.0, 0.0]];
    for corner in 0..3 {
        let vertex = mesh.vertices[corner];
        assert_eq!(floats(vertex.position), expected_positions[corner]);
        assert_eq!(floats(vertex.normal), [0.0, 0.0, 1.0]);
        assert_eq!(floats(vertex.color), [1.0, 1.0, 1.0]);
        assert_eq!(f32::from_bits(vertex.tex_coords[0]), 0.0);
        assert_eq!(f32::from_bits(vertex.tex_coords[1]), 0.0);
    }
}

#[test]
fn single_triangle_has_exact_bit_patterns() {
    let mesh = load_stl(&file_of(&[unit_triangle()])).unwrap();
    let expected = Mesh {
        vertices: vec![
            ModelVertex {
                position: [0, 0, 0],
                color: [0x3F80_0000, 0x3F80_0000, 0x3F80_0000],
                normal: [0, 0, 0x3F80_0000],
                tex_coords: [0, 0],
            },
            ModelVertex {
                position: [0x3F80_0000, 0, 0],
                color: [0x3F80_0000, 0x3F80_0000, 0x3F80_0000],
                normal: [0, 0, 0x3F80_0000],
                tex_coords: [0, 0],
            },
            ModelVertex {
                position: [0, 0x3F80_0000, 0],
                color: [0x3F80_0000, 0x3F80_0000, 0x3F80_0000],
                normal: [0, 0, 0x3F80_0000],
                tex_coords: [0, 0],
            },
        ],
        indices: vec![0, 1, 2],
    };
    assert_eq!(mesh, expected);
}

#[test]
fn constants_are_the_patterns_of_one_and_zero() {
    assert_eq!(ONE_BITS, 1.0f32.to_bits());
    assert_eq!(ZERO_BITS, 0.0f32.to_bits());
    assert_eq!(MAX_TRIANGLES, u32::MAX / 3);
}

#[test]
fn zero_triangle_file_gives_empty_mesh() {
    let bytes = file_of(&[]);
    assert_eq!(bytes.len(), 84);
    let mesh = load_stl(&bytes).unwrap();
    assert!(mesh.vertices.is_empty());
    assert!(mesh.indices.is_empty());
    assert_eq!(mesh.num_elements(), 0);
}

#[test]
fn header_content_is_ignored() {
    let mut header = [0u8; 80];
    for (i, byte) in header.iter_mut().enumerate() {
        *byte = 255 - i as u8;
    }
    let triangles = numbered(2);
    let plain = load_stl(&file_of(&triangles)).unwrap();
    let with_header = load_stl(&file_with(&header, 2, &triangles, 0)).unwrap();
    assert_eq!(plain, with_header);
}

#[test]
fn attribute_bytes_are_not_interpreted() {
    let triangles = numbered(3);
    let plain = load_stl(&file_of(&triangles)).unwrap();
    let with_attributes = load_stl(&file_with(&[0u8; 80], 3, &triangles, 0xBEEF)).unwrap();
    assert_eq!(plain, with_attributes);
}

#[test]
fn bytes_after_the_last_record_are_not_read() {
    let mut bytes = file_of(&numbered(2));
    let expected = load_stl(&bytes).unwrap();
    bytes.extend_from_slice(&[0xAA; 49]);
    assert_eq!(load_stl(&bytes).unwrap(), expected);
    bytes.extend_from_slice(&[0xAA; 100]);
    assert_eq!(load_stl(&bytes).unwrap(), expected);
}

#[test]
fn mesh_has_three_vertices_and_indices_per_triangle() {
    for n in [0u32, 1, 2, 7, 100] {
        let mesh = load_stl(&file_of(&numbered(n))).unwrap();
        assert_eq!(mesh.vertices.len(), 3 * n as usize);
        assert_eq!(mesh.indices.len(), 3 * n as usize);
        assert_eq!(mesh.num_elements(), 3 * n);
    }
}

#[test]
fn indices_count_the_vertices_off() {
    let mesh = load_stl(&file_of(&numbered(5))).unwrap();
    let expected: Vec<u32> = (0..15).collect();
    assert_eq!(mesh.indices, expected);
}

#[test]
fn vertices_follow_file_order() {
    let triangles = numbered(4);
    let mesh = load_stl(&file_of(&triangles)).unwrap();
    for t in 0..4 {
        for corner in 0..3 {
            let vertex = mesh.vertices[3 * t + corner];
            assert_eq!(vertex.normal, bits(triangles[t][0]));
            assert_eq!(vertex.position, bits(triangles[t][1 + corner]));
            assert_eq!(vertex.color, [ONE_BITS; 3]);
            assert_eq!(vertex.tex_coords, [ZERO_BITS; 2]);
        }
    }
    assert_eq!(floats(mesh.vertices[4].position), [18.0, 19.0, 20.0]);
    assert_eq!(floats(mesh.vertices[11].normal), [36.0, 37.0, 38.0]);
}

#[test]
fn coincident_vertices_stay_distinct() {
    let shared = [[0.0, 0.0, 1.0], [0.0, 0.0, 0.0], [1.0, 0.0, 0.0], [0.0, 1.0, 0.0]];
    let mesh = load_stl(&file_of(&[shared, shared])).unwrap();
    assert_eq!(mesh.vertices.len(), 6);
    assert_eq!(mesh.indices, vec![0, 1, 2, 3, 4, 5]);
    assert_eq!(mesh.vertices[0], mesh.vertices[3]);
}

#[test]
fn round_trip_keeps_every_bit() {
    let odd = [
        f32::from_bits(0x7FC0_1234),
        f32::from_bits(0xFF80_0001),
        -0.0f32,
        f32::MIN_POSITIVE / 2.0,
        f32::INFINITY,
        f32::NEG_INFINITY,
        f32::MAX,
        1.0e-40,
        std::f32::consts::PI,
        f32::from_bits(0x0000_0001),
        f32::from_bits(0x8000_0001),
        f32::from_bits(0xDEAD_BEEF),
    ];
    let triangle: Triangle = [
        [odd[0], odd[1], odd[2]],
        [odd[3], odd[4], odd[5]],
        [odd[6], odd[7], odd[8]],
        [odd[9], odd[10], odd[11]],
    ];
    let triangles = [triangle, unit_triangle(), triangle];
    let mesh = load_stl(&file_with(&[7u8; 80], 3, &triangles, 0x0102)).unwrap();
    for t in 0..3 {
        for corner in 0..3 {
            let vertex = mesh.vertices[3 * t + corner];
            assert_eq!(vertex.normal, bits(triangles[t][0]));
            assert_eq!(vertex.position, bits(triangles[t][1 + corner]));
        }
    }
    assert_eq!(mesh.vertices[0].normal, [0x7FC0_1234, 0xFF80_0001, 0x8000_0000]);
    assert_eq!(mesh.vertices[2].position, [0x0000_0001, 0x8000_0001, 0xDEAD_BEEF]);
}

#[test]
fn encoding_a_decoded_mesh_gives_the_records_back() {
    let bytes = file_of(&numbered(6));
    let mesh = load_stl(&bytes).unwrap();
    let mut again: Vec<Triangle> = Vec::new();
    for t in 0..6 {
        again.push([
            floats(mesh.vertices[3 * t].normal),
            floats(mesh.vertices[3 * t].position),
            floats(mesh.vertices[3 * t + 1].position),
            floats(mesh.vertices[3 * t + 2].position),
        ]);
    }
    assert_eq!(file_of(&again), bytes);
}

#[test]
fn decoding_twice_gives_the_same_mesh() {
    let bytes = file_of(&numbered(9));
    let first = load_stl(&bytes);
    let second = load_stl(&bytes);
    assert_eq!(first, second);
    let short = &bytes[..200];
    assert_eq!(load_stl(short), load_stl(short));
    assert_eq!(load_stl(short), Err(FormatError::TruncatedTriangle(2)));
}

#[test]
fn fewer_than_80_bytes_is_a_truncated_header() {
    let bytes = file_of(&numbered(2));
    for cut in [0usize, 1, 40, 79] {
        assert_eq!(load_stl(&bytes[..cut]), Err(FormatError::TruncatedHeader));
    }
}

#[test]
fn fewer_than_4_count_bytes_is_a_truncated_count() {
    let bytes = file_of(&numbered(2));
    for cut in [80usize, 81, 82, 83] {
        assert_eq!(load_stl(&bytes[..cut]), Err(FormatError::TruncatedCount));
    }
}

#[test]
fn cut_inside_a_record_names_the_triangle() {
    let bytes = file_of(&numbered(4));
    assert_eq!(bytes.len(), 284);
    for k in 0..4usize {
        for within in [0usize, 1, 11, 12, 25, 47, 48, 49] {
            let cut = 84 + 50 * k + within;
            assert_eq!(load_stl(&bytes[..cut]), Err(FormatError::TruncatedTriangle(k as u32)));
        }
    }
    assert!(load_stl(&bytes[..284]).is_ok());
}

#[test]
fn count_larger_than_the_records_present_is_refused() {
    let mut bytes = file_with(&[0u8; 80], 3, &numbered(2), 0);
    assert_eq!(load_stl(&bytes), Err(FormatError::TruncatedTriangle(2)));
    bytes[80..84].copy_from_slice(&u32::MAX.to_le_bytes());
    assert_eq!(load_stl(&bytes), Err(FormatError::TruncatedTriangle(2)));
    bytes.truncate(84);
    assert_eq!(load_stl(&bytes), Err(FormatError::TruncatedTriangle(0)));
}

#[test]
fn count_is_read_little_endian() {
    let mut bytes = file_of(&numbered(1));
    bytes[80..84].copy_from_slice(&[0, 0, 0, 1]);
    assert_eq!(load_stl(&bytes), Err(FormatError::TruncatedTriangle(1)));
    bytes[80..84].copy_from_slice(&[1, 0, 0, 0]);
    assert_eq!(load_stl(&bytes).unwrap().vertices.len(), 3);
    let many = file_of(&numbered(258));
    assert_eq!(&many[80..84], &[2, 1, 0, 0]);
    assert_eq!(load_stl(&many).unwrap().vertices.len(), 774);
}

#[test]
fn word_is_read_little_endian() {
    let bytes = [0x00u8, 0x00, 0x80, 0x3F, 0x01, 0x02, 0x03, 0x04, 0xFF, 0xFF, 0xFF, 0xFF];
    assert_eq!(f32_bits_from_vec_offset(&bytes, 0), 0x3F80_0000);
    assert_eq!(f32::from_bits(f32_bits_from_vec_offset(&bytes, 0)), 1.0);
    assert_eq!(f32_bits_from_vec_offset(&bytes, 4), 0x0403_0201);
    assert_eq!(f32_bits_from_vec_offset(&bytes, 8), u32::MAX);
    assert_eq!(f32_bits_from_vec_offset(&bytes, 1), 0x013F_8000);
    assert_eq!(f32_bits_from_vec_offset(&bytes, 2), u32::from_le_bytes([0x80, 0x3F, 0x01, 0x02]));
}

#[test]
fn triple_is_three_consecutive_words() {
    let bytes = [9u8, 0x00, 0x00, 0x80, 0x3F, 0x01, 0x02, 0x03, 0x04, 0xFF, 0xFF, 0xFF, 0xFF];
    assert_eq!(triple_from_vec_offset(&bytes, 1), [0x3F80_0000, 0x0403_0201, u32::MAX]);
}

#[test]
fn small_files_are_indexable() {
    assert!(is_indexable(&[]));
    assert!(is_indexable(&[0u8; 83]));
    assert!(is_indexable(&file_of(&numbered(3))));
    let mut bytes = file_of(&numbered(1));
    bytes[80..84].copy_from_slice(&u32::MAX.to_le_bytes());
    assert!(is_indexable(&bytes));
    bytes[80..84].copy_from_slice(&MAX_TRIANGLES.to_le_bytes());
    assert!(is_indexable(&bytes));
}
