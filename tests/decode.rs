use stormworks_mesh::{
    build_stormworks_mesh, IndexIndexOutOfBounds, InvalidStormworksShaderType, Rgba8,
    SpecificError, StormworksParserError, StormworksShaderType, SubMeshIndexOutOfBounds,
    TooBigNameLength, Vec3Bits,
};

fn header(vertex_count: u16) -> Vec<u8> {
    let mut b = b"mesh".to_vec();
    b.extend_from_slice(&[7, 7, 7, 7]);
    b.extend_from_slice(&vertex_count.to_le_bytes());
    b.extend_from_slice(&[9, 9, 9, 9]);
    b
}

fn push_vertex(b: &mut Vec<u8>, pos: [f32; 3], color: [u8; 4], normal: [f32; 3]) {
    for x in pos {
        b.extend_from_slice(&x.to_le_bytes());
    }
    b.extend_from_slice(&color);
    for x in normal {
        b.extend_from_slice(&x.to_le_bytes());
    }
}

fn push_indices(b: &mut Vec<u8>, indices: &[u16]) {
    b.extend_from_slice(&(indices.len() as u32).to_le_bytes());
    for i in indices {
        b.extend_from_slice(&i.to_le_bytes());
    }
}

fn push_sub_mesh(b: &mut Vec<u8>, start: u32, length: u32, shader: u16, name: &[u8]) {
    b.extend_from_slice(&start.to_le_bytes());
    b.extend_from_slice(&length.to_le_bytes());
    b.extend_from_slice(&[0xAA, 0xBB]);
    b.extend_from_slice(&shader.to_le_bytes());
    b.extend_from_slice(&[0x11; 26]);
    b.extend_from_slice(&(name.len() as u16).to_le_bytes());
    b.extend_from_slice(name);
    b.extend_from_slice(&[0x22; 12]);
}

fn corrupt(e: SpecificError) -> StormworksParserError {
    StormworksParserError::CorruptFile(e)
}

/// Three vertices, one triangle, two sub-meshes.
fn triangle_file() -> Vec<u8> {
    let mut b = header(3);
    push_vertex(&mut b, [1.0, 2.0, 3.0], [10, 20, 30, 255], [0.0, 1.0, 0.0]);
    push_vertex(&mut b, [-1.5, 0.0, 4.25], [0, 0, 0, 0], [0.0, 0.0, 2.0]);
    push_vertex(&mut b, [0.0, 0.0, 0.0], [255, 254, 253, 252], [1.0, 0.0, 0.0]);
    push_indices(&mut b, &[0, 1, 2]);
    b.extend_from_slice(&2u16.to_le_bytes());
    push_sub_mesh(&mut b, 0, 3, 3, "lava pool".as_bytes());
    push_sub_mesh(&mut b, 3, 0, 1, "glass ü".as_bytes());
    b
}

#[test]
fn wrong_magic_is_not_a_mesh() {
    let mut b = b"mesx".to_vec();
    b.extend((0..100u32).map(|i| (i * 37 % 251) as u8));
    assert_eq!(build_stormworks_mesh(&b), Err(StormworksParserError::NotMesh));
}

#[test]
fn wrong_magic_wins_over_any_content() {
    let mut b = triangle_file();
    b[0] = b'M';
    assert_eq!(build_stormworks_mesh(&b), Err(StormworksParserError::NotMesh));
    assert_eq!(build_stormworks_mesh(b"hsem"), Err(StormworksParserError::NotMesh));
}

#[test]
fn input_shorter_than_magic_is_a_stream_failure() {
    assert_eq!(build_stormworks_mesh(b""), Err(corrupt(SpecificError::StreamFailure)));
    assert_eq!(build_stormworks_mesh(b"mes"), Err(corrupt(SpecificError::StreamFailure)));
}

#[test]
fn empty_mesh_decodes() {
    let mut b = header(0);
    push_indices(&mut b, &[]);
    b.extend_from_slice(&0u16.to_le_bytes());
    let m = build_stormworks_mesh(&b).unwrap();
    assert_eq!(m.vertex_count, 0);
    assert_eq!(m.index_count, 0);
    assert_eq!(m.sub_mesh_count, 0);
    assert!(m.vertices.is_empty());
    assert!(m.indices.is_empty());
    assert!(m.sub_meshes.is_empty());
}

#[test]
fn index_equal_to_vertex_count_is_out_of_range() {
    let mut b = header(1);
    push_vertex(&mut b, [0.0; 3], [1, 2, 3, 4], [0.0; 3]);
    push_indices(&mut b, &[1]);
    b.extend_from_slice(&0u16.to_le_bytes());
    assert_eq!(
        build_stormworks_mesh(&b),
        Err(corrupt(SpecificError::IndexIndexOutOfBounds(IndexIndexOutOfBounds {
            index: 0,
            vertex_count: 1
        })))
    );
}

#[test]
fn out_of_range_index_reports_its_position() {
    let mut b = header(2);
    push_vertex(&mut b, [0.0; 3], [0; 4], [0.0; 3]);
    push_vertex(&mut b, [0.0; 3], [0; 4], [0.0; 3]);
    push_indices(&mut b, &[0, 1, 1, 7, 9]);
    assert_eq!(
        build_stormworks_mesh(&b),
        Err(corrupt(SpecificError::IndexIndexOutOfBounds(IndexIndexOutOfBounds {
            index: 3,
            vertex_count: 2
        })))
    );
}

#[test]
fn name_longer_than_cap_is_rejected_before_reading_it() {
    let mut b = header(0);
    push_indices(&mut b, &[]);
    b.extend_from_slice(&1u16.to_le_bytes());
    b.extend_from_slice(&0u32.to_le_bytes());
    b.extend_from_slice(&0u32.to_le_bytes());
    b.extend_from_slice(&[0, 0]);
    b.extend_from_slice(&0u16.to_le_bytes());
    b.extend_from_slice(&[0; 26]);
    b.extend_from_slice(&1001u16.to_le_bytes());
    // no name bytes follow: the cap is checked first
    assert_eq!(
        build_stormworks_mesh(&b),
        Err(corrupt(SpecificError::TooBigNameLength(TooBigNameLength)))
    );
}

#[test]
fn name_of_exactly_the_cap_is_accepted() {
    let mut b = header(0);
    push_indices(&mut b, &[]);
    b.extend_from_slice(&1u16.to_le_bytes());
    let name = vec![b'n'; 1000];
    push_sub_mesh(&mut b, 0, 0, 0, &name);
    let m = build_stormworks_mesh(&b).unwrap();
    assert_eq!(m.sub_meshes[0].name_length_bytes, 1000);
    assert_eq!(m.sub_meshes[0].name.len(), 1000);
}

#[test]
fn unknown_shader_type_is_rejected() {
    let mut b = header(0);
    push_indices(&mut b, &[]);
    b.extend_from_slice(&1u16.to_le_bytes());
    push_sub_mesh(&mut b, 0, 0, 9, b"x");
    assert_eq!(
        build_stormworks_mesh(&b),
        Err(corrupt(SpecificError::InvalidStormworksShaderType(InvalidStormworksShaderType(9))))
    );
}

#[test]
fn unknown_shader_in_later_sub_mesh_is_rejected() {
    let mut b = header(0);
    push_indices(&mut b, &[]);
    b.extend_from_slice(&2u16.to_le_bytes());
    push_sub_mesh(&mut b, 0, 0, 2, b"ok");
    push_sub_mesh(&mut b, 0, 0, 4, b"bad");
    assert_eq!(
        build_stormworks_mesh(&b),
        Err(corrupt(SpecificError::InvalidStormworksShaderType(InvalidStormworksShaderType(4))))
    );
}

#[test]
fn sub_mesh_range_past_index_count_is_rejected() {
    let mut b = header(1);
    push_vertex(&mut b, [0.0; 3], [0; 4], [0.0; 3]);
    push_indices(&mut b, &[0; 12]);
    b.extend_from_slice(&1u16.to_le_bytes());
    push_sub_mesh(&mut b, 5, 10, 0, b"a");
    assert_eq!(
        build_stormworks_mesh(&b),
        Err(corrupt(SpecificError::SubMeshIndexOutOfBounds(SubMeshIndexOutOfBounds {
            submesh_id: 0,
            index: 15,
            relevant_bound: 12
        })))
    );
}

#[test]
fn sub_mesh_start_past_index_count_is_rejected() {
    let mut b = header(1);
    push_vertex(&mut b, [0.0; 3], [0; 4], [0.0; 3]);
    push_indices(&mut b, &[0, 0, 0]);
    b.extend_from_slice(&2u16.to_le_bytes());
    push_sub_mesh(&mut b, 0, 3, 0, b"a");
    push_sub_mesh(&mut b, 4, 0, 0, b"b");
    assert_eq!(
        build_stormworks_mesh(&b),
        Err(corrupt(SpecificError::SubMeshIndexOutOfBounds(SubMeshIndexOutOfBounds {
            submesh_id: 1,
            index: 4,
            relevant_bound: 3
        })))
    );
}

#[test]
fn sub_mesh_end_beyond_u32_is_reported_exactly() {
    let mut b = header(0);
    push_indices(&mut b, &[]);
    b.extend_from_slice(&1u16.to_le_bytes());
    push_sub_mesh(&mut b, 0, u32::MAX, 0, b"");
    assert_eq!(
        build_stormworks_mesh(&b),
        Err(corrupt(SpecificError::SubMeshIndexOutOfBounds(SubMeshIndexOutOfBounds {
            submesh_id: 0,
            index: u32::MAX as u64,
            relevant_bound: 0
        })))
    );
}

#[test]
fn sub_mesh_range_ending_at_index_count_is_accepted() {
    let mut b = header(1);
    push_vertex(&mut b, [0.0; 3], [0; 4], [0.0; 3]);
    push_indices(&mut b, &[0; 6]);
    b.extend_from_slice(&2u16.to_le_bytes());
    push_sub_mesh(&mut b, 0, 6, 0, b"all");
    push_sub_mesh(&mut b, 6, 0, 0, b"none");
    let m = build_stormworks_mesh(&b).unwrap();
    assert_eq!(m.sub_meshes.len(), 2);
}

#[test]
fn invalid_utf8_name_is_a_text_decode_failure() {
    let mut b = header(0);
    push_indices(&mut b, &[]);
    b.extend_from_slice(&1u16.to_le_bytes());
    push_sub_mesh(&mut b, 0, 0, 0, &[b'a', 0xFF, b'b']);
    assert_eq!(build_stormworks_mesh(&b), Err(corrupt(SpecificError::TextDecodeFailure)));
}

#[test]
fn truncated_inputs_are_stream_failures() {
    let full = triangle_file();
    for cut in 4..full.len() {
        assert_eq!(
            build_stormworks_mesh(&full[..cut]),
            Err(corrupt(SpecificError::StreamFailure)),
            "cut at {cut}"
        );
    }
    assert!(build_stormworks_mesh(&full).is_ok());
}

#[test]
fn trailing_data_is_ignored() {
    let mut b = triangle_file();
    let plain = build_stormworks_mesh(&b).unwrap();
    b.extend_from_slice(b"anything at all");
    assert_eq!(build_stormworks_mesh(&b).unwrap(), plain);
}

#[test]
fn full_mesh_decodes_every_field() {
    let m = build_stormworks_mesh(&triangle_file()).unwrap();
    assert_eq!(m.vertex_count, 3);
    assert_eq!(m.index_count, 3);
    assert_eq!(m.sub_mesh_count, 2);
    assert_eq!(m.vertices.len(), 3);
    assert_eq!(m.indices, vec![0, 1, 2]);
    assert_eq!(m.sub_meshes.len(), 2);

    let v = m.vertices[0];
    assert_eq!(
        v.position,
        Vec3Bits { x: 1.0f32.to_bits(), y: 2.0f32.to_bits(), z: 3.0f32.to_bits() }
    );
    assert_eq!(v.color, Rgba8 { r: 10, g: 20, b: 30, a: 255 });
    assert_eq!(
        v.normal,
        Vec3Bits { x: 0.0f32.to_bits(), y: 1.0f32.to_bits(), z: 0.0f32.to_bits() }
    );
    assert_eq!(f32::from_bits(m.vertices[1].position.x), -1.5);
    assert_eq!(f32::from_bits(m.vertices[1].position.z), 4.25);
    assert_eq!(f32::from_bits(m.vertices[1].normal.z), 2.0);
    assert_eq!(m.vertices[2].color, Rgba8 { r: 255, g: 254, b: 253, a: 252 });

    let s0 = &m.sub_meshes[0];
    assert_eq!(s0.index_buffer_start, 0);
    assert_eq!(s0.index_buffer_length, 3);
    assert_eq!(s0.shader_id, StormworksShaderType::Lava);
    assert_eq!(s0.name_length_bytes, 9);
    assert_eq!(s0.name, "lava pool");
    let s1 = &m.sub_meshes[1];
    assert_eq!(s1.index_buffer_start, 3);
    assert_eq!(s1.index_buffer_length, 0);
    assert_eq!(s1.shader_id, StormworksShaderType::Transparent);
    assert_eq!(s1.name_length_bytes, 8);
    assert_eq!(s1.name, "glass ü");
}

#[test]
fn decoded_mesh_satisfies_its_invariants() {
    let m = build_stormworks_mesh(&triangle_file()).unwrap();
    assert_eq!(m.vertices.len() as u32, m.vertex_count);
    assert_eq!(m.indices.len() as u32, m.index_count);
    assert_eq!(m.sub_meshes.len() as u32, m.sub_mesh_count);
    assert!(m.indices.iter().all(|&i| i < m.vertex_count));
    for s in &m.sub_meshes {
        assert!(s.index_buffer_start <= m.index_count);
        assert!(s.index_buffer_start as u64 + s.index_buffer_length as u64 <= m.index_count as u64);
    }
}

#[test]
fn index_values_are_zero_extended_u16() {
    let mut b = header(u16::MAX);
    for _ in 0..u16::MAX {
        push_vertex(&mut b, [0.0; 3], [0; 4], [0.0; 3]);
    }
    push_indices(&mut b, &[u16::MAX - 1, 0x1234]);
    b.extend_from_slice(&0u16.to_le_bytes());
    let m = build_stormworks_mesh(&b).unwrap();
    assert_eq!(m.vertex_count, 65535);
    assert_eq!(m.indices, vec![65534, 0x1234]);
}
