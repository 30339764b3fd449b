use nebula_mdx::consts::{
    GEOS_TAG, KGRT_TAG, KGTR_TAG, KTAT_TAG, MODL_TAG, NRMS_TAG, VERS_TAG, VRTX_TAG,
};
use nebula_mdx::data_types::{Extent, Vec3, Vec4};
use nebula_mdx::error::FormatError;
use nebula_mdx::geoset_chunk::{Face, Geoset, GeosetChunk, TextureCoordinateSet, VertexPosition};
use nebula_mdx::global_sequence_chunk::{GlobalSequence, GlobalSequenceChunk};
use nebula_mdx::model_chunk::ModelChunk;
use nebula_mdx::node::Node;
use nebula_mdx::record::{BytesTotalSize, Chunk, Record};
use nebula_mdx::sequence_chunk::SequenceChunk;
use nebula_mdx::texture_animation_chunk::{TextureAnimation, TextureAnimationChunk};
use nebula_mdx::texture_chunk::{Texture, TextureChunk};
use nebula_mdx::tracks::{Track, Transform};
use nebula_mdx::version_chunk::VersionChunk;

fn put(b: &mut Vec<u8>, v: u32) {
    b.extend_from_slice(&v.to_le_bytes());
}

fn empty_geoset(inclusive_size: u32) -> Geoset {
    Geoset {
        inclusive_size,
        vertex_count: 0,
        vertex_positions: vec![],
        normal_count: 0,
        vertex_normals: vec![],
        face_type_groups_count: 0,
        face_type_groups: vec![],
        face_groups_count: 0,
        face_groups: vec![],
        faces_count: 0,
        faces: vec![],
        vertex_groups_count: 0,
        vertex_groups: vec![],
        matrix_groups_count: 0,
        matrix_groups: vec![],
        matrix_indexes_count: 0,
        matrix_indexes: vec![],
        material_id: 0,
        selection_group: 0,
        selection_type: 0,
        extent: zero_extent(),
        extents_count: 0,
        extent_sequences: vec![],
        texture_coordinate_sets_count: 0,
        texture_coordinate_sets: vec![],
    }
}

fn zero_extent() -> Extent {
    let z = Vec3 { x: 0, y: 0, z: 0 };
    Extent { bounds_radius: 0, minimum: z, maximum: z }
}

fn encode<T: Record>(v: &T) -> Vec<u8> {
    let mut out = Vec::new();
    v.encode(&mut out).unwrap();
    out
}

#[test]
fn version_chunk_version_chunk_read_test() {
    let mut buffer = Vec::new();
    put(&mut buffer, 1397900630);
    put(&mut buffer, 1235121351);
    put(&mut buffer, 800);
    assert_eq!(buffer.len(), 12);

    assert_eq!(u32::from_le_bytes([buffer[0], buffer[1], buffer[2], buffer[3]]), VERS_TAG);
    let (chunk, end) = VersionChunk::decode(&buffer, 4).unwrap();
    assert_eq!(chunk.chunk_size, 1235121351);
    assert_eq!(chunk.version, 800);
    assert_eq!(end, 12);
}

#[test]
fn tests_version_chunk_read_test() {
    let mut buffer = Vec::new();
    put(&mut buffer, 1397900630);
    put(&mut buffer, 1235121351);
    put(&mut buffer, 800);

    let (chunk, _) = VersionChunk::decode(&buffer, 4).unwrap();
    assert_eq!(chunk, VersionChunk { chunk_size: 1235121351, version: 800 });
}

#[test]
fn version_chunk_decodes_and_reencodes_identically() {
    let bytes = vec![0x56u8, 0x45, 0x52, 0x53, 0x04, 0x00, 0x00, 0x00, 0x20, 0x03, 0x00, 0x00];
    let (chunk, end) = VersionChunk::decode(&bytes, 4).unwrap();
    assert_eq!(chunk, VersionChunk { chunk_size: 4, version: 800 });
    assert_eq!(end, 12);
    let mut out = Vec::new();
    put(&mut out, VERS_TAG);
    chunk.encode(&mut out).unwrap();
    assert_eq!(out, bytes);
}

#[test]
fn version_chunk_other_version_value() {
    let bytes = vec![0x56u8, 0x45, 0x52, 0x53, 0x04, 0x00, 0x00, 0x00, 0x8E, 0x03, 0x00, 0x00];
    let (chunk, _) = VersionChunk::decode(&bytes, 4).unwrap();
    assert_eq!(chunk.version, 910);
}

#[test]
fn model_chunk_name_field_is_336_bytes() {
    let mut b = Vec::new();
    put(&mut b, MODL_TAG);
    put(&mut b, 372);
    let mut name = vec![0u8; 336];
    name[..3].copy_from_slice(b"Foo");
    b.extend_from_slice(&name);
    put(&mut b, 7);
    for v in 0..7u32 {
        put(&mut b, v + 100);
    }
    put(&mut b, 150);
    let (chunk, end) = ModelChunk::decode(&b, 4).unwrap();
    assert_eq!(chunk.name, "Foo");
    assert_eq!(chunk.unknown, 7);
    assert_eq!(chunk.extent.bounds_radius, 100);
    assert_eq!(chunk.extent.maximum, Vec3 { x: 104, y: 105, z: 106 });
    assert_eq!(chunk.blend_time, 150);
    assert_eq!(end, 4 + 4 + 336 + 4 + 28 + 4);
    assert_eq!(chunk.total_bytes_size(), 376);
    assert_eq!(encode(&chunk), b[4..].to_vec());
}

#[test]
fn model_chunk_truncated_is_out_of_bounds() {
    let mut b = Vec::new();
    put(&mut b, MODL_TAG);
    put(&mut b, 372);
    b.extend_from_slice(&[0u8; 100]);
    assert_eq!(ModelChunk::decode(&b, 4), Err(FormatError::OutOfBounds));
}

#[test]
fn global_sequences_truncate_remainder() {
    let mut b = Vec::new();
    put(&mut b, 10);
    put(&mut b, 1000);
    put(&mut b, 2000);
    b.extend_from_slice(&[0xAA, 0xBB]);
    let (mut chunk, end) = GlobalSequenceChunk::decode(&b, 0).unwrap();
    assert_eq!(chunk.data, vec![GlobalSequence { duration: 1000 }, GlobalSequence { duration: 2000 }]);
    assert_eq!(end, 14);
    chunk.calculate_chunk_size();
    assert_eq!(chunk.chunk_size, 8);
    let mut expected = Vec::new();
    put(&mut expected, 8);
    put(&mut expected, 1000);
    put(&mut expected, 2000);
    assert_eq!(encode(&chunk), expected);
}

#[test]
fn textures_are_268_bytes_each() {
    let t = Texture { replaceable_id: 1, file_name: String::from("Textures\\Druid.blp"), unknown: 0, flags: 3 };
    let bytes = encode(&t);
    assert_eq!(bytes.len(), 268);
    assert_eq!(t.total_bytes_size(), 268);
    let mut b = Vec::new();
    put(&mut b, 268 * 2 + 5);
    b.extend_from_slice(&bytes);
    b.extend_from_slice(&bytes);
    b.extend_from_slice(&[1, 2, 3, 4, 5]);
    let (mut chunk, end) = TextureChunk::decode(&b, 0).unwrap();
    assert_eq!(chunk.data.len(), 2);
    assert_eq!(chunk.data[1], t);
    assert_eq!(end, b.len());
    chunk.calculate_chunk_size();
    assert_eq!(chunk.chunk_size, 536);
}

#[test]
fn sequence_chunk_with_no_whole_record_is_empty() {
    let mut b = Vec::new();
    put(&mut b, 131);
    b.extend_from_slice(&[0u8; 131]);
    let (chunk, end) = SequenceChunk::decode(&b, 0).unwrap();
    assert!(chunk.data.is_empty());
    assert_eq!(end, 135);
}

#[test]
fn divided_chunk_remainder_must_be_present() {
    let mut b = Vec::new();
    put(&mut b, 6);
    put(&mut b, 1);
    assert_eq!(GlobalSequenceChunk::decode(&b, 0), Err(FormatError::OutOfBounds));
}

#[test]
fn empty_geoset_is_120_bytes() {
    let g = empty_geoset(120);
    assert_eq!(g.total_bytes_size(), 120);
    let bytes = encode(&g);
    assert_eq!(bytes.len(), 120);
    assert_eq!(u32::from_le_bytes([bytes[4], bytes[5], bytes[6], bytes[7]]), VRTX_TAG);
    let (back, end) = Geoset::decode(&bytes, 0).unwrap();
    assert_eq!(back, g);
    assert_eq!(end, 120);
}

#[test]
fn geoset_with_vertices_round_trips() {
    let mut g = empty_geoset(0);
    g.vertex_count = 2;
    g.vertex_positions = vec![
        VertexPosition { position: Vec3 { x: 1, y: 2, z: 3 } },
        VertexPosition { position: Vec3 { x: 4, y: 5, z: 6 } },
    ];
    g.faces_count = 1;
    g.faces = vec![Face { index1: 0, index2: 1, index3: 0 }];
    g.texture_coordinate_sets_count = 1;
    g.texture_coordinate_sets = vec![TextureCoordinateSet { count: 0, texture_coordinates: vec![] }];
    g.inclusive_size = g.total_bytes_size() as u32;
    assert_eq!(g.inclusive_size, 120 + 24 + 6 + 8);
    let bytes = encode(&g);
    let (back, _) = Geoset::decode(&bytes, 0).unwrap();
    assert_eq!(back, g);
}

#[test]
fn geoset_wrong_inclusive_size_is_refused() {
    let bytes = encode(&empty_geoset(119));
    assert_eq!(Geoset::decode(&bytes, 0), Err(FormatError::SizeMismatch));
}

#[test]
fn geoset_wrong_section_tag_is_refused() {
    let mut bytes = encode(&empty_geoset(120));
    bytes[12..16].copy_from_slice(&KGTR_TAG.to_le_bytes());
    assert_eq!(
        Geoset::decode(&bytes, 0),
        Err(FormatError::TagMismatch { expected: NRMS_TAG, found: KGTR_TAG })
    );
}

#[test]
fn geos_chunk_read_test() {
    let mut bytes = Vec::new();
    put(&mut bytes, 240);
    bytes.extend_from_slice(&encode(&empty_geoset(120)));
    bytes.extend_from_slice(&encode(&empty_geoset(120)));
    let (chunk, _) = GeosetChunk::decode(&bytes, 0).unwrap();
    assert_eq!(bytes.len(), chunk.total_bytes_size());
}

#[test]
fn geoset_chunk_reads_records_until_declared_sizes_reach_chunk_size() {
    let mut bytes = Vec::new();
    put(&mut bytes, 240);
    bytes.extend_from_slice(&encode(&empty_geoset(120)));
    bytes.extend_from_slice(&encode(&empty_geoset(120)));
    bytes.extend_from_slice(&[7u8; 16]);
    let (chunk, end) = GeosetChunk::decode(&bytes, 0).unwrap();
    assert_eq!(chunk.data.len(), 2);
    assert_eq!(end, 244);
}

#[test]
fn geoset_chunk_smaller_than_one_record_still_reads_it_whole() {
    let mut bytes = Vec::new();
    put(&mut bytes, 10);
    bytes.extend_from_slice(&encode(&empty_geoset(120)));
    bytes.extend_from_slice(&encode(&empty_geoset(120)));
    let (chunk, end) = GeosetChunk::decode(&bytes, 0).unwrap();
    assert_eq!(chunk.data.len(), 1);
    assert_eq!(end, 124);
}

fn translation() -> Transform<Vec3> {
    Transform {
        number_of_tracks: 2,
        interpolation_type: 1,
        global_sequence_id: 0xFFFF_FFFF,
        data: vec![
            Track { time: 0, value: Vec3 { x: 1, y: 2, z: 3 }, in_tan: None, out_tan: None },
            Track { time: 33, value: Vec3 { x: 4, y: 5, z: 6 }, in_tan: None, out_tan: None },
        ],
    }
}

#[test]
fn transform_without_tangents() {
    let t = translation();
    let mut out = Vec::new();
    t.encode(&mut out);
    assert_eq!(out.len(), 12 + 2 * 16);
    assert_eq!(t.total_bytes_size(), 44);
    let (back, end) = Transform::<Vec3>::decode(&out, 0).unwrap();
    assert_eq!(back, t);
    assert_eq!(end, 44);
}

#[test]
fn transform_with_tangents() {
    let q = Vec4 { x: 1, y: 2, z: 3, w: 4 };
    let t = Transform {
        number_of_tracks: 1,
        interpolation_type: 2,
        global_sequence_id: 0,
        data: vec![Track { time: 5, value: q, in_tan: Some(q), out_tan: Some(q) }],
    };
    let mut out = Vec::new();
    t.encode(&mut out);
    assert_eq!(out.len(), 12 + 4 + 3 * 16);
    let (back, _) = Transform::<Vec4>::decode(&out, 0).unwrap();
    assert_eq!(back, t);
}

#[test]
fn transform_count_beyond_buffer_is_out_of_bounds() {
    let mut b = Vec::new();
    put(&mut b, 1000);
    put(&mut b, 0);
    put(&mut b, 0);
    assert_eq!(Transform::<Vec3>::decode(&b, 0), Err(FormatError::OutOfBounds));
}

fn node(name: &str) -> Node {
    let mut n = Node {
        inclusive_size: 0,
        name: String::from(name),
        object_id: 3,
        parent_id: 0xFFFF_FFFF,
        flags: 256,
        translation: Some(translation()),
        rotation: None,
        scaling: None,
    };
    n.inclusive_size = n.total_bytes_size() as u32;
    n
}

#[test]
fn node_round_trip_with_sub_block() {
    let n = node("Bone_Root");
    assert_eq!(n.inclusive_size, 96 + 4 + 44);
    let bytes = encode(&n);
    let (back, end) = Node::decode(&bytes, 0).unwrap();
    assert_eq!(back, n);
    assert_eq!(end, bytes.len());
}

#[test]
fn node_sub_blocks_in_any_order() {
    let mut n = node("N");
    n.rotation = Some(Transform { number_of_tracks: 0, interpolation_type: 0, global_sequence_id: 0, data: vec![] });
    n.inclusive_size = n.total_bytes_size() as u32;
    let canonical = encode(&n);
    // Put the rotation block (last 16 bytes) before the translation block.
    let mut swapped = canonical[..96].to_vec();
    swapped.extend_from_slice(&canonical[canonical.len() - 16..]);
    swapped.extend_from_slice(&canonical[96..canonical.len() - 16]);
    assert_eq!(u32::from_le_bytes([swapped[96], swapped[97], swapped[98], swapped[99]]), KGRT_TAG);
    let (back, _) = Node::decode(&swapped, 0).unwrap();
    assert_eq!(back, n);
    assert_eq!(encode(&back), canonical);
}

#[test]
fn node_unknown_sub_tag_is_refused() {
    let mut n = node("N");
    n.translation = None;
    n.inclusive_size = 96 + 8;
    let mut bytes = encode(&n);
    put(&mut bytes, 0x5858_5858);
    put(&mut bytes, 0);
    assert_eq!(Node::decode(&bytes, 0), Err(FormatError::UnknownSubTag(0x5858_5858)));
}

#[test]
fn node_name_too_long_is_refused() {
    let n = node(&"n".repeat(81));
    let mut out = Vec::new();
    assert_eq!(n.encode(&mut out), Err(FormatError::StringTooLong));
}

#[test]
fn texture_animation_chunk_read_test() {
    let ta = {
        let mut ta = TextureAnimation { inclusive_size: 0, translation: Some(translation()), rotation: None, scaling: None };
        ta.inclusive_size = ta.total_bytes_size() as u32;
        ta
    };
    let mut bytes = Vec::new();
    put(&mut bytes, ta.inclusive_size);
    bytes.extend_from_slice(&encode(&ta));
    assert_eq!(u32::from_le_bytes([bytes[8], bytes[9], bytes[10], bytes[11]]), KTAT_TAG);
    let (chunk, _) = TextureAnimationChunk::decode(&bytes, 0).unwrap();
    assert_eq!(chunk.data, vec![ta]);
    assert_eq!(bytes.len(), chunk.total_bytes_size());
}

#[test]
fn geos_tag_value() {
    assert_eq!(&GEOS_TAG.to_le_bytes(), b"GEOS");
}

#[test]
fn texture_with_invalid_text_is_refused() {
    let mut b = Vec::new();
    put(&mut b, 268);
    put(&mut b, 0);
    let mut name = vec![0u8; 256];
    name[0] = 0xC3;
    name[1] = 0x28;
    b.extend_from_slice(&name);
    put(&mut b, 0);
    put(&mut b, 0);
    assert_eq!(TextureChunk::decode(&b, 0), Err(FormatError::InvalidText));
}
