use nebula_mdx::consts::{GLBS_TAG, MDLX_TAG, MODL_TAG, PREM_TAG, VERS_TAG};
use nebula_mdx::data_types::{Extent, Vec3};
use nebula_mdx::error::FormatError;
use nebula_mdx::global_sequence_chunk::{GlobalSequence, GlobalSequenceChunk};
use nebula_mdx::helper_chunk::{Helper, HelperChunk};
use nebula_mdx::mdlx::MDLXModel;
use nebula_mdx::model_chunk::ModelChunk;
use nebula_mdx::node::Node;
use nebula_mdx::raw_chunks::ParticleEmitterChunk;
use nebula_mdx::record::BytesTotalSize;
use nebula_mdx::tracks::{Track, Transform};
use nebula_mdx::version_chunk::VersionChunk;

fn put(b: &mut Vec<u8>, v: u32) {
    b.extend_from_slice(&v.to_le_bytes());
}

fn sample_file() -> Vec<u8> {
    let mut b = Vec::new();
    put(&mut b, MDLX_TAG);
    put(&mut b, VERS_TAG);
    put(&mut b, 4);
    put(&mut b, 800);
    put(&mut b, MODL_TAG);
    put(&mut b, 372);
    let mut name = vec![0u8; 336];
    name[..8].copy_from_slice(b"DruidCat");
    b.extend_from_slice(&name);
    for v in 0..9u32 {
        put(&mut b, v);
    }
    put(&mut b, GLBS_TAG);
    put(&mut b, 8);
    put(&mut b, 1000);
    put(&mut b, 2500);
    put(&mut b, PREM_TAG);
    put(&mut b, 3);
    b.extend_from_slice(&[1, 2, 3]);
    b
}

#[test]
fn read_write_round_trip() {
    let bytes = sample_file();
    let model = MDLXModel::read_mdx_file(bytes.clone()).unwrap();
    assert_eq!(model.version_chunk, Some(VersionChunk { chunk_size: 4, version: 800 }));
    assert_eq!(model.model_chunk.as_ref().unwrap().name, "DruidCat");
    assert_eq!(
        model.global_sequence_chunk,
        Some(GlobalSequenceChunk {
            chunk_size: 8,
            data: vec![GlobalSequence { duration: 1000 }, GlobalSequence { duration: 2500 }],
        })
    );
    assert_eq!(model.particle_emitter_chunk, Some(ParticleEmitterChunk { chunk_size: 3, data: vec![1, 2, 3] }));
    assert!(model.geoset_chunk.is_none());
    assert_eq!(model.model_total_size(), bytes.len());
    let out = MDLXModel::write_mdx_file(model).unwrap();
    assert_eq!(out, bytes);
}

#[test]
fn write_uses_canonical_order_and_recomputes_sizes() {
    let mut model = MDLXModel::default();
    model.global_sequence_chunk = Some(GlobalSequenceChunk { chunk_size: 999, data: vec![GlobalSequence { duration: 7 }] });
    model.version_chunk = Some(VersionChunk { chunk_size: 0, version: 800 });
    let out = MDLXModel::write_mdx_file(model).unwrap();
    let mut expected = Vec::new();
    put(&mut expected, MDLX_TAG);
    put(&mut expected, VERS_TAG);
    put(&mut expected, 4);
    put(&mut expected, 800);
    put(&mut expected, GLBS_TAG);
    put(&mut expected, 4);
    put(&mut expected, 7);
    assert_eq!(out, expected);
}

#[test]
fn empty_model_writes_only_the_magic() {
    let out = MDLXModel::write_mdx_file(MDLXModel::default()).unwrap();
    assert_eq!(out, MDLX_TAG.to_le_bytes().to_vec());
    let back = MDLXModel::read_mdx_file(out).unwrap();
    assert_eq!(back, MDLXModel::default());
}

#[test]
fn wrong_magic_is_refused() {
    let mut b = sample_file();
    b[0] = b'X';
    let found = u32::from_le_bytes([b[0], b[1], b[2], b[3]]);
    assert_eq!(MDLXModel::read_mdx_file(b), Err(FormatError::InvalidMagic(found)));
}

#[test]
fn short_file_is_out_of_bounds() {
    assert_eq!(MDLXModel::read_mdx_file(vec![0x4d, 0x44]), Err(FormatError::OutOfBounds));
}

#[test]
fn unknown_chunk_tag_is_refused() {
    let mut b = Vec::new();
    put(&mut b, MDLX_TAG);
    put(&mut b, 0x5A5A_5A5A);
    put(&mut b, 0);
    assert_eq!(MDLXModel::read_mdx_file(b), Err(FormatError::UnknownChunkTag(0x5A5A_5A5A)));
}

#[test]
fn trailing_partial_tag_is_refused() {
    let mut b = sample_file();
    b.extend_from_slice(&[0x56, 0x45]);
    assert_eq!(MDLXModel::read_mdx_file(b), Err(FormatError::OutOfBounds));
}

#[test]
fn truncated_chunk_is_refused() {
    let mut b = sample_file();
    b.truncate(30);
    assert_eq!(MDLXModel::read_mdx_file(b), Err(FormatError::OutOfBounds));
}

#[test]
fn later_chunk_of_same_kind_replaces_earlier() {
    let mut b = Vec::new();
    put(&mut b, MDLX_TAG);
    for v in [700u32, 800] {
        put(&mut b, VERS_TAG);
        put(&mut b, 4);
        put(&mut b, v);
    }
    let model = MDLXModel::read_mdx_file(b).unwrap();
    assert_eq!(model.version_chunk.unwrap().version, 800);
}

#[test]
fn write_refuses_a_name_that_does_not_fit() {
    let mut model = MDLXModel::default();
    let z = Vec3 { x: 0, y: 0, z: 0 };
    model.model_chunk = Some(ModelChunk {
        chunk_size: 0,
        name: "m".repeat(337),
        unknown: 0,
        extent: Extent { bounds_radius: 0, minimum: z, maximum: z },
        blend_time: 0,
    });
    assert_eq!(MDLXModel::write_mdx_file(model), Err(FormatError::StringTooLong));
}

#[test]
fn handle_tag_moves_offset_past_chunk() {
    let b = sample_file();
    let mut model = MDLXModel::default();
    let mut offset: usize = 8;
    model.handle_tag(VERS_TAG, &b, &mut offset).unwrap();
    assert_eq!(offset, 16);
    assert_eq!(model.version_chunk.unwrap().version, 800);
}

#[test]
fn write_recomputes_record_and_chunk_sizes() {
    let node = Node {
        inclusive_size: 1,
        name: String::from("Helper01"),
        object_id: 0,
        parent_id: 0xFFFF_FFFF,
        flags: 0,
        translation: Some(Transform {
            number_of_tracks: 1,
            interpolation_type: 0,
            global_sequence_id: 0xFFFF_FFFF,
            data: vec![Track { time: 0, value: Vec3 { x: 1, y: 2, z: 3 }, in_tan: None, out_tan: None }],
        }),
        rotation: None,
        scaling: None,
    };
    let mut model = MDLXModel::default();
    model.helper_chunk = Some(HelperChunk { chunk_size: 0, data: vec![Helper { node }] });
    let out = MDLXModel::write_mdx_file(model).unwrap();
    let back = MDLXModel::read_mdx_file(out.clone()).unwrap();
    let helpers = back.helper_chunk.as_ref().unwrap();
    let node_size = 96 + 4 + 12 + 16;
    assert_eq!(helpers.data[0].node.inclusive_size, node_size);
    assert_eq!(helpers.chunk_size, node_size);
    assert_eq!(out.len(), 4 + 4 + 4 + node_size as usize);
    assert_eq!(MDLXModel::write_mdx_file(back).unwrap(), out);
}

#[test]
fn decoded_records_declare_their_encoded_size() {
    let bytes = sample_file();
    let model = MDLXModel::read_mdx_file(bytes).unwrap();
    let mc = model.model_chunk.unwrap();
    assert_eq!(mc.chunk_size as usize + 4, mc.total_bytes_size());
}
