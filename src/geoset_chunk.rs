//! Geosets and their vertex data.

use crate::codec::{
    Element, add_sat, lemma_sat_add, lemma_split, lemma_sub, lemma_u16_bytes, lemma_u32_bytes,
    read_u16, read_u32, sat, u16_at, u16_bytes, u32_at, u32_bytes, write_u16, write_u32,
};
use crate::consts::{
    GNDX_TAG, MATS_TAG, MTGC_TAG, NRMS_TAG, PCNT_TAG, PTYP_TAG, PVTX_TAG, UVAS_TAG, UVBS_TAG,
    VRTX_TAG,
};
use crate::data_types::{Extent, Vec2, Vec3};
use crate::error::FormatError;
use crate::list::{
    elems_bytes, elems_size, lemma_elems_len, lemma_elems_round_trip,
    lemma_tagged_elems_round_trip, parse_elems, parse_tagged_elems, read_elems, read_tagged_elems,
    tagged_elems_bytes, tagged_elems_size, write_elems, write_tagged_elems,
};
use crate::record::{
    BytesTotalSize, Chunk, Inclusive, Record, lemma_inclusive_round_trip, lemma_records_round_trip,
    lemma_records_wf_encodable, lemma_resized_seq, parse_inclusive, parse_records, read_inclusive,
    read_records, records_bytes, records_encodable, records_size, records_wf, resize_records,
    resized_seq, views, write_records,
};
use vstd::prelude::*;

verus! {

broadcast use vstd::seq::group_seq_axioms;

#[derive(PartialEq, Eq, Structural, Debug, Clone, Copy)]
pub struct VertexPosition {
    pub position: Vec3,
}

impl Element for VertexPosition {
    open spec fn width() -> nat {
        12
    }

    open spec fn parse_at(b: Seq<u8>, pos: int) -> VertexPosition {
        VertexPosition { position: Vec3::parse_at(b, pos) }
    }

    open spec fn to_bytes(self) -> Seq<u8> {
        self.position.to_bytes()
    }

    fn byte_width() -> usize {
        12
    }

    fn read_at(src: &[u8], pos: usize) -> VertexPosition {
        VertexPosition { position: Vec3::read_at(src, pos) }
    }

    fn write_to(&self, out: &mut Vec<u8>) {
        self.position.write_to(out);
    }

    proof fn lemma_width() {
    }

    proof fn lemma_codec(self, b: Seq<u8>, pos: int) {
        self.position.lemma_codec(b, pos + 0);
        let w = self.to_bytes();
        if 0 <= pos && pos + 12 <= b.len() && b.subrange(pos, pos + 12) == w {
            lemma_sub(b, pos, w, 0, 12);
                assert(w.subrange(0, 12) =~= self.position.to_bytes());
        }
    }
}

#[derive(PartialEq, Eq, Structural, Debug, Clone, Copy)]
pub struct VertexNormal {
    pub normal: Vec3,
}

impl Element for VertexNormal {
    open spec fn width() -> nat {
        12
    }

    open spec fn parse_at(b: Seq<u8>, pos: int) -> VertexNormal {
        VertexNormal { normal: Vec3::parse_at(b, pos) }
    }

    open spec fn to_bytes(self) -> Seq<u8> {
        self.normal.to_bytes()
    }

    fn byte_width() -> usize {
        12
    }

    fn read_at(src: &[u8], pos: usize) -> VertexNormal {
        VertexNormal { normal: Vec3::read_at(src, pos) }
    }

    fn write_to(&self, out: &mut Vec<u8>) {
        self.normal.write_to(out);
    }

    proof fn lemma_width() {
    }

    proof fn lemma_codec(self, b: Seq<u8>, pos: int) {
        self.normal.lemma_codec(b, pos + 0);
        let w = self.to_bytes();
        if 0 <= pos && pos + 12 <= b.len() && b.subrange(pos, pos + 12) == w {
            lemma_sub(b, pos, w, 0, 12);
                assert(w.subrange(0, 12) =~= self.normal.to_bytes());
        }
    }
}

#[derive(PartialEq, Eq, Structural, Debug, Clone, Copy)]
pub struct FaceTypeGroup {
    pub face_type: u32,
}

impl Element for FaceTypeGroup {
    open spec fn width() -> nat {
        4
    }

    open spec fn parse_at(b: Seq<u8>, pos: int) -> FaceTypeGroup {
        FaceTypeGroup { face_type: u32_at(b, pos) }
    }

    open spec fn to_bytes(self) -> Seq<u8> {
        u32_bytes(self.face_type)
    }

    fn byte_width() -> usize {
        4
    }

    fn read_at(src: &[u8], pos: usize) -> FaceTypeGroup {
        FaceTypeGroup { face_type: read_u32(src, pos) }
    }

    fn write_to(&self, out: &mut Vec<u8>) {
        write_u32(out, self.face_type);
    }

    proof fn lemma_width() {
    }

    proof fn lemma_codec(self, b: Seq<u8>, pos: int) {
        lemma_u32_bytes(self.face_type);
        let w = self.to_bytes();
        if 0 <= pos && pos + 4 <= b.len() && b.subrange(pos, pos + 4) == w {
            lemma_sub(b, pos, w, 0, 4);
                assert(w.subrange(0, 4) =~= u32_bytes(self.face_type));
        }
    }
}

#[derive(PartialEq, Eq, Structural, Debug, Clone, Copy)]
pub struct FaceGroup {
    pub number_of_indexes: u32,
}

impl Element for FaceGroup {
    open spec fn width() -> nat {
        4
    }

    open spec fn parse_at(b: Seq<u8>, pos: int) -> FaceGroup {
        FaceGroup { number_of_indexes: u32_at(b, pos) }
    }

    open spec fn to_bytes(self) -> Seq<u8> {
        u32_bytes(self.number_of_indexes)
    }

    fn byte_width() -> usize {
        4
    }

    fn read_at(src: &[u8], pos: usize) -> FaceGroup {
        FaceGroup { number_of_indexes: read_u32(src, pos) }
    }

    fn write_to(&self, out: &mut Vec<u8>) {
        write_u32(out, self.number_of_indexes);
    }

    proof fn lemma_width() {
    }

    proof fn lemma_codec(self, b: Seq<u8>, pos: int) {
        lemma_u32_bytes(self.number_of_indexes);
        let w = self.to_bytes();
        if 0 <= pos && pos + 4 <= b.len() && b.subrange(pos, pos + 4) == w {
            lemma_sub(b, pos, w, 0, 4);
                assert(w.subrange(0, 4) =~= u32_bytes(self.number_of_indexes));
        }
    }
}

#[derive(PartialEq, Eq, Structural, Debug, Clone, Copy)]
pub struct Face {
    pub index1: u16,
    pub index2: u16,
    pub index3: u16,
}

impl Element for Face {
    open spec fn width() -> nat {
        6
    }

    open spec fn parse_at(b: Seq<u8>, pos: int) -> Face {
        Face { index1: u16_at(b, pos), index2: u16_at(b, pos + 2), index3: u16_at(b, pos + 4) }
    }

    open spec fn to_bytes(self) -> Seq<u8> {
        u16_bytes(self.index1) + u16_bytes(self.index2) + u16_bytes(self.index3)
    }

    fn byte_width() -> usize {
        6
    }

    fn read_at(src: &[u8], pos: usize) -> Face {
        Face {
            index1: read_u16(src, pos),
            index2: read_u16(src, pos + 2),
            index3: read_u16(src, pos + 4),
        }
    }

    fn write_to(&self, out: &mut Vec<u8>) {
        write_u16(out, self.index1);
        write_u16(out, self.index2);
        write_u16(out, self.index3);
    }

    proof fn lemma_width() {
    }

    proof fn lemma_codec(self, b: Seq<u8>, pos: int) {
        lemma_u16_bytes(self.index1);
        lemma_u16_bytes(self.index2);
        lemma_u16_bytes(self.index3);
        let w = self.to_bytes();
        if 0 <= pos && pos + 6 <= b.len() && b.subrange(pos, pos + 6) == w {
            lemma_sub(b, pos, w, 0, 2);
                assert(w.subrange(0, 2) =~= u16_bytes(self.index1));
            lemma_sub(b, pos, w, 2, 2);
                assert(w.subrange(2, 4) =~= u16_bytes(self.index2));
            lemma_sub(b, pos, w, 4, 2);
                assert(w.subrange(4, 6) =~= u16_bytes(self.index3));
        }
    }
}

#[derive(PartialEq, Eq, Structural, Debug, Clone, Copy)]
pub struct VertexGroup {
    pub matrix_group: u8,
}

impl Element for VertexGroup {
    open spec fn width() -> nat {
        1
    }

    open spec fn parse_at(b: Seq<u8>, pos: int) -> VertexGroup {
        VertexGroup { matrix_group: b[pos] }
    }

    open spec fn to_bytes(self) -> Seq<u8> {
        seq![self.matrix_group]
    }

    fn byte_width() -> usize {
        1
    }

    fn read_at(src: &[u8], pos: usize) -> VertexGroup {
        VertexGroup { matrix_group: src[pos] }
    }

    fn write_to(&self, out: &mut Vec<u8>) {
        out.push(self.matrix_group);
    }

    proof fn lemma_width() {
    }

    proof fn lemma_codec(self, b: Seq<u8>, pos: int) {

        let w = self.to_bytes();
        if 0 <= pos && pos + 1 <= b.len() && b.subrange(pos, pos + 1) == w {
            lemma_sub(b, pos, w, 0, 1);
                assert(w.subrange(0, 1) =~= seq![self.matrix_group]);
            assert(b.subrange(pos + 0, pos + 1)[0] == b[pos + 0]);
        }
    }
}

#[derive(PartialEq, Eq, Structural, Debug, Clone, Copy)]
pub struct MatrixGroup {
    pub matrix_group_size: u32,
}

impl Element for MatrixGroup {
    open spec fn width() -> nat {
        4
    }

    open spec fn parse_at(b: Seq<u8>, pos: int) -> MatrixGroup {
        MatrixGroup { matrix_group_size: u32_at(b, pos) }
    }

    open spec fn to_bytes(self) -> Seq<u8> {
        u32_bytes(self.matrix_group_size)
    }

    fn byte_width() -> usize {
        4
    }

    fn read_at(src: &[u8], pos: usize) -> MatrixGroup {
        MatrixGroup { matrix_group_size: read_u32(src, pos) }
    }

    fn write_to(&self, out: &mut Vec<u8>) {
        write_u32(out, self.matrix_group_size);
    }

    proof fn lemma_width() {
    }

    proof fn lemma_codec(self, b: Seq<u8>, pos: int) {
        lemma_u32_bytes(self.matrix_group_size);
        let w = self.to_bytes();
        if 0 <= pos && pos + 4 <= b.len() && b.subrange(pos, pos + 4) == w {
            lemma_sub(b, pos, w, 0, 4);
                assert(w.subrange(0, 4) =~= u32_bytes(self.matrix_group_size));
        }
    }
}

#[derive(PartialEq, Eq, Structural, Debug, Clone, Copy)]
pub struct MatrixIndex {
    pub matrix_index: u32,
}

impl Element for MatrixIndex {
    open spec fn width() -> nat {
        4
    }

    open spec fn parse_at(b: Seq<u8>, pos: int) -> MatrixIndex {
        MatrixIndex { matrix_index: u32_at(b, pos) }
    }

    open spec fn to_bytes(self) -> Seq<u8> {
        u32_bytes(self.matrix_index)
    }

    fn byte_width() -> usize {
        4
    }

    fn read_at(src: &[u8], pos: usize) -> MatrixIndex {
        MatrixIndex { matrix_index: read_u32(src, pos) }
    }

    fn write_to(&self, out: &mut Vec<u8>) {
        write_u32(out, self.matrix_index);
    }

    proof fn lemma_width() {
    }

    proof fn lemma_codec(self, b: Seq<u8>, pos: int) {
        lemma_u32_bytes(self.matrix_index);
        let w = self.to_bytes();
        if 0 <= pos && pos + 4 <= b.len() && b.subrange(pos, pos + 4) == w {
            lemma_sub(b, pos, w, 0, 4);
                assert(w.subrange(0, 4) =~= u32_bytes(self.matrix_index));
        }
    }
}

/// One set of texture coordinates, with the `UVBS` tag that precedes it.
#[derive(PartialEq, Debug)]
pub struct TextureCoordinateSet {
    pub count: u32,
    pub texture_coordinates: Vec<Vec2>,
}

/// The mathematical content of a `TextureCoordinateSet`.
pub struct TextureCoordinateSetModel {
    pub count: u32,
    pub texture_coordinates: Seq<Vec2>,
}

impl View for TextureCoordinateSet {
    type V = TextureCoordinateSetModel;

    open spec fn view(&self) -> TextureCoordinateSetModel {
        TextureCoordinateSetModel {
            count: self.count,
            texture_coordinates: self.texture_coordinates@,
        }
    }
}

/// The bytes that encoding a `TextureCoordinateSet` writes.
#[verifier::opaque]
pub open spec fn texture_coordinate_set_bytes(m: TextureCoordinateSetModel) -> Seq<u8> {
    u32_bytes(UVBS_TAG)
    + u32_bytes(m.count)
    + elems_bytes(m.texture_coordinates)
}

pub open spec fn texture_coordinate_set_encodable(m: TextureCoordinateSetModel) -> bool {
    true
}

/// A `TextureCoordinateSet` that decoding its encoding gives back.
pub open spec fn texture_coordinate_set_wf(m: TextureCoordinateSetModel) -> bool {
    &&& m.count == m.texture_coordinates.len()
}

/// Decoding a `TextureCoordinateSet` at `pos`: its model and the position after it.
#[verifier::opaque]
pub open spec fn parse_texture_coordinate_set(b: Seq<u8>, pos: int) -> Result<(TextureCoordinateSetModel, int), FormatError> {
    if pos + 4 > b.len() {
        Err(FormatError::OutOfBounds)
    } else {
        if u32_at(b, pos) != UVBS_TAG {
            Err(FormatError::TagMismatch { expected: UVBS_TAG, found: u32_at(b, pos) })
        } else {
            if pos + 4 + 4 > b.len() {
                Err(FormatError::OutOfBounds)
            } else {
                match parse_elems::<Vec2>(b, pos + 4 + 4, u32_at(b, pos + 4) as nat) {
                    Err(e) => Err(e),
                    Ok((texture_coordinates, p_texture_coordinates)) => {
                        let m = TextureCoordinateSetModel {
                            count: u32_at(b, pos + 4),
                            texture_coordinates: texture_coordinates,
                        };
                        Ok((m, p_texture_coordinates))
                    },
                }
            }
        }
    }
}

/// `m` with every declared size inside it recomputed from the content.
pub open spec fn texture_coordinate_set_resized(m: TextureCoordinateSetModel) -> TextureCoordinateSetModel {
    m
}

impl Record for TextureCoordinateSet {
    open spec fn parse(b: Seq<u8>, pos: int) -> Result<(TextureCoordinateSetModel, int), FormatError> {
        parse_texture_coordinate_set(b, pos)
    }

    open spec fn encodable(m: TextureCoordinateSetModel) -> bool {
        texture_coordinate_set_encodable(m)
    }

    open spec fn wf(m: TextureCoordinateSetModel) -> bool {
        texture_coordinate_set_wf(m)
    }

    open spec fn resized(m: TextureCoordinateSetModel) -> TextureCoordinateSetModel {
        texture_coordinate_set_resized(m)
    }

    fn calculate_sizes(&mut self) {
    }

    proof fn lemma_resized(m: TextureCoordinateSetModel) {
    }

    proof fn lemma_wf_encodable(m: TextureCoordinateSetModel) {
    }

    proof fn lemma_round_trip(m: TextureCoordinateSetModel, b: Seq<u8>, pos: int) {
        let e = texture_coordinate_set_bytes(m);
        let q1 = u32_bytes(UVBS_TAG);
        let q2 = q1 + u32_bytes(m.count);
        let q3 = q2 + elems_bytes(m.texture_coordinates);
        assert(q3 == e) by {
            reveal(texture_coordinate_set_bytes);
        }
        lemma_u32_bytes(UVBS_TAG);
        lemma_u32_bytes(m.count);
        lemma_elems_len(m.texture_coordinates);
        lemma_split(b, pos, q2, elems_bytes(m.texture_coordinates));
        lemma_split(b, pos, q1, u32_bytes(m.count));
        assert(b.subrange(pos, pos + 4) == u32_bytes(UVBS_TAG));
        assert(u32_at(b, pos) == UVBS_TAG);
        assert(b.subrange(pos + q1.len(), pos + q1.len() + 4) == u32_bytes(m.count));
        assert(u32_at(b, pos + q1.len()) == m.count);
        lemma_elems_round_trip(m.texture_coordinates, b, pos + q2.len());
        assert(parse_texture_coordinate_set(b, pos) == Ok::<(TextureCoordinateSetModel, int), FormatError>((m, pos + e.len()))) by {
            reveal(parse_texture_coordinate_set);
        }
    }

    fn decode(src: &[u8], pos: usize) -> (r: Result<(TextureCoordinateSet, usize), FormatError>) {
        proof {
            reveal(parse_texture_coordinate_set);
        }
        let mut p: usize = pos;
        if src.len() - p < 4 {
            return Err(FormatError::OutOfBounds);
        }
        let found = read_u32(src, p);
        if found != UVBS_TAG {
            return Err(FormatError::TagMismatch { expected: UVBS_TAG, found });
        }
        p = p + 4;
        if src.len() - p < 4 {
            return Err(FormatError::OutOfBounds);
        }
        let count = read_u32(src, p);
        let texture_coordinates = match read_elems::<Vec2>(src, p + 4, count as usize) {
            Ok((v, q)) => {
                p = q;
                v
            },
            Err(e) => {
                return Err(e);
            },
        };
        let v = TextureCoordinateSet { count, texture_coordinates };
        Ok((v, p))
    }

    fn encode(&self, out: &mut Vec<u8>) -> (r: Result<(), FormatError>) {
        proof {
            reveal(texture_coordinate_set_bytes);
        }
        let ghost start = out@;
        write_u32(out, UVBS_TAG);
        let ghost mut acc = u32_bytes(UVBS_TAG);
        assert(out@ =~= start + acc);
        write_u32(out, self.count);
        proof {
            acc = acc + u32_bytes(self@.count);
        }
        assert(out@ =~= start + acc);
        write_elems(out, &self.texture_coordinates);
        proof {
            acc = acc + elems_bytes(self@.texture_coordinates);
        }
        assert(out@ =~= start + acc);
        assert(acc == texture_coordinate_set_bytes(self@));
        Ok(())
    }

}

impl BytesTotalSize for TextureCoordinateSet {
    open spec fn model_bytes(m: TextureCoordinateSetModel) -> Seq<u8> {
        texture_coordinate_set_bytes(m)
    }

    fn total_bytes_size(&self) -> (r: usize) {
        proof {
            reveal(texture_coordinate_set_bytes);
        }
        let mut r: usize = 0;
        let ghost mut acc: Seq<u8> = Seq::empty();
        let k: usize = 4;
        proof {
            lemma_u32_bytes(UVBS_TAG);
            lemma_sat_add(acc.len() as int, (u32_bytes(UVBS_TAG)).len() as int);
            acc = acc + u32_bytes(UVBS_TAG);
        }
        r = add_sat(r, k);
        let k: usize = 4;
        proof {
            lemma_u32_bytes(self.count);
            lemma_sat_add(acc.len() as int, (u32_bytes(self@.count)).len() as int);
            acc = acc + u32_bytes(self@.count);
        }
        r = add_sat(r, k);
        let k: usize = elems_size(&self.texture_coordinates);
        proof {
            lemma_sat_add(acc.len() as int, (elems_bytes(self@.texture_coordinates)).len() as int);
            acc = acc + elems_bytes(self@.texture_coordinates);
        }
        r = add_sat(r, k);
        assert(acc =~= texture_coordinate_set_bytes(self@));
        r
    }
}

/// A piece of geometry: tagged, count-prefixed vertex, normal, face and matrix lists.
#[derive(PartialEq, Debug)]
pub struct Geoset {
    pub inclusive_size: u32,
    pub vertex_count: u32,
    pub vertex_positions: Vec<VertexPosition>,
    pub normal_count: u32,
    pub vertex_normals: Vec<VertexNormal>,
    pub face_type_groups_count: u32,
    pub face_type_groups: Vec<FaceTypeGroup>,
    pub face_groups_count: u32,
    pub face_groups: Vec<FaceGroup>,
    pub faces_count: u32,
    pub faces: Vec<Face>,
    pub vertex_groups_count: u32,
    pub vertex_groups: Vec<VertexGroup>,
    pub matrix_groups_count: u32,
    pub matrix_groups: Vec<MatrixGroup>,
    pub matrix_indexes_count: u32,
    pub matrix_indexes: Vec<MatrixIndex>,
    pub material_id: u32,
    pub selection_group: u32,
    pub selection_type: u32,
    pub extent: Extent,
    pub extents_count: u32,
    pub extent_sequences: Vec<Extent>,
    pub texture_coordinate_sets_count: u32,
    pub texture_coordinate_sets: Vec<TextureCoordinateSet>,
}

/// The mathematical content of a `Geoset`.
pub struct GeosetModel {
    pub inclusive_size: u32,
    pub vertex_count: u32,
    pub vertex_positions: Seq<VertexPosition>,
    pub normal_count: u32,
    pub vertex_normals: Seq<VertexNormal>,
    pub face_type_groups_count: u32,
    pub face_type_groups: Seq<FaceTypeGroup>,
    pub face_groups_count: u32,
    pub face_groups: Seq<FaceGroup>,
    pub faces_count: u32,
    pub faces: Seq<Face>,
    pub vertex_groups_count: u32,
    pub vertex_groups: Seq<VertexGroup>,
    pub matrix_groups_count: u32,
    pub matrix_groups: Seq<MatrixGroup>,
    pub matrix_indexes_count: u32,
    pub matrix_indexes: Seq<MatrixIndex>,
    pub material_id: u32,
    pub selection_group: u32,
    pub selection_type: u32,
    pub extent: Extent,
    pub extents_count: u32,
    pub extent_sequences: Seq<Extent>,
    pub texture_coordinate_sets_count: u32,
    pub texture_coordinate_sets: Seq<TextureCoordinateSetModel>,
}

impl View for Geoset {
    type V = GeosetModel;

    open spec fn view(&self) -> GeosetModel {
        GeosetModel {
            inclusive_size: self.inclusive_size,
            vertex_count: self.vertex_count,
            vertex_positions: self.vertex_positions@,
            normal_count: self.normal_count,
            vertex_normals: self.vertex_normals@,
            face_type_groups_count: self.face_type_groups_count,
            face_type_groups: self.face_type_groups@,
            face_groups_count: self.face_groups_count,
            face_groups: self.face_groups@,
            faces_count: self.faces_count,
            faces: self.faces@,
            vertex_groups_count: self.vertex_groups_count,
            vertex_groups: self.vertex_groups@,
            matrix_groups_count: self.matrix_groups_count,
            matrix_groups: self.matrix_groups@,
            matrix_indexes_count: self.matrix_indexes_count,
            matrix_indexes: self.matrix_indexes@,
            material_id: self.material_id,
            selection_group: self.selection_group,
            selection_type: self.selection_type,
            extent: self.extent,
            extents_count: self.extents_count,
            extent_sequences: self.extent_sequences@,
            texture_coordinate_sets_count: self.texture_coordinate_sets_count,
            texture_coordinate_sets: views(self.texture_coordinate_sets@),
        }
    }
}

/// The bytes that encoding a `Geoset` writes.
#[verifier::opaque]
pub open spec fn geoset_bytes(m: GeosetModel) -> Seq<u8> {
    u32_bytes(m.inclusive_size)
    + tagged_elems_bytes(VRTX_TAG, m.vertex_count, m.vertex_positions)
    + tagged_elems_bytes(NRMS_TAG, m.normal_count, m.vertex_normals)
    + tagged_elems_bytes(PTYP_TAG, m.face_type_groups_count, m.face_type_groups)
    + tagged_elems_bytes(PCNT_TAG, m.face_groups_count, m.face_groups)
    + tagged_elems_bytes(PVTX_TAG, m.faces_count, m.faces)
    + tagged_elems_bytes(GNDX_TAG, m.vertex_groups_count, m.vertex_groups)
    + tagged_elems_bytes(MTGC_TAG, m.matrix_groups_count, m.matrix_groups)
    + tagged_elems_bytes(MATS_TAG, m.matrix_indexes_count, m.matrix_indexes)
    + u32_bytes(m.material_id)
    + u32_bytes(m.selection_group)
    + u32_bytes(m.selection_type)
    + m.extent.to_bytes()
    + u32_bytes(m.extents_count)
    + elems_bytes(m.extent_sequences)
    + u32_bytes(UVAS_TAG)
    + u32_bytes(m.texture_coordinate_sets_count)
    + records_bytes::<TextureCoordinateSet>(m.texture_coordinate_sets)
}

pub open spec fn geoset_encodable(m: GeosetModel) -> bool {
    records_encodable::<TextureCoordinateSet>(m.texture_coordinate_sets)
}

/// A `Geoset` that decoding its encoding gives back.
pub open spec fn geoset_wf(m: GeosetModel) -> bool {
    &&& m.vertex_count == m.vertex_positions.len()
    &&& m.normal_count == m.vertex_normals.len()
    &&& m.face_type_groups_count == m.face_type_groups.len()
    &&& m.face_groups_count == m.face_groups.len()
    &&& m.faces_count == m.faces.len()
    &&& m.vertex_groups_count == m.vertex_groups.len()
    &&& m.matrix_groups_count == m.matrix_groups.len()
    &&& m.matrix_indexes_count == m.matrix_indexes.len()
    &&& m.extents_count == m.extent_sequences.len()
    &&& m.texture_coordinate_sets_count == m.texture_coordinate_sets.len()
    &&& records_wf::<TextureCoordinateSet>(m.texture_coordinate_sets)
    &&& m.inclusive_size == geoset_bytes(m).len()
}

/// Decoding a `Geoset` at `pos`: its model and the position after it.
#[verifier::opaque]
pub open spec fn parse_geoset(b: Seq<u8>, pos: int) -> Result<(GeosetModel, int), FormatError> {
    if pos + 4 > b.len() {
        Err(FormatError::OutOfBounds)
    } else {
        match parse_tagged_elems::<VertexPosition>(b, pos + 4, VRTX_TAG) {
            Err(e) => Err(e),
            Ok((c_vertex_positions, vertex_positions, p_vertex_positions)) => {
                match parse_tagged_elems::<VertexNormal>(b, p_vertex_positions, NRMS_TAG) {
                    Err(e) => Err(e),
                    Ok((c_vertex_normals, vertex_normals, p_vertex_normals)) => {
                        match parse_tagged_elems::<FaceTypeGroup>(b, p_vertex_normals, PTYP_TAG) {
                            Err(e) => Err(e),
                            Ok((c_face_type_groups, face_type_groups, p_face_type_groups)) => {
                                match parse_tagged_elems::<FaceGroup>(b, p_face_type_groups, PCNT_TAG) {
                                    Err(e) => Err(e),
                                    Ok((c_face_groups, face_groups, p_face_groups)) => {
                                        match parse_tagged_elems::<Face>(b, p_face_groups, PVTX_TAG) {
                                            Err(e) => Err(e),
                                            Ok((c_faces, faces, p_faces)) => {
                                                match parse_tagged_elems::<VertexGroup>(b, p_faces, GNDX_TAG) {
                                                    Err(e) => Err(e),
                                                    Ok((c_vertex_groups, vertex_groups, p_vertex_groups)) => {
                                                        match parse_tagged_elems::<MatrixGroup>(b, p_vertex_groups, MTGC_TAG) {
                                                            Err(e) => Err(e),
                                                            Ok((c_matrix_groups, matrix_groups, p_matrix_groups)) => {
                                                                match parse_tagged_elems::<MatrixIndex>(b, p_matrix_groups, MATS_TAG) {
                                                                    Err(e) => Err(e),
                                                                    Ok((c_matrix_indexes, matrix_indexes, p_matrix_indexes)) => {
                                                                        if p_matrix_indexes + 40 > b.len() {
                                                                            Err(FormatError::OutOfBounds)
                                                                        } else {
                                                                            if p_matrix_indexes + 40 + 4 > b.len() {
                                                                                Err(FormatError::OutOfBounds)
                                                                            } else {
                                                                                match parse_elems::<Extent>(b, p_matrix_indexes + 40 + 4, u32_at(b, p_matrix_indexes + 40) as nat) {
                                                                                    Err(e) => Err(e),
                                                                                    Ok((extent_sequences, p_extent_sequences)) => {
                                                                                        if p_extent_sequences + 4 > b.len() {
                                                                                            Err(FormatError::OutOfBounds)
                                                                                        } else {
                                                                                            if u32_at(b, p_extent_sequences) != UVAS_TAG {
                                                                                                Err(FormatError::TagMismatch {
                                                                                                    expected: UVAS_TAG,
                                                                                                    found: u32_at(b, p_extent_sequences),
                                                                                                })
                                                                                            } else {
                                                                                                if p_extent_sequences + 4 + 4 > b.len() {
                                                                                                    Err(FormatError::OutOfBounds)
                                                                                                } else {
                                                                                                    match parse_records::<TextureCoordinateSet>(b, p_extent_sequences + 4 + 4, u32_at(b, p_extent_sequences + 4) as nat) {
                                                                                                        Err(e) => Err(e),
                                                                                                        Ok((texture_coordinate_sets, p_texture_coordinate_sets)) => {
                                                                                                            let m = GeosetModel {
                                                                                                                inclusive_size: u32_at(b, pos),
                                                                                                                vertex_count: c_vertex_positions,
                                                                                                                vertex_positions: vertex_positions,
                                                                                                                normal_count: c_vertex_normals,
                                                                                                                vertex_normals: vertex_normals,
                                                                                                                face_type_groups_count: c_face_type_groups,
                                                                                                                face_type_groups: face_type_groups,
                                                                                                                face_groups_count: c_face_groups,
                                                                                                                face_groups: face_groups,
                                                                                                                faces_count: c_faces,
                                                                                                                faces: faces,
                                                                                                                vertex_groups_count: c_vertex_groups,
                                                                                                                vertex_groups: vertex_groups,
                                                                                                                matrix_groups_count: c_matrix_groups,
                                                                                                                matrix_groups: matrix_groups,
                                                                                                                matrix_indexes_count: c_matrix_indexes,
                                                                                                                matrix_indexes: matrix_indexes,
                                                                                                                material_id: u32_at(b, p_matrix_indexes),
                                                                                                                selection_group: u32_at(b, p_matrix_indexes + 4),
                                                                                                                selection_type: u32_at(b, p_matrix_indexes + 8),
                                                                                                                extent: Extent::parse_at(b, p_matrix_indexes + 12),
                                                                                                                extents_count: u32_at(b, p_matrix_indexes + 40),
                                                                                                                extent_sequences: extent_sequences,
                                                                                                                texture_coordinate_sets_count: u32_at(b, p_extent_sequences + 4),
                                                                                                                texture_coordinate_sets: texture_coordinate_sets,
                                                                                                            };
                                                                                                            if sat(geoset_bytes(m).len() as int) != m.inclusive_size as usize {
                                                                                                                Err(FormatError::SizeMismatch)
                                                                                                            } else {
                                                                                                                Ok((m, p_texture_coordinate_sets))
                                                                                                            }
                                                                                                        },
                                                                                                    }
                                                                                                }
                                                                                            }
                                                                                        }
                                                                                    },
                                                                                }
                                                                            }
                                                                        }
                                                                    },
                                                                }
                                                            },
                                                        }
                                                    },
                                                }
                                            },
                                        }
                                    },
                                }
                            },
                        }
                    },
                }
            },
        }
    }
}

/// A decoded `Geoset` declares exactly the length that `total_bytes_size` reports.
pub proof fn lemma_geoset_size_checked(b: Seq<u8>, pos: int)
    ensures
        parse_geoset(b, pos) matches Ok((m, _)) ==> sat(geoset_bytes(m).len() as int)
            == m.inclusive_size as usize,
{
    reveal(parse_geoset);
}

/// `m` with every declared size inside it recomputed from the content.
pub open spec fn geoset_resized(m: GeosetModel) -> GeosetModel {
    let n = GeosetModel {
        texture_coordinate_sets: resized_seq::<TextureCoordinateSet>(m.texture_coordinate_sets),
        ..m
    };
    GeosetModel { inclusive_size: geoset_bytes(n).len() as u32, ..n }
}

/// After its sizes are recomputed, a `Geoset` declares exactly its encoded length.
pub proof fn lemma_geoset_resized_consistent(m: GeosetModel)
    requires
        geoset_bytes(m).len() <= u32::MAX,
    ensures
        geoset_resized(m).inclusive_size == geoset_bytes(geoset_resized(m)).len(),
{
    reveal(geoset_bytes);
    lemma_resized_seq::<TextureCoordinateSet>(m.texture_coordinate_sets);
    lemma_u32_bytes(m.inclusive_size);
    lemma_u32_bytes(geoset_resized(m).inclusive_size);
    Geoset::lemma_resized(m);
}

/// Where each part of a well-formed `Geoset` sits in its encoding, and what
/// decoding that part gives.
#[verifier::spinoff_prover]
#[verifier::rlimit(100)]
proof fn lemma_geoset_parts(m: GeosetModel, b: Seq<u8>, pos: int)
    requires
        geoset_wf(m),
        0 <= pos,
        pos + geoset_bytes(m).len() <= b.len(),
        b.subrange(pos, pos + geoset_bytes(m).len()) == geoset_bytes(m),
    ensures
        (u32_bytes(m.inclusive_size)).len() == 4,
        u32_at(b, pos) == m.inclusive_size,
        parse_tagged_elems::<VertexPosition>(b, pos + (u32_bytes(m.inclusive_size)).len(), VRTX_TAG)
            == Ok::<(u32, Seq<VertexPosition>, int), FormatError>((m.vertex_count, m.vertex_positions, pos + (u32_bytes(m.inclusive_size)).len() + (tagged_elems_bytes(VRTX_TAG, m.vertex_count, m.vertex_positions)).len())),
        parse_tagged_elems::<VertexNormal>(b, pos + (u32_bytes(m.inclusive_size)).len() + (tagged_elems_bytes(VRTX_TAG, m.vertex_count, m.vertex_positions)).len(), NRMS_TAG)
            == Ok::<(u32, Seq<VertexNormal>, int), FormatError>((m.normal_count, m.vertex_normals, pos + (u32_bytes(m.inclusive_size)).len() + (tagged_elems_bytes(VRTX_TAG, m.vertex_count, m.vertex_positions)).len() + (tagged_elems_bytes(NRMS_TAG, m.normal_count, m.vertex_normals)).len())),
        parse_tagged_elems::<FaceTypeGroup>(b, pos + (u32_bytes(m.inclusive_size)).len() + (tagged_elems_bytes(VRTX_TAG, m.vertex_count, m.vertex_positions)).len() + (tagged_elems_bytes(NRMS_TAG, m.normal_count, m.vertex_normals)).len(), PTYP_TAG)
            == Ok::<(u32, Seq<FaceTypeGroup>, int), FormatError>((m.face_type_groups_count, m.face_type_groups, pos + (u32_bytes(m.inclusive_size)).len() + (tagged_elems_bytes(VRTX_TAG, m.vertex_count, m.vertex_positions)).len() + (tagged_elems_bytes(NRMS_TAG, m.normal_count, m.vertex_normals)).len() + (tagged_elems_bytes(PTYP_TAG, m.face_type_groups_count, m.face_type_groups)).len())),
        parse_tagged_elems::<FaceGroup>(b, pos + (u32_bytes(m.inclusive_size)).len() + (tagged_elems_bytes(VRTX_TAG, m.vertex_count, m.vertex_positions)).len() + (tagged_elems_bytes(NRMS_TAG, m.normal_count, m.vertex_normals)).len() + (tagged_elems_bytes(PTYP_TAG, m.face_type_groups_count, m.face_type_groups)).len(), PCNT_TAG)
            == Ok::<(u32, Seq<FaceGroup>, int), FormatError>((m.face_groups_count, m.face_groups, pos + (u32_bytes(m.inclusive_size)).len() + (tagged_elems_bytes(VRTX_TAG, m.vertex_count, m.vertex_positions)).len() + (tagged_elems_bytes(NRMS_TAG, m.normal_count, m.vertex_normals)).len() + (tagged_elems_bytes(PTYP_TAG, m.face_type_groups_count, m.face_type_groups)).len() + (tagged_elems_bytes(PCNT_TAG, m.face_groups_count, m.face_groups)).len())),
        parse_tagged_elems::<Face>(b, pos + (u32_bytes(m.inclusive_size)).len() + (tagged_elems_bytes(VRTX_TAG, m.vertex_count, m.vertex_positions)).len() + (tagged_elems_bytes(NRMS_TAG, m.normal_count, m.vertex_normals)).len() + (tagged_elems_bytes(PTYP_TAG, m.face_type_groups_count, m.face_type_groups)).len() + (tagged_elems_bytes(PCNT_TAG, m.face_groups_count, m.face_groups)).len(), PVTX_TAG)
            == Ok::<(u32, Seq<Face>, int), FormatError>((m.faces_count, m.faces, pos + (u32_bytes(m.inclusive_size)).len() + (tagged_elems_bytes(VRTX_TAG, m.vertex_count, m.vertex_positions)).len() + (tagged_elems_bytes(NRMS_TAG, m.normal_count, m.vertex_normals)).len() + (tagged_elems_bytes(PTYP_TAG, m.face_type_groups_count, m.face_type_groups)).len() + (tagged_elems_bytes(PCNT_TAG, m.face_groups_count, m.face_groups)).len() + (tagged_elems_bytes(PVTX_TAG, m.faces_count, m.faces)).len())),
        parse_tagged_elems::<VertexGroup>(b, pos + (u32_bytes(m.inclusive_size)).len() + (tagged_elems_bytes(VRTX_TAG, m.vertex_count, m.vertex_positions)).len() + (tagged_elems_bytes(NRMS_TAG, m.normal_count, m.vertex_normals)).len() + (tagged_elems_bytes(PTYP_TAG, m.face_type_groups_count, m.face_type_groups)).len() + (tagged_elems_bytes(PCNT_TAG, m.face_groups_count, m.face_groups)).len() + (tagged_elems_bytes(PVTX_TAG, m.faces_count, m.faces)).len(), GNDX_TAG)
            == Ok::<(u32, Seq<VertexGroup>, int), FormatError>((m.vertex_groups_count, m.vertex_groups, pos + (u32_bytes(m.inclusive_size)).len() + (tagged_elems_bytes(VRTX_TAG, m.vertex_count, m.vertex_positions)).len() + (tagged_elems_bytes(NRMS_TAG, m.normal_count, m.vertex_normals)).len() + (tagged_elems_bytes(PTYP_TAG, m.face_type_groups_count, m.face_type_groups)).len() + (tagged_elems_bytes(PCNT_TAG, m.face_groups_count, m.face_groups)).len() + (tagged_elems_bytes(PVTX_TAG, m.faces_count, m.faces)).len() + (tagged_elems_bytes(GNDX_TAG, m.vertex_groups_count, m.vertex_groups)).len())),
        parse_tagged_elems::<MatrixGroup>(b, pos + (u32_bytes(m.inclusive_size)).len() + (tagged_elems_bytes(VRTX_TAG, m.vertex_count, m.vertex_positions)).len() + (tagged_elems_bytes(NRMS_TAG, m.normal_count, m.vertex_normals)).len() + (tagged_elems_bytes(PTYP_TAG, m.face_type_groups_count, m.face_type_groups)).len() + (tagged_elems_bytes(PCNT_TAG, m.face_groups_count, m.face_groups)).len() + (tagged_elems_bytes(PVTX_TAG, m.faces_count, m.faces)).len() + (tagged_elems_bytes(GNDX_TAG, m.vertex_groups_count, m.vertex_groups)).len(), MTGC_TAG)
            == Ok::<(u32, Seq<MatrixGroup>, int), FormatError>((m.matrix_groups_count, m.matrix_groups, pos + (u32_bytes(m.inclusive_size)).len() + (tagged_elems_bytes(VRTX_TAG, m.vertex_count, m.vertex_positions)).len() + (tagged_elems_bytes(NRMS_TAG, m.normal_count, m.vertex_normals)).len() + (tagged_elems_bytes(PTYP_TAG, m.face_type_groups_count, m.face_type_groups)).len() + (tagged_elems_bytes(PCNT_TAG, m.face_groups_count, m.face_groups)).len() + (tagged_elems_bytes(PVTX_TAG, m.faces_count, m.faces)).len() + (tagged_elems_bytes(GNDX_TAG, m.vertex_groups_count, m.vertex_groups)).len() + (tagged_elems_bytes(MTGC_TAG, m.matrix_groups_count, m.matrix_groups)).len())),
        parse_tagged_elems::<MatrixIndex>(b, pos + (u32_bytes(m.inclusive_size)).len() + (tagged_elems_bytes(VRTX_TAG, m.vertex_count, m.vertex_positions)).len() + (tagged_elems_bytes(NRMS_TAG, m.normal_count, m.vertex_normals)).len() + (tagged_elems_bytes(PTYP_TAG, m.face_type_groups_count, m.face_type_groups)).len() + (tagged_elems_bytes(PCNT_TAG, m.face_groups_count, m.face_groups)).len() + (tagged_elems_bytes(PVTX_TAG, m.faces_count, m.faces)).len() + (tagged_elems_bytes(GNDX_TAG, m.vertex_groups_count, m.vertex_groups)).len() + (tagged_elems_bytes(MTGC_TAG, m.matrix_groups_count, m.matrix_groups)).len(), MATS_TAG)
            == Ok::<(u32, Seq<MatrixIndex>, int), FormatError>((m.matrix_indexes_count, m.matrix_indexes, pos + (u32_bytes(m.inclusive_size)).len() + (tagged_elems_bytes(VRTX_TAG, m.vertex_count, m.vertex_positions)).len() + (tagged_elems_bytes(NRMS_TAG, m.normal_count, m.vertex_normals)).len() + (tagged_elems_bytes(PTYP_TAG, m.face_type_groups_count, m.face_type_groups)).len() + (tagged_elems_bytes(PCNT_TAG, m.face_groups_count, m.face_groups)).len() + (tagged_elems_bytes(PVTX_TAG, m.faces_count, m.faces)).len() + (tagged_elems_bytes(GNDX_TAG, m.vertex_groups_count, m.vertex_groups)).len() + (tagged_elems_bytes(MTGC_TAG, m.matrix_groups_count, m.matrix_groups)).len() + (tagged_elems_bytes(MATS_TAG, m.matrix_indexes_count, m.matrix_indexes)).len())),
        (u32_bytes(m.material_id)).len() == 4,
        u32_at(b, pos + (u32_bytes(m.inclusive_size)).len() + (tagged_elems_bytes(VRTX_TAG, m.vertex_count, m.vertex_positions)).len() + (tagged_elems_bytes(NRMS_TAG, m.normal_count, m.vertex_normals)).len() + (tagged_elems_bytes(PTYP_TAG, m.face_type_groups_count, m.face_type_groups)).len() + (tagged_elems_bytes(PCNT_TAG, m.face_groups_count, m.face_groups)).len() + (tagged_elems_bytes(PVTX_TAG, m.faces_count, m.faces)).len() + (tagged_elems_bytes(GNDX_TAG, m.vertex_groups_count, m.vertex_groups)).len() + (tagged_elems_bytes(MTGC_TAG, m.matrix_groups_count, m.matrix_groups)).len() + (tagged_elems_bytes(MATS_TAG, m.matrix_indexes_count, m.matrix_indexes)).len())
            == m.material_id,
        (u32_bytes(m.selection_group)).len() == 4,
        u32_at(b, pos + (u32_bytes(m.inclusive_size)).len() + (tagged_elems_bytes(VRTX_TAG, m.vertex_count, m.vertex_positions)).len() + (tagged_elems_bytes(NRMS_TAG, m.normal_count, m.vertex_normals)).len() + (tagged_elems_bytes(PTYP_TAG, m.face_type_groups_count, m.face_type_groups)).len() + (tagged_elems_bytes(PCNT_TAG, m.face_groups_count, m.face_groups)).len() + (tagged_elems_bytes(PVTX_TAG, m.faces_count, m.faces)).len() + (tagged_elems_bytes(GNDX_TAG, m.vertex_groups_count, m.vertex_groups)).len() + (tagged_elems_bytes(MTGC_TAG, m.matrix_groups_count, m.matrix_groups)).len() + (tagged_elems_bytes(MATS_TAG, m.matrix_indexes_count, m.matrix_indexes)).len() + (u32_bytes(m.material_id)).len())
            == m.selection_group,
        (u32_bytes(m.selection_type)).len() == 4,
        u32_at(b, pos + (u32_bytes(m.inclusive_size)).len() + (tagged_elems_bytes(VRTX_TAG, m.vertex_count, m.vertex_positions)).len() + (tagged_elems_bytes(NRMS_TAG, m.normal_count, m.vertex_normals)).len() + (tagged_elems_bytes(PTYP_TAG, m.face_type_groups_count, m.face_type_groups)).len() + (tagged_elems_bytes(PCNT_TAG, m.face_groups_count, m.face_groups)).len() + (tagged_elems_bytes(PVTX_TAG, m.faces_count, m.faces)).len() + (tagged_elems_bytes(GNDX_TAG, m.vertex_groups_count, m.vertex_groups)).len() + (tagged_elems_bytes(MTGC_TAG, m.matrix_groups_count, m.matrix_groups)).len() + (tagged_elems_bytes(MATS_TAG, m.matrix_indexes_count, m.matrix_indexes)).len() + (u32_bytes(m.material_id)).len() + (u32_bytes(m.selection_group)).len())
            == m.selection_type,
        (m.extent.to_bytes()).len() == 28,
        Extent::parse_at(b, pos + (u32_bytes(m.inclusive_size)).len() + (tagged_elems_bytes(VRTX_TAG, m.vertex_count, m.vertex_positions)).len() + (tagged_elems_bytes(NRMS_TAG, m.normal_count, m.vertex_normals)).len() + (tagged_elems_bytes(PTYP_TAG, m.face_type_groups_count, m.face_type_groups)).len() + (tagged_elems_bytes(PCNT_TAG, m.face_groups_count, m.face_groups)).len() + (tagged_elems_bytes(PVTX_TAG, m.faces_count, m.faces)).len() + (tagged_elems_bytes(GNDX_TAG, m.vertex_groups_count, m.vertex_groups)).len() + (tagged_elems_bytes(MTGC_TAG, m.matrix_groups_count, m.matrix_groups)).len() + (tagged_elems_bytes(MATS_TAG, m.matrix_indexes_count, m.matrix_indexes)).len() + (u32_bytes(m.material_id)).len() + (u32_bytes(m.selection_group)).len() + (u32_bytes(m.selection_type)).len())
            == m.extent,
        (u32_bytes(m.extents_count)).len() == 4,
        u32_at(b, pos + (u32_bytes(m.inclusive_size)).len() + (tagged_elems_bytes(VRTX_TAG, m.vertex_count, m.vertex_positions)).len() + (tagged_elems_bytes(NRMS_TAG, m.normal_count, m.vertex_normals)).len() + (tagged_elems_bytes(PTYP_TAG, m.face_type_groups_count, m.face_type_groups)).len() + (tagged_elems_bytes(PCNT_TAG, m.face_groups_count, m.face_groups)).len() + (tagged_elems_bytes(PVTX_TAG, m.faces_count, m.faces)).len() + (tagged_elems_bytes(GNDX_TAG, m.vertex_groups_count, m.vertex_groups)).len() + (tagged_elems_bytes(MTGC_TAG, m.matrix_groups_count, m.matrix_groups)).len() + (tagged_elems_bytes(MATS_TAG, m.matrix_indexes_count, m.matrix_indexes)).len() + (u32_bytes(m.material_id)).len() + (u32_bytes(m.selection_group)).len() + (u32_bytes(m.selection_type)).len() + (m.extent.to_bytes()).len())
            == m.extents_count,
        parse_elems::<Extent>(b, pos + (u32_bytes(m.inclusive_size)).len() + (tagged_elems_bytes(VRTX_TAG, m.vertex_count, m.vertex_positions)).len() + (tagged_elems_bytes(NRMS_TAG, m.normal_count, m.vertex_normals)).len() + (tagged_elems_bytes(PTYP_TAG, m.face_type_groups_count, m.face_type_groups)).len() + (tagged_elems_bytes(PCNT_TAG, m.face_groups_count, m.face_groups)).len() + (tagged_elems_bytes(PVTX_TAG, m.faces_count, m.faces)).len() + (tagged_elems_bytes(GNDX_TAG, m.vertex_groups_count, m.vertex_groups)).len() + (tagged_elems_bytes(MTGC_TAG, m.matrix_groups_count, m.matrix_groups)).len() + (tagged_elems_bytes(MATS_TAG, m.matrix_indexes_count, m.matrix_indexes)).len() + (u32_bytes(m.material_id)).len() + (u32_bytes(m.selection_group)).len() + (u32_bytes(m.selection_type)).len() + (m.extent.to_bytes()).len() + (u32_bytes(m.extents_count)).len(), m.extent_sequences.len())
            == Ok::<(Seq<Extent>, int), FormatError>((m.extent_sequences, pos + (u32_bytes(m.inclusive_size)).len() + (tagged_elems_bytes(VRTX_TAG, m.vertex_count, m.vertex_positions)).len() + (tagged_elems_bytes(NRMS_TAG, m.normal_count, m.vertex_normals)).len() + (tagged_elems_bytes(PTYP_TAG, m.face_type_groups_count, m.face_type_groups)).len() + (tagged_elems_bytes(PCNT_TAG, m.face_groups_count, m.face_groups)).len() + (tagged_elems_bytes(PVTX_TAG, m.faces_count, m.faces)).len() + (tagged_elems_bytes(GNDX_TAG, m.vertex_groups_count, m.vertex_groups)).len() + (tagged_elems_bytes(MTGC_TAG, m.matrix_groups_count, m.matrix_groups)).len() + (tagged_elems_bytes(MATS_TAG, m.matrix_indexes_count, m.matrix_indexes)).len() + (u32_bytes(m.material_id)).len() + (u32_bytes(m.selection_group)).len() + (u32_bytes(m.selection_type)).len() + (m.extent.to_bytes()).len() + (u32_bytes(m.extents_count)).len() + (elems_bytes(m.extent_sequences)).len())),
        (u32_bytes(UVAS_TAG)).len() == 4,
        u32_at(b, pos + (u32_bytes(m.inclusive_size)).len() + (tagged_elems_bytes(VRTX_TAG, m.vertex_count, m.vertex_positions)).len() + (tagged_elems_bytes(NRMS_TAG, m.normal_count, m.vertex_normals)).len() + (tagged_elems_bytes(PTYP_TAG, m.face_type_groups_count, m.face_type_groups)).len() + (tagged_elems_bytes(PCNT_TAG, m.face_groups_count, m.face_groups)).len() + (tagged_elems_bytes(PVTX_TAG, m.faces_count, m.faces)).len() + (tagged_elems_bytes(GNDX_TAG, m.vertex_groups_count, m.vertex_groups)).len() + (tagged_elems_bytes(MTGC_TAG, m.matrix_groups_count, m.matrix_groups)).len() + (tagged_elems_bytes(MATS_TAG, m.matrix_indexes_count, m.matrix_indexes)).len() + (u32_bytes(m.material_id)).len() + (u32_bytes(m.selection_group)).len() + (u32_bytes(m.selection_type)).len() + (m.extent.to_bytes()).len() + (u32_bytes(m.extents_count)).len() + (elems_bytes(m.extent_sequences)).len())
            == UVAS_TAG,
        (u32_bytes(m.texture_coordinate_sets_count)).len() == 4,
        u32_at(b, pos + (u32_bytes(m.inclusive_size)).len() + (tagged_elems_bytes(VRTX_TAG, m.vertex_count, m.vertex_positions)).len() + (tagged_elems_bytes(NRMS_TAG, m.normal_count, m.vertex_normals)).len() + (tagged_elems_bytes(PTYP_TAG, m.face_type_groups_count, m.face_type_groups)).len() + (tagged_elems_bytes(PCNT_TAG, m.face_groups_count, m.face_groups)).len() + (tagged_elems_bytes(PVTX_TAG, m.faces_count, m.faces)).len() + (tagged_elems_bytes(GNDX_TAG, m.vertex_groups_count, m.vertex_groups)).len() + (tagged_elems_bytes(MTGC_TAG, m.matrix_groups_count, m.matrix_groups)).len() + (tagged_elems_bytes(MATS_TAG, m.matrix_indexes_count, m.matrix_indexes)).len() + (u32_bytes(m.material_id)).len() + (u32_bytes(m.selection_group)).len() + (u32_bytes(m.selection_type)).len() + (m.extent.to_bytes()).len() + (u32_bytes(m.extents_count)).len() + (elems_bytes(m.extent_sequences)).len() + (u32_bytes(UVAS_TAG)).len())
            == m.texture_coordinate_sets_count,
        parse_records::<TextureCoordinateSet>(b, pos + (u32_bytes(m.inclusive_size)).len() + (tagged_elems_bytes(VRTX_TAG, m.vertex_count, m.vertex_positions)).len() + (tagged_elems_bytes(NRMS_TAG, m.normal_count, m.vertex_normals)).len() + (tagged_elems_bytes(PTYP_TAG, m.face_type_groups_count, m.face_type_groups)).len() + (tagged_elems_bytes(PCNT_TAG, m.face_groups_count, m.face_groups)).len() + (tagged_elems_bytes(PVTX_TAG, m.faces_count, m.faces)).len() + (tagged_elems_bytes(GNDX_TAG, m.vertex_groups_count, m.vertex_groups)).len() + (tagged_elems_bytes(MTGC_TAG, m.matrix_groups_count, m.matrix_groups)).len() + (tagged_elems_bytes(MATS_TAG, m.matrix_indexes_count, m.matrix_indexes)).len() + (u32_bytes(m.material_id)).len() + (u32_bytes(m.selection_group)).len() + (u32_bytes(m.selection_type)).len() + (m.extent.to_bytes()).len() + (u32_bytes(m.extents_count)).len() + (elems_bytes(m.extent_sequences)).len() + (u32_bytes(UVAS_TAG)).len() + (u32_bytes(m.texture_coordinate_sets_count)).len(), m.texture_coordinate_sets.len())
            == Ok::<(Seq<TextureCoordinateSetModel>, int), FormatError>((m.texture_coordinate_sets, pos + (u32_bytes(m.inclusive_size)).len() + (tagged_elems_bytes(VRTX_TAG, m.vertex_count, m.vertex_positions)).len() + (tagged_elems_bytes(NRMS_TAG, m.normal_count, m.vertex_normals)).len() + (tagged_elems_bytes(PTYP_TAG, m.face_type_groups_count, m.face_type_groups)).len() + (tagged_elems_bytes(PCNT_TAG, m.face_groups_count, m.face_groups)).len() + (tagged_elems_bytes(PVTX_TAG, m.faces_count, m.faces)).len() + (tagged_elems_bytes(GNDX_TAG, m.vertex_groups_count, m.vertex_groups)).len() + (tagged_elems_bytes(MTGC_TAG, m.matrix_groups_count, m.matrix_groups)).len() + (tagged_elems_bytes(MATS_TAG, m.matrix_indexes_count, m.matrix_indexes)).len() + (u32_bytes(m.material_id)).len() + (u32_bytes(m.selection_group)).len() + (u32_bytes(m.selection_type)).len() + (m.extent.to_bytes()).len() + (u32_bytes(m.extents_count)).len() + (elems_bytes(m.extent_sequences)).len() + (u32_bytes(UVAS_TAG)).len() + (u32_bytes(m.texture_coordinate_sets_count)).len() + (records_bytes::<TextureCoordinateSet>(m.texture_coordinate_sets)).len())),
        geoset_bytes(m)
            == u32_bytes(m.inclusive_size) + tagged_elems_bytes(VRTX_TAG, m.vertex_count, m.vertex_positions) + tagged_elems_bytes(NRMS_TAG, m.normal_count, m.vertex_normals) + tagged_elems_bytes(PTYP_TAG, m.face_type_groups_count, m.face_type_groups) + tagged_elems_bytes(PCNT_TAG, m.face_groups_count, m.face_groups) + tagged_elems_bytes(PVTX_TAG, m.faces_count, m.faces) + tagged_elems_bytes(GNDX_TAG, m.vertex_groups_count, m.vertex_groups) + tagged_elems_bytes(MTGC_TAG, m.matrix_groups_count, m.matrix_groups) + tagged_elems_bytes(MATS_TAG, m.matrix_indexes_count, m.matrix_indexes) + u32_bytes(m.material_id) + u32_bytes(m.selection_group) + u32_bytes(m.selection_type) + m.extent.to_bytes() + u32_bytes(m.extents_count) + elems_bytes(m.extent_sequences) + u32_bytes(UVAS_TAG) + u32_bytes(m.texture_coordinate_sets_count) + records_bytes::<TextureCoordinateSet>(m.texture_coordinate_sets),
{
    let e = geoset_bytes(m);
    let q1 = u32_bytes(m.inclusive_size);
    let q2 = q1 + tagged_elems_bytes(VRTX_TAG, m.vertex_count, m.vertex_positions);
    let q3 = q2 + tagged_elems_bytes(NRMS_TAG, m.normal_count, m.vertex_normals);
    let q4 = q3 + tagged_elems_bytes(PTYP_TAG, m.face_type_groups_count, m.face_type_groups);
    let q5 = q4 + tagged_elems_bytes(PCNT_TAG, m.face_groups_count, m.face_groups);
    let q6 = q5 + tagged_elems_bytes(PVTX_TAG, m.faces_count, m.faces);
    let q7 = q6 + tagged_elems_bytes(GNDX_TAG, m.vertex_groups_count, m.vertex_groups);
    let q8 = q7 + tagged_elems_bytes(MTGC_TAG, m.matrix_groups_count, m.matrix_groups);
    let q9 = q8 + tagged_elems_bytes(MATS_TAG, m.matrix_indexes_count, m.matrix_indexes);
    let q10 = q9 + u32_bytes(m.material_id);
    let q11 = q10 + u32_bytes(m.selection_group);
    let q12 = q11 + u32_bytes(m.selection_type);
    let q13 = q12 + m.extent.to_bytes();
    let q14 = q13 + u32_bytes(m.extents_count);
    let q15 = q14 + elems_bytes(m.extent_sequences);
    let q16 = q15 + u32_bytes(UVAS_TAG);
    let q17 = q16 + u32_bytes(m.texture_coordinate_sets_count);
    let q18 = q17 + records_bytes::<TextureCoordinateSet>(m.texture_coordinate_sets);
    assert(q18 == e) by {
        reveal(geoset_bytes);
    }
    lemma_u32_bytes(m.inclusive_size);
    lemma_u32_bytes(m.material_id);
    lemma_u32_bytes(m.selection_group);
    lemma_u32_bytes(m.selection_type);
    m.extent.lemma_codec(Seq::empty(), 0);
    lemma_u32_bytes(m.extents_count);
    lemma_elems_len(m.extent_sequences);
    lemma_u32_bytes(UVAS_TAG);
    lemma_u32_bytes(m.texture_coordinate_sets_count);
    lemma_split(b, pos, q17, records_bytes::<TextureCoordinateSet>(m.texture_coordinate_sets));
    lemma_split(b, pos, q16, u32_bytes(m.texture_coordinate_sets_count));
    lemma_split(b, pos, q15, u32_bytes(UVAS_TAG));
    lemma_split(b, pos, q14, elems_bytes(m.extent_sequences));
    lemma_split(b, pos, q13, u32_bytes(m.extents_count));
    lemma_split(b, pos, q12, m.extent.to_bytes());
    lemma_split(b, pos, q11, u32_bytes(m.selection_type));
    lemma_split(b, pos, q10, u32_bytes(m.selection_group));
    lemma_split(b, pos, q9, u32_bytes(m.material_id));
    lemma_split(b, pos, q8, tagged_elems_bytes(MATS_TAG, m.matrix_indexes_count, m.matrix_indexes));
    lemma_split(b, pos, q7, tagged_elems_bytes(MTGC_TAG, m.matrix_groups_count, m.matrix_groups));
    lemma_split(b, pos, q6, tagged_elems_bytes(GNDX_TAG, m.vertex_groups_count, m.vertex_groups));
    lemma_split(b, pos, q5, tagged_elems_bytes(PVTX_TAG, m.faces_count, m.faces));
    lemma_split(b, pos, q4, tagged_elems_bytes(PCNT_TAG, m.face_groups_count, m.face_groups));
    lemma_split(b, pos, q3, tagged_elems_bytes(PTYP_TAG, m.face_type_groups_count, m.face_type_groups));
    lemma_split(b, pos, q2, tagged_elems_bytes(NRMS_TAG, m.normal_count, m.vertex_normals));
    lemma_split(b, pos, q1, tagged_elems_bytes(VRTX_TAG, m.vertex_count, m.vertex_positions));
    assert(b.subrange(pos, pos + 4) == u32_bytes(m.inclusive_size));
    assert(u32_at(b, pos) == m.inclusive_size);
    lemma_tagged_elems_round_trip(VRTX_TAG, m.vertex_count, m.vertex_positions, b, pos + q1.len());
    lemma_tagged_elems_round_trip(NRMS_TAG, m.normal_count, m.vertex_normals, b, pos + q2.len());
    lemma_tagged_elems_round_trip(PTYP_TAG, m.face_type_groups_count, m.face_type_groups, b, pos + q3.len());
    lemma_tagged_elems_round_trip(PCNT_TAG, m.face_groups_count, m.face_groups, b, pos + q4.len());
    lemma_tagged_elems_round_trip(PVTX_TAG, m.faces_count, m.faces, b, pos + q5.len());
    lemma_tagged_elems_round_trip(GNDX_TAG, m.vertex_groups_count, m.vertex_groups, b, pos + q6.len());
    lemma_tagged_elems_round_trip(MTGC_TAG, m.matrix_groups_count, m.matrix_groups, b, pos + q7.len());
    lemma_tagged_elems_round_trip(MATS_TAG, m.matrix_indexes_count, m.matrix_indexes, b, pos + q8.len());
    assert(b.subrange(pos + q9.len(), pos + q9.len() + 4) == u32_bytes(m.material_id));
    assert(u32_at(b, pos + q9.len()) == m.material_id);
    assert(b.subrange(pos + q10.len(), pos + q10.len() + 4) == u32_bytes(m.selection_group));
    assert(u32_at(b, pos + q10.len()) == m.selection_group);
    assert(b.subrange(pos + q11.len(), pos + q11.len() + 4) == u32_bytes(m.selection_type));
    assert(u32_at(b, pos + q11.len()) == m.selection_type);
    assert(b.subrange(pos + q12.len(), pos + q12.len() + 28) == m.extent.to_bytes());
    m.extent.lemma_codec(b, pos + q12.len());
    assert(b.subrange(pos + q13.len(), pos + q13.len() + 4) == u32_bytes(m.extents_count));
    assert(u32_at(b, pos + q13.len()) == m.extents_count);
    lemma_elems_round_trip(m.extent_sequences, b, pos + q14.len());
    assert(b.subrange(pos + q15.len(), pos + q15.len() + 4) == u32_bytes(UVAS_TAG));
    assert(u32_at(b, pos + q15.len()) == UVAS_TAG);
    assert(b.subrange(pos + q16.len(), pos + q16.len() + 4) == u32_bytes(m.texture_coordinate_sets_count));
    assert(u32_at(b, pos + q16.len()) == m.texture_coordinate_sets_count);
    lemma_records_round_trip::<TextureCoordinateSet>(m.texture_coordinate_sets, b, pos + q17.len());
    assert(sat(e.len() as int) == m.inclusive_size as usize);
}

impl Record for Geoset {
    open spec fn parse(b: Seq<u8>, pos: int) -> Result<(GeosetModel, int), FormatError> {
        parse_geoset(b, pos)
    }

    open spec fn encodable(m: GeosetModel) -> bool {
        geoset_encodable(m)
    }

    open spec fn wf(m: GeosetModel) -> bool {
        geoset_wf(m)
    }

    #[verifier::spinoff_prover]
    #[verifier::rlimit(100)]
    open spec fn resized(m: GeosetModel) -> GeosetModel {
        geoset_resized(m)
    }

    fn calculate_sizes(&mut self) {
        proof {
            reveal(geoset_bytes);
        }
        proof {
            lemma_resized_seq::<TextureCoordinateSet>(views(self.texture_coordinate_sets@));
        }
        resize_records(&mut self.texture_coordinate_sets);
        let n = self.total_bytes_size();
        self.inclusive_size = n as u32;
    }

    proof fn lemma_resized(m: GeosetModel) {
        reveal(geoset_bytes);
        lemma_resized_seq::<TextureCoordinateSet>(m.texture_coordinate_sets);
        lemma_u32_bytes(m.inclusive_size);
        lemma_u32_bytes(geoset_resized(m).inclusive_size);
    }

    proof fn lemma_wf_encodable(m: GeosetModel) {
        lemma_records_wf_encodable::<TextureCoordinateSet>(m.texture_coordinate_sets);
    }

    proof fn lemma_round_trip(m: GeosetModel, b: Seq<u8>, pos: int) {
        lemma_geoset_parts(m, b, pos);
        let e = geoset_bytes(m);
        assert(sat(e.len() as int) == m.inclusive_size as usize);
        assert(parse_geoset(b, pos) == Ok::<(GeosetModel, int), FormatError>((m, pos + e.len()))) by {
            reveal(parse_geoset);
        }
    }

    fn decode(src: &[u8], pos: usize) -> (r: Result<(Geoset, usize), FormatError>) {
        proof {
            reveal(parse_geoset);
        }
        let mut p: usize = pos;
        if src.len() - p < 4 {
            return Err(FormatError::OutOfBounds);
        }
        let inclusive_size = read_u32(src, p);
        p = p + 4;
        let (vertex_count, vertex_positions) = match read_tagged_elems::<VertexPosition>(src, p, VRTX_TAG) {
            Ok((c, v, q)) => {
                p = q;
                (c, v)
            },
            Err(e) => {
                return Err(e);
            },
        };
        let (normal_count, vertex_normals) = match read_tagged_elems::<VertexNormal>(src, p, NRMS_TAG) {
            Ok((c, v, q)) => {
                p = q;
                (c, v)
            },
            Err(e) => {
                return Err(e);
            },
        };
        let (face_type_groups_count, face_type_groups) = match read_tagged_elems::<FaceTypeGroup>(src, p, PTYP_TAG) {
            Ok((c, v, q)) => {
                p = q;
                (c, v)
            },
            Err(e) => {
                return Err(e);
            },
        };
        let (face_groups_count, face_groups) = match read_tagged_elems::<FaceGroup>(src, p, PCNT_TAG) {
            Ok((c, v, q)) => {
                p = q;
                (c, v)
            },
            Err(e) => {
                return Err(e);
            },
        };
        let (faces_count, faces) = match read_tagged_elems::<Face>(src, p, PVTX_TAG) {
            Ok((c, v, q)) => {
                p = q;
                (c, v)
            },
            Err(e) => {
                return Err(e);
            },
        };
        let (vertex_groups_count, vertex_groups) = match read_tagged_elems::<VertexGroup>(src, p, GNDX_TAG) {
            Ok((c, v, q)) => {
                p = q;
                (c, v)
            },
            Err(e) => {
                return Err(e);
            },
        };
        let (matrix_groups_count, matrix_groups) = match read_tagged_elems::<MatrixGroup>(src, p, MTGC_TAG) {
            Ok((c, v, q)) => {
                p = q;
                (c, v)
            },
            Err(e) => {
                return Err(e);
            },
        };
        let (matrix_indexes_count, matrix_indexes) = match read_tagged_elems::<MatrixIndex>(src, p, MATS_TAG) {
            Ok((c, v, q)) => {
                p = q;
                (c, v)
            },
            Err(e) => {
                return Err(e);
            },
        };
        if src.len() - p < 40 {
            return Err(FormatError::OutOfBounds);
        }
        let material_id = read_u32(src, p);
        let selection_group = read_u32(src, p + 4);
        let selection_type = read_u32(src, p + 8);
        let extent = Extent::read_at(src, p + 12);
        p = p + 40;
        if src.len() - p < 4 {
            return Err(FormatError::OutOfBounds);
        }
        let extents_count = read_u32(src, p);
        let extent_sequences = match read_elems::<Extent>(src, p + 4, extents_count as usize) {
            Ok((v, q)) => {
                p = q;
                v
            },
            Err(e) => {
                return Err(e);
            },
        };
        if src.len() - p < 4 {
            return Err(FormatError::OutOfBounds);
        }
        let found = read_u32(src, p);
        if found != UVAS_TAG {
            return Err(FormatError::TagMismatch { expected: UVAS_TAG, found });
        }
        p = p + 4;
        if src.len() - p < 4 {
            return Err(FormatError::OutOfBounds);
        }
        let texture_coordinate_sets_count = read_u32(src, p);
        let texture_coordinate_sets = match read_records::<TextureCoordinateSet>(src, p + 4, texture_coordinate_sets_count as usize) {
            Ok((v, q)) => {
                p = q;
                v
            },
            Err(e) => {
                return Err(e);
            },
        };
        let v = Geoset {
            inclusive_size,
            vertex_count,
            vertex_positions,
            normal_count,
            vertex_normals,
            face_type_groups_count,
            face_type_groups,
            face_groups_count,
            face_groups,
            faces_count,
            faces,
            vertex_groups_count,
            vertex_groups,
            matrix_groups_count,
            matrix_groups,
            matrix_indexes_count,
            matrix_indexes,
            material_id,
            selection_group,
            selection_type,
            extent,
            extents_count,
            extent_sequences,
            texture_coordinate_sets_count,
            texture_coordinate_sets,
        };
        if v.total_bytes_size() != v.inclusive_size as usize {
            return Err(FormatError::SizeMismatch);
        }
        Ok((v, p))
    }

    #[verifier::spinoff_prover]
    #[verifier::rlimit(100)]
    fn encode(&self, out: &mut Vec<u8>) -> (r: Result<(), FormatError>) {
        proof {
            reveal(geoset_bytes);
        }
        let ghost start = out@;
        write_u32(out, self.inclusive_size);
        let ghost mut acc = u32_bytes(self@.inclusive_size);
        assert(out@ =~= start + acc);
        write_tagged_elems(out, VRTX_TAG, self.vertex_count, &self.vertex_positions);
        proof {
            acc = acc + tagged_elems_bytes(VRTX_TAG, self@.vertex_count, self@.vertex_positions);
        }
        assert(out@ =~= start + acc);
        write_tagged_elems(out, NRMS_TAG, self.normal_count, &self.vertex_normals);
        proof {
            acc = acc + tagged_elems_bytes(NRMS_TAG, self@.normal_count, self@.vertex_normals);
        }
        assert(out@ =~= start + acc);
        write_tagged_elems(out, PTYP_TAG, self.face_type_groups_count, &self.face_type_groups);
        proof {
            acc = acc + tagged_elems_bytes(PTYP_TAG, self@.face_type_groups_count, self@.face_type_groups);
        }
        assert(out@ =~= start + acc);
        write_tagged_elems(out, PCNT_TAG, self.face_groups_count, &self.face_groups);
        proof {
            acc = acc + tagged_elems_bytes(PCNT_TAG, self@.face_groups_count, self@.face_groups);
        }
        assert(out@ =~= start + acc);
        write_tagged_elems(out, PVTX_TAG, self.faces_count, &self.faces);
        proof {
            acc = acc + tagged_elems_bytes(PVTX_TAG, self@.faces_count, self@.faces);
        }
        assert(out@ =~= start + acc);
        write_tagged_elems(out, GNDX_TAG, self.vertex_groups_count, &self.vertex_groups);
        proof {
            acc = acc + tagged_elems_bytes(GNDX_TAG, self@.vertex_groups_count, self@.vertex_groups);
        }
        assert(out@ =~= start + acc);
        write_tagged_elems(out, MTGC_TAG, self.matrix_groups_count, &self.matrix_groups);
        proof {
            acc = acc + tagged_elems_bytes(MTGC_TAG, self@.matrix_groups_count, self@.matrix_groups);
        }
        assert(out@ =~= start + acc);
        write_tagged_elems(out, MATS_TAG, self.matrix_indexes_count, &self.matrix_indexes);
        proof {
            acc = acc + tagged_elems_bytes(MATS_TAG, self@.matrix_indexes_count, self@.matrix_indexes);
        }
        assert(out@ =~= start + acc);
        write_u32(out, self.material_id);
        proof {
            acc = acc + u32_bytes(self@.material_id);
        }
        assert(out@ =~= start + acc);
        write_u32(out, self.selection_group);
        proof {
            acc = acc + u32_bytes(self@.selection_group);
        }
        assert(out@ =~= start + acc);
        write_u32(out, self.selection_type);
        proof {
            acc = acc + u32_bytes(self@.selection_type);
        }
        assert(out@ =~= start + acc);
        self.extent.write_to(out);
        proof {
            acc = acc + self@.extent.to_bytes();
        }
        assert(out@ =~= start + acc);
        write_u32(out, self.extents_count);
        proof {
            acc = acc + u32_bytes(self@.extents_count);
        }
        assert(out@ =~= start + acc);
        write_elems(out, &self.extent_sequences);
        proof {
            acc = acc + elems_bytes(self@.extent_sequences);
        }
        assert(out@ =~= start + acc);
        write_u32(out, UVAS_TAG);
        proof {
            acc = acc + u32_bytes(UVAS_TAG);
        }
        assert(out@ =~= start + acc);
        write_u32(out, self.texture_coordinate_sets_count);
        proof {
            acc = acc + u32_bytes(self@.texture_coordinate_sets_count);
        }
        assert(out@ =~= start + acc);
        if let Err(e) = write_records(out, &self.texture_coordinate_sets) {
            return Err(e);
        }
        proof {
            acc = acc + records_bytes::<TextureCoordinateSet>(self@.texture_coordinate_sets);
        }
        assert(out@ =~= start + acc);
        assert(acc == geoset_bytes(self@));
        Ok(())
    }

}

impl BytesTotalSize for Geoset {
    open spec fn model_bytes(m: GeosetModel) -> Seq<u8> {
        geoset_bytes(m)
    }

    fn total_bytes_size(&self) -> (r: usize) {
        proof {
            reveal(geoset_bytes);
        }
        let mut r: usize = 0;
        let ghost mut acc: Seq<u8> = Seq::empty();
        let k: usize = 4;
        proof {
            lemma_u32_bytes(self.inclusive_size);
            lemma_sat_add(acc.len() as int, (u32_bytes(self@.inclusive_size)).len() as int);
            acc = acc + u32_bytes(self@.inclusive_size);
        }
        r = add_sat(r, k);
        let k: usize = tagged_elems_size(&self.vertex_positions);
        proof {
            lemma_sat_add(acc.len() as int, (tagged_elems_bytes(VRTX_TAG, self@.vertex_count, self@.vertex_positions)).len() as int);
            acc = acc + tagged_elems_bytes(VRTX_TAG, self@.vertex_count, self@.vertex_positions);
        }
        r = add_sat(r, k);
        let k: usize = tagged_elems_size(&self.vertex_normals);
        proof {
            lemma_sat_add(acc.len() as int, (tagged_elems_bytes(NRMS_TAG, self@.normal_count, self@.vertex_normals)).len() as int);
            acc = acc + tagged_elems_bytes(NRMS_TAG, self@.normal_count, self@.vertex_normals);
        }
        r = add_sat(r, k);
        let k: usize = tagged_elems_size(&self.face_type_groups);
        proof {
            lemma_sat_add(acc.len() as int, (tagged_elems_bytes(PTYP_TAG, self@.face_type_groups_count, self@.face_type_groups)).len() as int);
            acc = acc + tagged_elems_bytes(PTYP_TAG, self@.face_type_groups_count, self@.face_type_groups);
        }
        r = add_sat(r, k);
        let k: usize = tagged_elems_size(&self.face_groups);
        proof {
            lemma_sat_add(acc.len() as int, (tagged_elems_bytes(PCNT_TAG, self@.face_groups_count, self@.face_groups)).len() as int);
            acc = acc + tagged_elems_bytes(PCNT_TAG, self@.face_groups_count, self@.face_groups);
        }
        r = add_sat(r, k);
        let k: usize = tagged_elems_size(&self.faces);
        proof {
            lemma_sat_add(acc.len() as int, (tagged_elems_bytes(PVTX_TAG, self@.faces_count, self@.faces)).len() as int);
            acc = acc + tagged_elems_bytes(PVTX_TAG, self@.faces_count, self@.faces);
        }
        r = add_sat(r, k);
        let k: usize = tagged_elems_size(&self.vertex_groups);
        proof {
            lemma_sat_add(acc.len() as int, (tagged_elems_bytes(GNDX_TAG, self@.vertex_groups_count, self@.vertex_groups)).len() as int);
            acc = acc + tagged_elems_bytes(GNDX_TAG, self@.vertex_groups_count, self@.vertex_groups);
        }
        r = add_sat(r, k);
        let k: usize = tagged_elems_size(&self.matrix_groups);
        proof {
            lemma_sat_add(acc.len() as int, (tagged_elems_bytes(MTGC_TAG, self@.matrix_groups_count, self@.matrix_groups)).len() as int);
            acc = acc + tagged_elems_bytes(MTGC_TAG, self@.matrix_groups_count, self@.matrix_groups);
        }
        r = add_sat(r, k);
        let k: usize = tagged_elems_size(&self.matrix_indexes);
        proof {
            lemma_sat_add(acc.len() as int, (tagged_elems_bytes(MATS_TAG, self@.matrix_indexes_count, self@.matrix_indexes)).len() as int);
            acc = acc + tagged_elems_bytes(MATS_TAG, self@.matrix_indexes_count, self@.matrix_indexes);
        }
        r = add_sat(r, k);
        let k: usize = 4;
        proof {
            lemma_u32_bytes(self.material_id);
            lemma_sat_add(acc.len() as int, (u32_bytes(self@.material_id)).len() as int);
            acc = acc + u32_bytes(self@.material_id);
        }
        r = add_sat(r, k);
        let k: usize = 4;
        proof {
            lemma_u32_bytes(self.selection_group);
            lemma_sat_add(acc.len() as int, (u32_bytes(self@.selection_group)).len() as int);
            acc = acc + u32_bytes(self@.selection_group);
        }
        r = add_sat(r, k);
        let k: usize = 4;
        proof {
            lemma_u32_bytes(self.selection_type);
            lemma_sat_add(acc.len() as int, (u32_bytes(self@.selection_type)).len() as int);
            acc = acc + u32_bytes(self@.selection_type);
        }
        r = add_sat(r, k);
        let k: usize = Extent::byte_width();
        proof {
            self.extent.lemma_codec(Seq::empty(), 0);
            lemma_sat_add(acc.len() as int, (self@.extent.to_bytes()).len() as int);
            acc = acc + self@.extent.to_bytes();
        }
        r = add_sat(r, k);
        let k: usize = 4;
        proof {
            lemma_u32_bytes(self.extents_count);
            lemma_sat_add(acc.len() as int, (u32_bytes(self@.extents_count)).len() as int);
            acc = acc + u32_bytes(self@.extents_count);
        }
        r = add_sat(r, k);
        let k: usize = elems_size(&self.extent_sequences);
        proof {
            lemma_sat_add(acc.len() as int, (elems_bytes(self@.extent_sequences)).len() as int);
            acc = acc + elems_bytes(self@.extent_sequences);
        }
        r = add_sat(r, k);
        let k: usize = 4;
        proof {
            lemma_u32_bytes(UVAS_TAG);
            lemma_sat_add(acc.len() as int, (u32_bytes(UVAS_TAG)).len() as int);
            acc = acc + u32_bytes(UVAS_TAG);
        }
        r = add_sat(r, k);
        let k: usize = 4;
        proof {
            lemma_u32_bytes(self.texture_coordinate_sets_count);
            lemma_sat_add(acc.len() as int, (u32_bytes(self@.texture_coordinate_sets_count)).len() as int);
            acc = acc + u32_bytes(self@.texture_coordinate_sets_count);
        }
        r = add_sat(r, k);
        let k: usize = records_size(&self.texture_coordinate_sets);
        proof {
            lemma_sat_add(acc.len() as int, (records_bytes::<TextureCoordinateSet>(self@.texture_coordinate_sets)).len() as int);
            acc = acc + records_bytes::<TextureCoordinateSet>(self@.texture_coordinate_sets);
        }
        r = add_sat(r, k);
        assert(acc =~= geoset_bytes(self@));
        r
    }
}

impl Inclusive for Geoset {
    open spec fn declared(m: GeosetModel) -> int {
        m.inclusive_size as int
    }

    fn declared_size(&self) -> (r: u64) {
        self.inclusive_size as u64
    }

    proof fn lemma_declared(m: GeosetModel) {
        reveal(geoset_bytes);
        lemma_u32_bytes(m.inclusive_size);
        lemma_u32_bytes(m.material_id);
        lemma_u32_bytes(m.selection_group);
        lemma_u32_bytes(m.selection_type);
    }
}

/// A run of `Geoset` records, read while the sum of their declared sizes stays below `chunk_size`.
#[derive(PartialEq, Debug)]
pub struct GeosetChunk {
    pub chunk_size: u32,
    pub data: Vec<Geoset>,
}

/// The mathematical content of a `GeosetChunk`.
pub struct GeosetChunkModel {
    pub chunk_size: u32,
    pub data: Seq<GeosetModel>,
}

impl View for GeosetChunk {
    type V = GeosetChunkModel;

    open spec fn view(&self) -> GeosetChunkModel {
        GeosetChunkModel {
            chunk_size: self.chunk_size,
            data: views(self.data@),
        }
    }
}

/// The bytes that encoding a `GeosetChunk` writes.
#[verifier::opaque]
pub open spec fn geoset_chunk_bytes(m: GeosetChunkModel) -> Seq<u8> {
    u32_bytes(m.chunk_size)
    + records_bytes::<Geoset>(m.data)
}

pub open spec fn geoset_chunk_encodable(m: GeosetChunkModel) -> bool {
    records_encodable::<Geoset>(m.data)
}

/// A `GeosetChunk` that decoding its encoding gives back.
pub open spec fn geoset_chunk_wf(m: GeosetChunkModel) -> bool {
    &&& records_wf::<Geoset>(m.data)
    &&& m.chunk_size + 4 == geoset_chunk_bytes(m).len()
}

/// Decoding a `GeosetChunk` at `pos`: its model and the position after it.
#[verifier::opaque]
pub open spec fn parse_geoset_chunk(b: Seq<u8>, pos: int) -> Result<(GeosetChunkModel, int), FormatError> {
    if pos + 4 > b.len() {
        Err(FormatError::OutOfBounds)
    } else {
        match parse_inclusive::<Geoset>(b, pos + 4, 0, u32_at(b, pos) as int) {
            Err(e) => Err(e),
            Ok((data, p_data)) => {
                let m = GeosetChunkModel {
                    chunk_size: u32_at(b, pos),
                    data: data,
                };
                Ok((m, p_data))
            },
        }
    }
}

/// `m` with every declared size inside it recomputed from the content.
pub open spec fn geoset_chunk_resized(m: GeosetChunkModel) -> GeosetChunkModel {
    GeosetChunkModel { data: resized_seq::<Geoset>(m.data), ..m }
}

impl Record for GeosetChunk {
    open spec fn parse(b: Seq<u8>, pos: int) -> Result<(GeosetChunkModel, int), FormatError> {
        parse_geoset_chunk(b, pos)
    }

    open spec fn encodable(m: GeosetChunkModel) -> bool {
        geoset_chunk_encodable(m)
    }

    open spec fn wf(m: GeosetChunkModel) -> bool {
        geoset_chunk_wf(m)
    }

    open spec fn resized(m: GeosetChunkModel) -> GeosetChunkModel {
        geoset_chunk_resized(m)
    }

    fn calculate_sizes(&mut self) {
        proof {
            reveal(geoset_chunk_bytes);
        }
        proof {
            lemma_resized_seq::<Geoset>(views(self.data@));
        }
        resize_records(&mut self.data);
    }

    proof fn lemma_resized(m: GeosetChunkModel) {
        reveal(geoset_chunk_bytes);
        lemma_resized_seq::<Geoset>(m.data);
    }

    proof fn lemma_wf_encodable(m: GeosetChunkModel) {
        lemma_records_wf_encodable::<Geoset>(m.data);
    }

    proof fn lemma_round_trip(m: GeosetChunkModel, b: Seq<u8>, pos: int) {
        let e = geoset_chunk_bytes(m);
        let q1 = u32_bytes(m.chunk_size);
        let q2 = q1 + records_bytes::<Geoset>(m.data);
        assert(q2 == e) by {
            reveal(geoset_chunk_bytes);
        }
        lemma_u32_bytes(m.chunk_size);
        lemma_split(b, pos, q1, records_bytes::<Geoset>(m.data));
        assert(b.subrange(pos, pos + 4) == u32_bytes(m.chunk_size));
        assert(u32_at(b, pos) == m.chunk_size);
        lemma_inclusive_round_trip::<Geoset>(m.data, b, pos + q1.len(), 0);
        assert(parse_geoset_chunk(b, pos) == Ok::<(GeosetChunkModel, int), FormatError>((m, pos + e.len()))) by {
            reveal(parse_geoset_chunk);
        }
    }

    fn decode(src: &[u8], pos: usize) -> (r: Result<(GeosetChunk, usize), FormatError>) {
        proof {
            reveal(parse_geoset_chunk);
        }
        let mut p: usize = pos;
        if src.len() - p < 4 {
            return Err(FormatError::OutOfBounds);
        }
        let chunk_size = read_u32(src, p);
        p = p + 4;
        let data = match read_inclusive::<Geoset>(src, p, chunk_size) {
            Ok((v, q)) => {
                p = q;
                v
            },
            Err(e) => {
                return Err(e);
            },
        };
        let v = GeosetChunk { chunk_size, data };
        Ok((v, p))
    }

    fn encode(&self, out: &mut Vec<u8>) -> (r: Result<(), FormatError>) {
        proof {
            reveal(geoset_chunk_bytes);
        }
        let ghost start = out@;
        write_u32(out, self.chunk_size);
        let ghost mut acc = u32_bytes(self@.chunk_size);
        assert(out@ =~= start + acc);
        if let Err(e) = write_records(out, &self.data) {
            return Err(e);
        }
        proof {
            acc = acc + records_bytes::<Geoset>(self@.data);
        }
        assert(out@ =~= start + acc);
        assert(acc == geoset_chunk_bytes(self@));
        Ok(())
    }

}

impl BytesTotalSize for GeosetChunk {
    open spec fn model_bytes(m: GeosetChunkModel) -> Seq<u8> {
        geoset_chunk_bytes(m)
    }

    fn total_bytes_size(&self) -> (r: usize) {
        proof {
            reveal(geoset_chunk_bytes);
        }
        let mut r: usize = 0;
        let ghost mut acc: Seq<u8> = Seq::empty();
        let k: usize = 4;
        proof {
            lemma_u32_bytes(self.chunk_size);
            lemma_sat_add(acc.len() as int, (u32_bytes(self@.chunk_size)).len() as int);
            acc = acc + u32_bytes(self@.chunk_size);
        }
        r = add_sat(r, k);
        let k: usize = records_size(&self.data);
        proof {
            lemma_sat_add(acc.len() as int, (records_bytes::<Geoset>(self@.data)).len() as int);
            acc = acc + records_bytes::<Geoset>(self@.data);
        }
        r = add_sat(r, k);
        assert(acc =~= geoset_chunk_bytes(self@));
        r
    }
}

/// `m` with `chunk_size` set to the encoded length without the size field itself.
pub open spec fn geoset_chunk_sized(m: GeosetChunkModel) -> GeosetChunkModel {
    GeosetChunkModel { chunk_size: (geoset_chunk_bytes(m).len() - 4) as u32, ..m }
}

impl Chunk for GeosetChunk {
    open spec fn sized(m: GeosetChunkModel) -> GeosetChunkModel {
        geoset_chunk_sized(m)
    }

    open spec fn chunk_size_of(m: GeosetChunkModel) -> u32 {
        m.chunk_size
    }

    proof fn lemma_sized_id(m: GeosetChunkModel) {
    }

    proof fn lemma_chunk_min_len(m: GeosetChunkModel) {
        reveal(geoset_chunk_bytes);
        lemma_u32_bytes(m.chunk_size);
    }

    fn calculate_chunk_size(&mut self) {
        let n = self.total_bytes_size();
        self.chunk_size = (n - 4) as u32;
        proof {
            reveal(geoset_chunk_bytes);
            lemma_u32_bytes(old(self).chunk_size);
            lemma_u32_bytes(self.chunk_size);
        }
    }
}

} // verus!
