//! Cameras.

use crate::codec::{
    Element, add_sat, lemma_join, lemma_sat_add, lemma_split, lemma_text_field_len,
    lemma_text_round_trip, lemma_u32_bytes, parse_text, read_text, read_u32, sat, text_field,
    text_fits, text_ok, u32_at, u32_bytes, write_text, write_u32,
};
use crate::consts::{KCRL_TAG, KCTR_TAG, KTTR_TAG};
use crate::data_types::Vec3;
use crate::error::FormatError;
use crate::record::{
    BytesTotalSize, Chunk, Inclusive, Record, lemma_inclusive_round_trip,
    lemma_records_wf_encodable, lemma_resized_seq, parse_inclusive, read_inclusive, records_bytes,
    records_encodable, records_size, records_wf, resize_records, resized_seq, views, write_records,
};
use crate::tracks::{
    Transform, TransformModel, lemma_opt_block_round_trip, opt_block_bytes, opt_block_size,
    opt_view, parse_transform, transform_wf, write_opt_block,
};
use vstd::prelude::*;

verus! {

broadcast use vstd::seq::group_seq_axioms;

/// A camera. Float fields hold IEEE-754 bit patterns.
#[derive(PartialEq, Debug)]
pub struct Camera {
    pub inclusive_size: u32,
    pub name: String,
    pub position: Vec3,
    pub field_of_view: u32,
    pub far_clipping_plane: u32,
    pub near_clipping_plane: u32,
    pub target_position: Vec3,
    pub translation: Option<Transform<Vec3>>,
    pub rotation: Option<Transform<u32>>,
    pub target_translation: Option<Transform<Vec3>>,
}

/// The mathematical content of a `Camera`.
pub struct CameraModel {
    pub inclusive_size: u32,
    pub name: Seq<char>,
    pub position: Vec3,
    pub field_of_view: u32,
    pub far_clipping_plane: u32,
    pub near_clipping_plane: u32,
    pub target_position: Vec3,
    pub translation: Option<TransformModel<Vec3>>,
    pub rotation: Option<TransformModel<u32>>,
    pub target_translation: Option<TransformModel<Vec3>>,
}

impl View for Camera {
    type V = CameraModel;

    open spec fn view(&self) -> CameraModel {
        CameraModel {
            inclusive_size: self.inclusive_size,
            name: self.name@,
            position: self.position,
            field_of_view: self.field_of_view,
            far_clipping_plane: self.far_clipping_plane,
            near_clipping_plane: self.near_clipping_plane,
            target_position: self.target_position,
            translation: opt_view(self.translation),
            rotation: opt_view(self.rotation),
            target_translation: opt_view(self.target_translation),
        }
    }
}

/// The bytes that encoding a `Camera` writes.
#[verifier::opaque]
pub open spec fn camera_bytes(m: CameraModel) -> Seq<u8> {
    u32_bytes(m.inclusive_size)
    + text_field(m.name, 80)
    + m.position.to_bytes()
    + u32_bytes(m.field_of_view)
    + u32_bytes(m.far_clipping_plane)
    + u32_bytes(m.near_clipping_plane)
    + m.target_position.to_bytes()
    + opt_block_bytes(KCTR_TAG, m.translation)
    + opt_block_bytes(KCRL_TAG, m.rotation)
    + opt_block_bytes(KTTR_TAG, m.target_translation)
}

pub open spec fn camera_encodable(m: CameraModel) -> bool {
    text_fits(m.name, 80)
}

/// A `Camera` that decoding its encoding gives back.
pub open spec fn camera_wf(m: CameraModel) -> bool {
    &&& text_ok(m.name, 80)
    &&& (m.translation matches Some(t) ==> transform_wf(t))
    &&& (m.rotation matches Some(t) ==> transform_wf(t))
    &&& (m.target_translation matches Some(t) ==> transform_wf(t))
    &&& m.inclusive_size == camera_bytes(m).len()
}

/// The optional sub-blocks of a `Camera` from `pos` on, read while the
/// position stays below `start + bound`; each one replaces the field of its tag.
pub open spec fn scan_camera(b: Seq<u8>, start: int, bound: int, pos: int, acc: CameraModel) -> Result<
    (CameraModel, int),
    FormatError,
>
    decreases b.len() - pos,
{
    if pos - start >= bound {
        Ok((acc, pos))
    } else if pos + 4 > b.len() {
        Err(FormatError::OutOfBounds)
    } else {
        let tag = u32_at(b, pos);
        if tag == KCTR_TAG {
            match parse_transform::<Vec3>(b, pos + 4) {
                Err(e) => Err(e),
                Ok((t, q)) => if q <= pos || q > b.len() {
                    Err(FormatError::OutOfBounds)
                } else {
                    scan_camera(
                        b,
                        start,
                        bound,
                        q,
                        CameraModel {
                            inclusive_size: acc.inclusive_size,
                            name: acc.name,
                            position: acc.position,
                            field_of_view: acc.field_of_view,
                            far_clipping_plane: acc.far_clipping_plane,
                            near_clipping_plane: acc.near_clipping_plane,
                            target_position: acc.target_position,
                            translation: Some(t),
                            rotation: acc.rotation,
                            target_translation: acc.target_translation,
                        },
                    )
                },
            }
        } else if tag == KCRL_TAG {
            match parse_transform::<u32>(b, pos + 4) {
                Err(e) => Err(e),
                Ok((t, q)) => if q <= pos || q > b.len() {
                    Err(FormatError::OutOfBounds)
                } else {
                    scan_camera(
                        b,
                        start,
                        bound,
                        q,
                        CameraModel {
                            inclusive_size: acc.inclusive_size,
                            name: acc.name,
                            position: acc.position,
                            field_of_view: acc.field_of_view,
                            far_clipping_plane: acc.far_clipping_plane,
                            near_clipping_plane: acc.near_clipping_plane,
                            target_position: acc.target_position,
                            translation: acc.translation,
                            rotation: Some(t),
                            target_translation: acc.target_translation,
                        },
                    )
                },
            }
        } else if tag == KTTR_TAG {
            match parse_transform::<Vec3>(b, pos + 4) {
                Err(e) => Err(e),
                Ok((t, q)) => if q <= pos || q > b.len() {
                    Err(FormatError::OutOfBounds)
                } else {
                    scan_camera(
                        b,
                        start,
                        bound,
                        q,
                        CameraModel {
                            inclusive_size: acc.inclusive_size,
                            name: acc.name,
                            position: acc.position,
                            field_of_view: acc.field_of_view,
                            far_clipping_plane: acc.far_clipping_plane,
                            near_clipping_plane: acc.near_clipping_plane,
                            target_position: acc.target_position,
                            translation: acc.translation,
                            rotation: acc.rotation,
                            target_translation: Some(t),
                        },
                    )
                },
            }
        } else {
            Err(FormatError::UnknownSubTag(tag))
        }
    }
}

/// The sub-blocks of a well-formed `Camera` from the `KTTR` one on scan back into it.
proof fn lemma_camera_scan_from_2(m: CameraModel, b: Seq<u8>, pos: int, o: int)
    requires
        m.target_translation matches Some(t) ==> transform_wf(t),
        0 <= pos <= o,
        o + (opt_block_bytes(KTTR_TAG, m.target_translation)).len()
            == pos + m.inclusive_size as int,
        o + (opt_block_bytes(KTTR_TAG, m.target_translation)).len() <= b.len(),
        b.subrange(o, o + (opt_block_bytes(KTTR_TAG, m.target_translation)).len())
            == opt_block_bytes(KTTR_TAG, m.target_translation),
    ensures
        scan_camera(b, pos, m.inclusive_size as int, o, CameraModel {
            target_translation: None,
            ..m
        }) == Ok::<(CameraModel, int), FormatError>(
            (m, o + (opt_block_bytes(KTTR_TAG, m.target_translation)).len()),
        ),
{
    lemma_opt_block_round_trip(KTTR_TAG, m.target_translation, b, o);
    let e = o + (opt_block_bytes(KTTR_TAG, m.target_translation)).len();
    assert(scan_camera(b, pos, m.inclusive_size as int, e, m) == Ok::<(CameraModel, int), FormatError>((m, e)));
    if m.target_translation is None {
        assert(CameraModel { target_translation: None, ..m } == m);
    }
}

/// The sub-blocks of a well-formed `Camera` from the `KCRL` one on scan back into it.
proof fn lemma_camera_scan_from_1(m: CameraModel, b: Seq<u8>, pos: int, o: int)
    requires
        m.rotation matches Some(t) ==> transform_wf(t),
        m.target_translation matches Some(t) ==> transform_wf(t),
        0 <= pos <= o,
        o + (opt_block_bytes(KCRL_TAG, m.rotation) + opt_block_bytes(KTTR_TAG, m.target_translation)).len()
            == pos + m.inclusive_size as int,
        o + (opt_block_bytes(KCRL_TAG, m.rotation) + opt_block_bytes(KTTR_TAG, m.target_translation)).len() <= b.len(),
        b.subrange(o, o + (opt_block_bytes(KCRL_TAG, m.rotation) + opt_block_bytes(KTTR_TAG, m.target_translation)).len())
            == opt_block_bytes(KCRL_TAG, m.rotation) + opt_block_bytes(KTTR_TAG, m.target_translation),
    ensures
        scan_camera(b, pos, m.inclusive_size as int, o, CameraModel {
            rotation: None,
            target_translation: None,
            ..m
        }) == Ok::<(CameraModel, int), FormatError>(
            (m, o + (opt_block_bytes(KCRL_TAG, m.rotation) + opt_block_bytes(KTTR_TAG, m.target_translation)).len()),
        ),
{
    lemma_split(b, o, opt_block_bytes(KCRL_TAG, m.rotation), opt_block_bytes(KTTR_TAG, m.target_translation));
    lemma_opt_block_round_trip(KCRL_TAG, m.rotation, b, o);
    lemma_camera_scan_from_2(m, b, pos, o + (opt_block_bytes(KCRL_TAG, m.rotation)).len());
    if m.rotation is None {
        assert(CameraModel {
            rotation: None,
            target_translation: None,
            ..m
        } == CameraModel { target_translation: None, ..m });
    }
}

/// The sub-blocks of a well-formed `Camera`, written in their fixed order,
/// scan back into it.
proof fn lemma_camera_scan_from_0(m: CameraModel, b: Seq<u8>, pos: int, o: int)
    requires
        m.translation matches Some(t) ==> transform_wf(t),
        m.rotation matches Some(t) ==> transform_wf(t),
        m.target_translation matches Some(t) ==> transform_wf(t),
        0 <= pos <= o,
        o + (opt_block_bytes(KCTR_TAG, m.translation) + (opt_block_bytes(KCRL_TAG, m.rotation) + opt_block_bytes(KTTR_TAG, m.target_translation))).len()
            == pos + m.inclusive_size as int,
        o + (opt_block_bytes(KCTR_TAG, m.translation) + (opt_block_bytes(KCRL_TAG, m.rotation) + opt_block_bytes(KTTR_TAG, m.target_translation))).len() <= b.len(),
        b.subrange(o, o + (opt_block_bytes(KCTR_TAG, m.translation) + (opt_block_bytes(KCRL_TAG, m.rotation) + opt_block_bytes(KTTR_TAG, m.target_translation))).len())
            == opt_block_bytes(KCTR_TAG, m.translation) + (opt_block_bytes(KCRL_TAG, m.rotation) + opt_block_bytes(KTTR_TAG, m.target_translation)),
    ensures
        scan_camera(b, pos, m.inclusive_size as int, o, CameraModel {
            translation: None,
            rotation: None,
            target_translation: None,
            ..m
        }) == Ok::<(CameraModel, int), FormatError>(
            (m, o + (opt_block_bytes(KCTR_TAG, m.translation) + (opt_block_bytes(KCRL_TAG, m.rotation) + opt_block_bytes(KTTR_TAG, m.target_translation))).len()),
        ),
{
    lemma_split(b, o, opt_block_bytes(KCTR_TAG, m.translation), opt_block_bytes(KCRL_TAG, m.rotation) + opt_block_bytes(KTTR_TAG, m.target_translation));
    lemma_opt_block_round_trip(KCTR_TAG, m.translation, b, o);
    lemma_camera_scan_from_1(m, b, pos, o + (opt_block_bytes(KCTR_TAG, m.translation)).len());
    if m.translation is None {
        assert(CameraModel {
            translation: None,
            rotation: None,
            target_translation: None,
            ..m
        } == CameraModel { rotation: None, target_translation: None, ..m });
    }
}

/// Decoding a `Camera` at `pos`: its model and the position after it.
#[verifier::opaque]
pub open spec fn parse_camera(b: Seq<u8>, pos: int) -> Result<(CameraModel, int), FormatError> {
    if pos + 120 > b.len() {
        Err(FormatError::OutOfBounds)
    } else {
        match parse_text(b, pos + 4, 80) {
            Err(e) => Err(e),
            Ok(name) => {
                let m = CameraModel {
                    inclusive_size: u32_at(b, pos),
                    name: name,
                    position: Vec3::parse_at(b, pos + 84),
                    field_of_view: u32_at(b, pos + 96),
                    far_clipping_plane: u32_at(b, pos + 100),
                    near_clipping_plane: u32_at(b, pos + 104),
                    target_position: Vec3::parse_at(b, pos + 108),
                    translation: None,
                    rotation: None,
                    target_translation: None,
                };
                match scan_camera(b, pos, m.inclusive_size as int, pos + 120, m) {
                    Err(e) => Err(e),
                    Ok((m2, q)) => {
                        if sat(camera_bytes(m2).len() as int) != m2.inclusive_size as usize {
                            Err(FormatError::SizeMismatch)
                        } else {
                            Ok((m2, q))
                        }
                    },
                }
            },
        }
    }
}

/// A decoded `Camera` declares exactly the length that `total_bytes_size` reports.
pub proof fn lemma_camera_size_checked(b: Seq<u8>, pos: int)
    ensures
        parse_camera(b, pos) matches Ok((m, _)) ==> sat(camera_bytes(m).len() as int)
            == m.inclusive_size as usize,
{
    reveal(parse_camera);
}

/// A sub-block tag inside a `Camera` other than `KCTR`, `KCRL`, `KTTR` is refused.
pub proof fn lemma_camera_unknown_tag(b: Seq<u8>, start: int, bound: int, pos: int, acc: CameraModel)
    requires
        pos - start < bound,
        pos + 4 <= b.len(),
    ensures
        ({
            let tag = u32_at(b, pos);
            !(tag == KCTR_TAG || tag == KCRL_TAG || tag == KTTR_TAG) ==> scan_camera(b, start, bound, pos, acc)
                == Err::<(CameraModel, int), FormatError>(
                FormatError::UnknownSubTag(tag),
            )
        }),
{
}

/// `m` with every declared size inside it recomputed from the content.
pub open spec fn camera_resized(m: CameraModel) -> CameraModel {
    let n = m;
    CameraModel { inclusive_size: camera_bytes(n).len() as u32, ..n }
}

/// After its sizes are recomputed, a `Camera` declares exactly its encoded length.
pub proof fn lemma_camera_resized_consistent(m: CameraModel)
    requires
        camera_bytes(m).len() <= u32::MAX,
    ensures
        camera_resized(m).inclusive_size == camera_bytes(camera_resized(m)).len(),
{
    reveal(camera_bytes);
    lemma_u32_bytes(m.inclusive_size);
    lemma_u32_bytes(camera_resized(m).inclusive_size);
    Camera::lemma_resized(m);
}

impl Record for Camera {
    open spec fn parse(b: Seq<u8>, pos: int) -> Result<(CameraModel, int), FormatError> {
        parse_camera(b, pos)
    }

    open spec fn encodable(m: CameraModel) -> bool {
        camera_encodable(m)
    }

    open spec fn wf(m: CameraModel) -> bool {
        camera_wf(m)
    }

    open spec fn resized(m: CameraModel) -> CameraModel {
        camera_resized(m)
    }

    fn calculate_sizes(&mut self) {
        proof {
            reveal(camera_bytes);
        }
        let n = self.total_bytes_size();
        self.inclusive_size = n as u32;
    }

    proof fn lemma_resized(m: CameraModel) {
        reveal(camera_bytes);
        lemma_u32_bytes(m.inclusive_size);
        lemma_u32_bytes(camera_resized(m).inclusive_size);
    }

    proof fn lemma_wf_encodable(m: CameraModel) {
    }

    proof fn lemma_round_trip(m: CameraModel, b: Seq<u8>, pos: int) {
        let e = camera_bytes(m);
        let q1 = u32_bytes(m.inclusive_size);
        let q2 = q1 + text_field(m.name, 80);
        let q3 = q2 + m.position.to_bytes();
        let q4 = q3 + u32_bytes(m.field_of_view);
        let q5 = q4 + u32_bytes(m.far_clipping_plane);
        let q6 = q5 + u32_bytes(m.near_clipping_plane);
        let q7 = q6 + m.target_position.to_bytes();
        let q8 = q7 + opt_block_bytes(KCTR_TAG, m.translation);
        let q9 = q8 + opt_block_bytes(KCRL_TAG, m.rotation);
        let q10 = q9 + opt_block_bytes(KTTR_TAG, m.target_translation);
        assert(q10 == e) by {
            reveal(camera_bytes);
        }
        lemma_u32_bytes(m.inclusive_size);
        lemma_text_field_len(m.name, 80);
        m.position.lemma_codec(Seq::empty(), 0);
        lemma_u32_bytes(m.field_of_view);
        lemma_u32_bytes(m.far_clipping_plane);
        lemma_u32_bytes(m.near_clipping_plane);
        m.target_position.lemma_codec(Seq::empty(), 0);
        lemma_split(b, pos, q9, opt_block_bytes(KTTR_TAG, m.target_translation));
        lemma_split(b, pos, q8, opt_block_bytes(KCRL_TAG, m.rotation));
        lemma_split(b, pos, q7, opt_block_bytes(KCTR_TAG, m.translation));
        lemma_split(b, pos, q6, m.target_position.to_bytes());
        lemma_split(b, pos, q5, u32_bytes(m.near_clipping_plane));
        lemma_split(b, pos, q4, u32_bytes(m.far_clipping_plane));
        lemma_split(b, pos, q3, u32_bytes(m.field_of_view));
        lemma_split(b, pos, q2, m.position.to_bytes());
        lemma_split(b, pos, q1, text_field(m.name, 80));
        assert(b.subrange(pos, pos + 4) == u32_bytes(m.inclusive_size));
        assert(u32_at(b, pos) == m.inclusive_size);
        lemma_text_round_trip(m.name, 80, b, pos + q1.len());
        assert(b.subrange(pos + q2.len(), pos + q2.len() + 12) == m.position.to_bytes());
        m.position.lemma_codec(b, pos + q2.len());
        assert(b.subrange(pos + q3.len(), pos + q3.len() + 4) == u32_bytes(m.field_of_view));
        assert(u32_at(b, pos + q3.len()) == m.field_of_view);
        assert(b.subrange(pos + q4.len(), pos + q4.len() + 4) == u32_bytes(m.far_clipping_plane));
        assert(u32_at(b, pos + q4.len()) == m.far_clipping_plane);
        assert(b.subrange(pos + q5.len(), pos + q5.len() + 4) == u32_bytes(m.near_clipping_plane));
        assert(u32_at(b, pos + q5.len()) == m.near_clipping_plane);
        assert(b.subrange(pos + q6.len(), pos + q6.len() + 12) == m.target_position.to_bytes());
        m.target_position.lemma_codec(b, pos + q6.len());
        let r2 = opt_block_bytes(KTTR_TAG, m.target_translation);
        lemma_join(b, pos + q8.len(), opt_block_bytes(KCRL_TAG, m.rotation), r2);
        let r1 = opt_block_bytes(KCRL_TAG, m.rotation) + r2;
        lemma_join(b, pos + q7.len(), opt_block_bytes(KCTR_TAG, m.translation), r1);
        lemma_camera_scan_from_0(m, b, pos, pos + q7.len());
        assert(sat(e.len() as int) == m.inclusive_size as usize);
        assert(parse_camera(b, pos) == Ok::<(CameraModel, int), FormatError>((m, pos + e.len()))) by {
            reveal(parse_camera);
        }
    }

    #[verifier::loop_isolation(false)]
    fn decode(src: &[u8], pos: usize) -> (r: Result<(Camera, usize), FormatError>) {
        proof {
            reveal(parse_camera);
        }
        let mut p: usize = pos;
        if src.len() - p < 120 {
            return Err(FormatError::OutOfBounds);
        }
        let inclusive_size = read_u32(src, p);
        let name = match read_text(src, p + 4, 80) {
            Ok(s) => s,
            Err(e) => {
                return Err(e);
            },
        };
        let position = Vec3::read_at(src, p + 84);
        let field_of_view = read_u32(src, p + 96);
        let far_clipping_plane = read_u32(src, p + 100);
        let near_clipping_plane = read_u32(src, p + 104);
        let target_position = Vec3::read_at(src, p + 108);
        p = p + 120;
        let mut v = Camera {
            inclusive_size,
            name,
            position,
            field_of_view,
            far_clipping_plane,
            near_clipping_plane,
            target_position,
            translation: None,
            rotation: None,
            target_translation: None,
        };
        let ghost start_model = v@;
        let ghost p0 = p as int;
        while p - pos < v.inclusive_size as usize
            invariant
                pos <= p <= src.len(),
                scan_camera(src@, pos as int, v.inclusive_size as int, p0, start_model)
                    == scan_camera(
                    src@,
                    pos as int,
                    v.inclusive_size as int,
                    p as int,
                    v@,
                ),
                v.inclusive_size == start_model.inclusive_size,
            decreases src.len() - p,
        {
            if src.len() - p < 4 {
                return Err(FormatError::OutOfBounds);
            }
            let tag = read_u32(src, p);
            if tag == KCTR_TAG {
                match Transform::<Vec3>::decode(src, p + 4) {
                    Ok((t, q)) => {
                        v.translation = Some(t);
                        p = q;
                    },
                    Err(e) => {
                        return Err(e);
                    },
                }
            } else if tag == KCRL_TAG {
                match Transform::<u32>::decode(src, p + 4) {
                    Ok((t, q)) => {
                        v.rotation = Some(t);
                        p = q;
                    },
                    Err(e) => {
                        return Err(e);
                    },
                }
            } else if tag == KTTR_TAG {
                match Transform::<Vec3>::decode(src, p + 4) {
                    Ok((t, q)) => {
                        v.target_translation = Some(t);
                        p = q;
                    },
                    Err(e) => {
                        return Err(e);
                    },
                }
            } else {
                return Err(FormatError::UnknownSubTag(tag));
            }
        }
        if v.total_bytes_size() != v.inclusive_size as usize {
            return Err(FormatError::SizeMismatch);
        }
        Ok((v, p))
    }

    #[verifier::rlimit(50)]
    fn encode(&self, out: &mut Vec<u8>) -> (r: Result<(), FormatError>) {
        proof {
            reveal(camera_bytes);
        }
        let ghost start = out@;
        write_u32(out, self.inclusive_size);
        let ghost mut acc = u32_bytes(self@.inclusive_size);
        assert(out@ =~= start + acc);
        if let Err(e) = write_text(out, &self.name, 80) {
            return Err(e);
        }
        proof {
            acc = acc + text_field(self@.name, 80);
        }
        assert(out@ =~= start + acc);
        self.position.write_to(out);
        proof {
            acc = acc + self@.position.to_bytes();
        }
        assert(out@ =~= start + acc);
        write_u32(out, self.field_of_view);
        proof {
            acc = acc + u32_bytes(self@.field_of_view);
        }
        assert(out@ =~= start + acc);
        write_u32(out, self.far_clipping_plane);
        proof {
            acc = acc + u32_bytes(self@.far_clipping_plane);
        }
        assert(out@ =~= start + acc);
        write_u32(out, self.near_clipping_plane);
        proof {
            acc = acc + u32_bytes(self@.near_clipping_plane);
        }
        assert(out@ =~= start + acc);
        self.target_position.write_to(out);
        proof {
            acc = acc + self@.target_position.to_bytes();
        }
        assert(out@ =~= start + acc);
        write_opt_block(out, KCTR_TAG, &self.translation);
        proof {
            acc = acc + opt_block_bytes(KCTR_TAG, self@.translation);
        }
        assert(out@ =~= start + acc);
        write_opt_block(out, KCRL_TAG, &self.rotation);
        proof {
            acc = acc + opt_block_bytes(KCRL_TAG, self@.rotation);
        }
        assert(out@ =~= start + acc);
        write_opt_block(out, KTTR_TAG, &self.target_translation);
        proof {
            acc = acc + opt_block_bytes(KTTR_TAG, self@.target_translation);
        }
        assert(out@ =~= start + acc);
        assert(acc == camera_bytes(self@));
        Ok(())
    }

}

impl BytesTotalSize for Camera {
    open spec fn model_bytes(m: CameraModel) -> Seq<u8> {
        camera_bytes(m)
    }

    fn total_bytes_size(&self) -> (r: usize) {
        proof {
            reveal(camera_bytes);
        }
        let mut r: usize = 0;
        let ghost mut acc: Seq<u8> = Seq::empty();
        let k: usize = 4;
        proof {
            lemma_u32_bytes(self.inclusive_size);
            lemma_sat_add(acc.len() as int, (u32_bytes(self@.inclusive_size)).len() as int);
            acc = acc + u32_bytes(self@.inclusive_size);
        }
        r = add_sat(r, k);
        let k: usize = 80;
        proof {
            lemma_text_field_len(self.name@, 80);
            lemma_sat_add(acc.len() as int, (text_field(self@.name, 80)).len() as int);
            acc = acc + text_field(self@.name, 80);
        }
        r = add_sat(r, k);
        let k: usize = Vec3::byte_width();
        proof {
            self.position.lemma_codec(Seq::empty(), 0);
            lemma_sat_add(acc.len() as int, (self@.position.to_bytes()).len() as int);
            acc = acc + self@.position.to_bytes();
        }
        r = add_sat(r, k);
        let k: usize = 4;
        proof {
            lemma_u32_bytes(self.field_of_view);
            lemma_sat_add(acc.len() as int, (u32_bytes(self@.field_of_view)).len() as int);
            acc = acc + u32_bytes(self@.field_of_view);
        }
        r = add_sat(r, k);
        let k: usize = 4;
        proof {
            lemma_u32_bytes(self.far_clipping_plane);
            lemma_sat_add(acc.len() as int, (u32_bytes(self@.far_clipping_plane)).len() as int);
            acc = acc + u32_bytes(self@.far_clipping_plane);
        }
        r = add_sat(r, k);
        let k: usize = 4;
        proof {
            lemma_u32_bytes(self.near_clipping_plane);
            lemma_sat_add(acc.len() as int, (u32_bytes(self@.near_clipping_plane)).len() as int);
            acc = acc + u32_bytes(self@.near_clipping_plane);
        }
        r = add_sat(r, k);
        let k: usize = Vec3::byte_width();
        proof {
            self.target_position.lemma_codec(Seq::empty(), 0);
            lemma_sat_add(acc.len() as int, (self@.target_position.to_bytes()).len() as int);
            acc = acc + self@.target_position.to_bytes();
        }
        r = add_sat(r, k);
        let k: usize = opt_block_size(&self.translation);
        proof {
            lemma_sat_add(acc.len() as int, (opt_block_bytes(KCTR_TAG, self@.translation)).len() as int);
            acc = acc + opt_block_bytes(KCTR_TAG, self@.translation);
        }
        r = add_sat(r, k);
        let k: usize = opt_block_size(&self.rotation);
        proof {
            lemma_sat_add(acc.len() as int, (opt_block_bytes(KCRL_TAG, self@.rotation)).len() as int);
            acc = acc + opt_block_bytes(KCRL_TAG, self@.rotation);
        }
        r = add_sat(r, k);
        let k: usize = opt_block_size(&self.target_translation);
        proof {
            lemma_sat_add(acc.len() as int, (opt_block_bytes(KTTR_TAG, self@.target_translation)).len() as int);
            acc = acc + opt_block_bytes(KTTR_TAG, self@.target_translation);
        }
        r = add_sat(r, k);
        assert(acc =~= camera_bytes(self@));
        r
    }
}

impl Inclusive for Camera {
    open spec fn declared(m: CameraModel) -> int {
        m.inclusive_size as int
    }

    fn declared_size(&self) -> (r: u64) {
        self.inclusive_size as u64
    }

    proof fn lemma_declared(m: CameraModel) {
        reveal(camera_bytes);
        lemma_u32_bytes(m.inclusive_size);
        lemma_u32_bytes(m.field_of_view);
        lemma_u32_bytes(m.far_clipping_plane);
        lemma_u32_bytes(m.near_clipping_plane);
    }
}

/// A run of `Camera` records, read while the sum of their declared sizes stays below `chunk_size`.
#[derive(PartialEq, Debug)]
pub struct CameraChunk {
    pub chunk_size: u32,
    pub data: Vec<Camera>,
}

/// The mathematical content of a `CameraChunk`.
pub struct CameraChunkModel {
    pub chunk_size: u32,
    pub data: Seq<CameraModel>,
}

impl View for CameraChunk {
    type V = CameraChunkModel;

    open spec fn view(&self) -> CameraChunkModel {
        CameraChunkModel {
            chunk_size: self.chunk_size,
            data: views(self.data@),
        }
    }
}

/// The bytes that encoding a `CameraChunk` writes.
#[verifier::opaque]
pub open spec fn camera_chunk_bytes(m: CameraChunkModel) -> Seq<u8> {
    u32_bytes(m.chunk_size)
    + records_bytes::<Camera>(m.data)
}

pub open spec fn camera_chunk_encodable(m: CameraChunkModel) -> bool {
    records_encodable::<Camera>(m.data)
}

/// A `CameraChunk` that decoding its encoding gives back.
pub open spec fn camera_chunk_wf(m: CameraChunkModel) -> bool {
    &&& records_wf::<Camera>(m.data)
    &&& m.chunk_size + 4 == camera_chunk_bytes(m).len()
}

/// Decoding a `CameraChunk` at `pos`: its model and the position after it.
#[verifier::opaque]
pub open spec fn parse_camera_chunk(b: Seq<u8>, pos: int) -> Result<(CameraChunkModel, int), FormatError> {
    if pos + 4 > b.len() {
        Err(FormatError::OutOfBounds)
    } else {
        match parse_inclusive::<Camera>(b, pos + 4, 0, u32_at(b, pos) as int) {
            Err(e) => Err(e),
            Ok((data, p_data)) => {
                let m = CameraChunkModel {
                    chunk_size: u32_at(b, pos),
                    data: data,
                };
                Ok((m, p_data))
            },
        }
    }
}

/// `m` with every declared size inside it recomputed from the content.
pub open spec fn camera_chunk_resized(m: CameraChunkModel) -> CameraChunkModel {
    CameraChunkModel { data: resized_seq::<Camera>(m.data), ..m }
}

impl Record for CameraChunk {
    open spec fn parse(b: Seq<u8>, pos: int) -> Result<(CameraChunkModel, int), FormatError> {
        parse_camera_chunk(b, pos)
    }

    open spec fn encodable(m: CameraChunkModel) -> bool {
        camera_chunk_encodable(m)
    }

    open spec fn wf(m: CameraChunkModel) -> bool {
        camera_chunk_wf(m)
    }

    open spec fn resized(m: CameraChunkModel) -> CameraChunkModel {
        camera_chunk_resized(m)
    }

    fn calculate_sizes(&mut self) {
        proof {
            reveal(camera_chunk_bytes);
        }
        proof {
            lemma_resized_seq::<Camera>(views(self.data@));
        }
        resize_records(&mut self.data);
    }

    proof fn lemma_resized(m: CameraChunkModel) {
        reveal(camera_chunk_bytes);
        lemma_resized_seq::<Camera>(m.data);
    }

    proof fn lemma_wf_encodable(m: CameraChunkModel) {
        lemma_records_wf_encodable::<Camera>(m.data);
    }

    proof fn lemma_round_trip(m: CameraChunkModel, b: Seq<u8>, pos: int) {
        let e = camera_chunk_bytes(m);
        let q1 = u32_bytes(m.chunk_size);
        let q2 = q1 + records_bytes::<Camera>(m.data);
        assert(q2 == e) by {
            reveal(camera_chunk_bytes);
        }
        lemma_u32_bytes(m.chunk_size);
        lemma_split(b, pos, q1, records_bytes::<Camera>(m.data));
        assert(b.subrange(pos, pos + 4) == u32_bytes(m.chunk_size));
        assert(u32_at(b, pos) == m.chunk_size);
        lemma_inclusive_round_trip::<Camera>(m.data, b, pos + q1.len(), 0);
        assert(parse_camera_chunk(b, pos) == Ok::<(CameraChunkModel, int), FormatError>((m, pos + e.len()))) by {
            reveal(parse_camera_chunk);
        }
    }

    fn decode(src: &[u8], pos: usize) -> (r: Result<(CameraChunk, usize), FormatError>) {
        proof {
            reveal(parse_camera_chunk);
        }
        let mut p: usize = pos;
        if src.len() - p < 4 {
            return Err(FormatError::OutOfBounds);
        }
        let chunk_size = read_u32(src, p);
        p = p + 4;
        let data = match read_inclusive::<Camera>(src, p, chunk_size) {
            Ok((v, q)) => {
                p = q;
                v
            },
            Err(e) => {
                return Err(e);
            },
        };
        let v = CameraChunk { chunk_size, data };
        Ok((v, p))
    }

    fn encode(&self, out: &mut Vec<u8>) -> (r: Result<(), FormatError>) {
        proof {
            reveal(camera_chunk_bytes);
        }
        let ghost start = out@;
        write_u32(out, self.chunk_size);
        let ghost mut acc = u32_bytes(self@.chunk_size);
        assert(out@ =~= start + acc);
        if let Err(e) = write_records(out, &self.data) {
            return Err(e);
        }
        proof {
            acc = acc + records_bytes::<Camera>(self@.data);
        }
        assert(out@ =~= start + acc);
        assert(acc == camera_chunk_bytes(self@));
        Ok(())
    }

}

impl BytesTotalSize for CameraChunk {
    open spec fn model_bytes(m: CameraChunkModel) -> Seq<u8> {
        camera_chunk_bytes(m)
    }

    fn total_bytes_size(&self) -> (r: usize) {
        proof {
            reveal(camera_chunk_bytes);
        }
        let mut r: usize = 0;
        let ghost mut acc: Seq<u8> = Seq::empty();
        let k: usize = 4;
        proof {
            lemma_u32_bytes(self.chunk_size);
            lemma_sat_add(acc.len() as int, (u32_bytes(self@.chunk_size)).len() as int);
            acc = acc + u32_bytes(self@.chunk_size);
        }
        r = add_sat(r, k);
        let k: usize = records_size(&self.data);
        proof {
            lemma_sat_add(acc.len() as int, (records_bytes::<Camera>(self@.data)).len() as int);
            acc = acc + records_bytes::<Camera>(self@.data);
        }
        r = add_sat(r, k);
        assert(acc =~= camera_chunk_bytes(self@));
        r
    }
}

/// `m` with `chunk_size` set to the encoded length without the size field itself.
pub open spec fn camera_chunk_sized(m: CameraChunkModel) -> CameraChunkModel {
    CameraChunkModel { chunk_size: (camera_chunk_bytes(m).len() - 4) as u32, ..m }
}

impl Chunk for CameraChunk {
    open spec fn sized(m: CameraChunkModel) -> CameraChunkModel {
        camera_chunk_sized(m)
    }

    open spec fn chunk_size_of(m: CameraChunkModel) -> u32 {
        m.chunk_size
    }

    proof fn lemma_sized_id(m: CameraChunkModel) {
    }

    proof fn lemma_chunk_min_len(m: CameraChunkModel) {
        reveal(camera_chunk_bytes);
        lemma_u32_bytes(m.chunk_size);
    }

    fn calculate_chunk_size(&mut self) {
        let n = self.total_bytes_size();
        self.chunk_size = (n - 4) as u32;
        proof {
            reveal(camera_chunk_bytes);
            lemma_u32_bytes(old(self).chunk_size);
            lemma_u32_bytes(self.chunk_size);
        }
    }
}

} // verus!
