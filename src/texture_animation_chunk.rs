//! Texture animations.

use crate::codec::{
    add_sat, lemma_join, lemma_sat_add, lemma_split, lemma_u32_bytes, read_u32, sat, u32_at,
    u32_bytes, write_u32,
};
use crate::consts::{KTAR_TAG, KTAS_TAG, KTAT_TAG};
use crate::data_types::{Vec3, Vec4};
use crate::error::FormatError;
use crate::record::{
    BytesTotalSize, Chunk, Inclusive, Record, lemma_inclusive_round_trip,
    lemma_records_wf_encodable, lemma_resized_seq, parse_inclusive, read_inclusive, records_bytes,
    records_encodable, records_size, records_wf, resize_records, resized_seq, views, write_records,
};
use crate::tracks::{
    Transform, TransformModel, lemma_opt_block_round_trip, opt_block_bytes, opt_block_size,
    opt_view, parse_transform, transform_wf, write_opt_block,
};
use vstd::prelude::*;

verus! {

broadcast use vstd::seq::group_seq_axioms;

/// Animation of texture coordinates.
#[derive(PartialEq, Debug)]
pub struct TextureAnimation {
    pub inclusive_size: u32,
    pub translation: Option<Transform<Vec3>>,
    pub rotation: Option<Transform<Vec4>>,
    pub scaling: Option<Transform<Vec3>>,
}

/// The mathematical content of a `TextureAnimation`.
pub struct TextureAnimationModel {
    pub inclusive_size: u32,
    pub translation: Option<TransformModel<Vec3>>,
    pub rotation: Option<TransformModel<Vec4>>,
    pub scaling: Option<TransformModel<Vec3>>,
}

impl View for TextureAnimation {
    type V = TextureAnimationModel;

    open spec fn view(&self) -> TextureAnimationModel {
        TextureAnimationModel {
            inclusive_size: self.inclusive_size,
            translation: opt_view(self.translation),
            rotation: opt_view(self.rotation),
            scaling: opt_view(self.scaling),
        }
    }
}

/// The bytes that encoding a `TextureAnimation` writes.
#[verifier::opaque]
pub open spec fn texture_animation_bytes(m: TextureAnimationModel) -> Seq<u8> {
    u32_bytes(m.inclusive_size)
    + opt_block_bytes(KTAT_TAG, m.translation)
    + opt_block_bytes(KTAR_TAG, m.rotation)
    + opt_block_bytes(KTAS_TAG, m.scaling)
}

pub open spec fn texture_animation_encodable(m: TextureAnimationModel) -> bool {
    true
}

/// A `TextureAnimation` that decoding its encoding gives back.
pub open spec fn texture_animation_wf(m: TextureAnimationModel) -> bool {
    &&& (m.translation matches Some(t) ==> transform_wf(t))
    &&& (m.rotation matches Some(t) ==> transform_wf(t))
    &&& (m.scaling matches Some(t) ==> transform_wf(t))
    &&& m.inclusive_size == texture_animation_bytes(m).len()
}

/// The optional sub-blocks of a `TextureAnimation` from `pos` on, read while the
/// position stays below `start + bound`; each one replaces the field of its tag.
pub open spec fn scan_texture_animation(b: Seq<u8>, start: int, bound: int, pos: int, acc: TextureAnimationModel) -> Result<
    (TextureAnimationModel, int),
    FormatError,
>
    decreases b.len() - pos,
{
    if pos - start >= bound {
        Ok((acc, pos))
    } else if pos + 4 > b.len() {
        Err(FormatError::OutOfBounds)
    } else {
        let tag = u32_at(b, pos);
        if tag == KTAT_TAG {
            match parse_transform::<Vec3>(b, pos + 4) {
                Err(e) => Err(e),
                Ok((t, q)) => if q <= pos || q > b.len() {
                    Err(FormatError::OutOfBounds)
                } else {
                    scan_texture_animation(
                        b,
                        start,
                        bound,
                        q,
                        TextureAnimationModel {
                            inclusive_size: acc.inclusive_size,
                            translation: Some(t),
                            rotation: acc.rotation,
                            scaling: acc.scaling,
                        },
                    )
                },
            }
        } else if tag == KTAR_TAG {
            match parse_transform::<Vec4>(b, pos + 4) {
                Err(e) => Err(e),
                Ok((t, q)) => if q <= pos || q > b.len() {
                    Err(FormatError::OutOfBounds)
                } else {
                    scan_texture_animation(
                        b,
                        start,
                        bound,
                        q,
                        TextureAnimationModel {
                            inclusive_size: acc.inclusive_size,
                            translation: acc.translation,
                            rotation: Some(t),
                            scaling: acc.scaling,
                        },
                    )
                },
            }
        } else if tag == KTAS_TAG {
            match parse_transform::<Vec3>(b, pos + 4) {
                Err(e) => Err(e),
                Ok((t, q)) => if q <= pos || q > b.len() {
                    Err(FormatError::OutOfBounds)
                } else {
                    scan_texture_animation(
                        b,
                        start,
                        bound,
                        q,
                        TextureAnimationModel {
                            inclusive_size: acc.inclusive_size,
                            translation: acc.translation,
                            rotation: acc.rotation,
                            scaling: Some(t),
                        },
                    )
                },
            }
        } else {
            Err(FormatError::UnknownSubTag(tag))
        }
    }
}

/// The sub-blocks of a well-formed `TextureAnimation` from the `KTAS` one on scan back into it.
proof fn lemma_texture_animation_scan_from_2(m: TextureAnimationModel, b: Seq<u8>, pos: int, o: int)
    requires
        m.scaling matches Some(t) ==> transform_wf(t),
        0 <= pos <= o,
        o + (opt_block_bytes(KTAS_TAG, m.scaling)).len() == pos + m.inclusive_size as int,
        o + (opt_block_bytes(KTAS_TAG, m.scaling)).len() <= b.len(),
        b.subrange(o, o + (opt_block_bytes(KTAS_TAG, m.scaling)).len())
            == opt_block_bytes(KTAS_TAG, m.scaling),
    ensures
        scan_texture_animation(b, pos, m.inclusive_size as int, o, TextureAnimationModel {
            scaling: None,
            ..m
        }) == Ok::<(TextureAnimationModel, int), FormatError>(
            (m, o + (opt_block_bytes(KTAS_TAG, m.scaling)).len()),
        ),
{
    lemma_opt_block_round_trip(KTAS_TAG, m.scaling, b, o);
    let e = o + (opt_block_bytes(KTAS_TAG, m.scaling)).len();
    assert(scan_texture_animation(b, pos, m.inclusive_size as int, e, m) == Ok::<(TextureAnimationModel, int), FormatError>((m, e)));
    if m.scaling is None {
        assert(TextureAnimationModel { scaling: None, ..m } == m);
    }
}

/// The sub-blocks of a well-formed `TextureAnimation` from the `KTAR` one on scan back into it.
proof fn lemma_texture_animation_scan_from_1(m: TextureAnimationModel, b: Seq<u8>, pos: int, o: int)
    requires
        m.rotation matches Some(t) ==> transform_wf(t),
        m.scaling matches Some(t) ==> transform_wf(t),
        0 <= pos <= o,
        o + (opt_block_bytes(KTAR_TAG, m.rotation) + opt_block_bytes(KTAS_TAG, m.scaling)).len()
            == pos + m.inclusive_size as int,
        o + (opt_block_bytes(KTAR_TAG, m.rotation) + opt_block_bytes(KTAS_TAG, m.scaling)).len() <= b.len(),
        b.subrange(o, o + (opt_block_bytes(KTAR_TAG, m.rotation) + opt_block_bytes(KTAS_TAG, m.scaling)).len())
            == opt_block_bytes(KTAR_TAG, m.rotation) + opt_block_bytes(KTAS_TAG, m.scaling),
    ensures
        scan_texture_animation(b, pos, m.inclusive_size as int, o, TextureAnimationModel {
            rotation: None,
            scaling: None,
            ..m
        }) == Ok::<(TextureAnimationModel, int), FormatError>(
            (m, o + (opt_block_bytes(KTAR_TAG, m.rotation) + opt_block_bytes(KTAS_TAG, m.scaling)).len()),
        ),
{
    lemma_split(b, o, opt_block_bytes(KTAR_TAG, m.rotation), opt_block_bytes(KTAS_TAG, m.scaling));
    lemma_opt_block_round_trip(KTAR_TAG, m.rotation, b, o);
    lemma_texture_animation_scan_from_2(m, b, pos, o + (opt_block_bytes(KTAR_TAG, m.rotation)).len());
    if m.rotation is None {
        assert(TextureAnimationModel {
            rotation: None,
            scaling: None,
            ..m
        } == TextureAnimationModel { scaling: None, ..m });
    }
}

/// The sub-blocks of a well-formed `TextureAnimation`, written in their fixed order,
/// scan back into it.
proof fn lemma_texture_animation_scan_from_0(m: TextureAnimationModel, b: Seq<u8>, pos: int, o: int)
    requires
        m.translation matches Some(t) ==> transform_wf(t),
        m.rotation matches Some(t) ==> transform_wf(t),
        m.scaling matches Some(t) ==> transform_wf(t),
        0 <= pos <= o,
        o + (opt_block_bytes(KTAT_TAG, m.translation) + (opt_block_bytes(KTAR_TAG, m.rotation) + opt_block_bytes(KTAS_TAG, m.scaling))).len()
            == pos + m.inclusive_size as int,
        o + (opt_block_bytes(KTAT_TAG, m.translation) + (opt_block_bytes(KTAR_TAG, m.rotation) + opt_block_bytes(KTAS_TAG, m.scaling))).len() <= b.len(),
        b.subrange(o, o + (opt_block_bytes(KTAT_TAG, m.translation) + (opt_block_bytes(KTAR_TAG, m.rotation) + opt_block_bytes(KTAS_TAG, m.scaling))).len())
            == opt_block_bytes(KTAT_TAG, m.translation) + (opt_block_bytes(KTAR_TAG, m.rotation) + opt_block_bytes(KTAS_TAG, m.scaling)),
    ensures
        scan_texture_animation(b, pos, m.inclusive_size as int, o, TextureAnimationModel {
            translation: None,
            rotation: None,
            scaling: None,
            ..m
        }) == Ok::<(TextureAnimationModel, int), FormatError>(
            (m, o + (opt_block_bytes(KTAT_TAG, m.translation) + (opt_block_bytes(KTAR_TAG, m.rotation) + opt_block_bytes(KTAS_TAG, m.scaling))).len()),
        ),
{
    lemma_split(b, o, opt_block_bytes(KTAT_TAG, m.translation), opt_block_bytes(KTAR_TAG, m.rotation) + opt_block_bytes(KTAS_TAG, m.scaling));
    lemma_opt_block_round_trip(KTAT_TAG, m.translation, b, o);
    lemma_texture_animation_scan_from_1(m, b, pos, o + (opt_block_bytes(KTAT_TAG, m.translation)).len());
    if m.translation is None {
        assert(TextureAnimationModel {
            translation: None,
            rotation: None,
            scaling: None,
            ..m
        } == TextureAnimationModel { rotation: None, scaling: None, ..m });
    }
}

/// Decoding a `TextureAnimation` at `pos`: its model and the position after it.
#[verifier::opaque]
pub open spec fn parse_texture_animation(b: Seq<u8>, pos: int) -> Result<(TextureAnimationModel, int), FormatError> {
    if pos + 4 > b.len() {
        Err(FormatError::OutOfBounds)
    } else {
        let m = TextureAnimationModel {
            inclusive_size: u32_at(b, pos),
            translation: None,
            rotation: None,
            scaling: None,
        };
        match scan_texture_animation(b, pos, m.inclusive_size as int, pos + 4, m) {
            Err(e) => Err(e),
            Ok((m2, q)) => {
                if sat(texture_animation_bytes(m2).len() as int) != m2.inclusive_size as usize {
                    Err(FormatError::SizeMismatch)
                } else {
                    Ok((m2, q))
                }
            },
        }
    }
}

/// A decoded `TextureAnimation` declares exactly the length that `total_bytes_size` reports.
pub proof fn lemma_texture_animation_size_checked(b: Seq<u8>, pos: int)
    ensures
        parse_texture_animation(b, pos) matches Ok((m, _)) ==> sat(texture_animation_bytes(m).len() as int)
            == m.inclusive_size as usize,
{
    reveal(parse_texture_animation);
}

/// A sub-block tag inside a `TextureAnimation` other than `KTAT`, `KTAR`, `KTAS` is refused.
pub proof fn lemma_texture_animation_unknown_tag(b: Seq<u8>, start: int, bound: int, pos: int, acc: TextureAnimationModel)
    requires
        pos - start < bound,
        pos + 4 <= b.len(),
    ensures
        ({
            let tag = u32_at(b, pos);
            !(tag == KTAT_TAG || tag == KTAR_TAG || tag == KTAS_TAG) ==> scan_texture_animation(b, start, bound, pos, acc)
                == Err::<(TextureAnimationModel, int), FormatError>(
                FormatError::UnknownSubTag(tag),
            )
        }),
{
}

/// `m` with every declared size inside it recomputed from the content.
pub open spec fn texture_animation_resized(m: TextureAnimationModel) -> TextureAnimationModel {
    let n = m;
    TextureAnimationModel { inclusive_size: texture_animation_bytes(n).len() as u32, ..n }
}

/// After its sizes are recomputed, a `TextureAnimation` declares exactly its encoded length.
pub proof fn lemma_texture_animation_resized_consistent(m: TextureAnimationModel)
    requires
        texture_animation_bytes(m).len() <= u32::MAX,
    ensures
        texture_animation_resized(m).inclusive_size
            == texture_animation_bytes(texture_animation_resized(m)).len(),
{
    reveal(texture_animation_bytes);
    lemma_u32_bytes(m.inclusive_size);
    lemma_u32_bytes(texture_animation_resized(m).inclusive_size);
    TextureAnimation::lemma_resized(m);
}

impl Record for TextureAnimation {
    open spec fn parse(b: Seq<u8>, pos: int) -> Result<(TextureAnimationModel, int), FormatError> {
        parse_texture_animation(b, pos)
    }

    open spec fn encodable(m: TextureAnimationModel) -> bool {
        texture_animation_encodable(m)
    }

    open spec fn wf(m: TextureAnimationModel) -> bool {
        texture_animation_wf(m)
    }

    open spec fn resized(m: TextureAnimationModel) -> TextureAnimationModel {
        texture_animation_resized(m)
    }

    fn calculate_sizes(&mut self) {
        proof {
            reveal(texture_animation_bytes);
        }
        let n = self.total_bytes_size();
        self.inclusive_size = n as u32;
    }

    proof fn lemma_resized(m: TextureAnimationModel) {
        reveal(texture_animation_bytes);
        lemma_u32_bytes(m.inclusive_size);
        lemma_u32_bytes(texture_animation_resized(m).inclusive_size);
    }

    proof fn lemma_wf_encodable(m: TextureAnimationModel) {
    }

    proof fn lemma_round_trip(m: TextureAnimationModel, b: Seq<u8>, pos: int) {
        let e = texture_animation_bytes(m);
        let q1 = u32_bytes(m.inclusive_size);
        let q2 = q1 + opt_block_bytes(KTAT_TAG, m.translation);
        let q3 = q2 + opt_block_bytes(KTAR_TAG, m.rotation);
        let q4 = q3 + opt_block_bytes(KTAS_TAG, m.scaling);
        assert(q4 == e) by {
            reveal(texture_animation_bytes);
        }
        lemma_u32_bytes(m.inclusive_size);
        lemma_split(b, pos, q3, opt_block_bytes(KTAS_TAG, m.scaling));
        lemma_split(b, pos, q2, opt_block_bytes(KTAR_TAG, m.rotation));
        lemma_split(b, pos, q1, opt_block_bytes(KTAT_TAG, m.translation));
        assert(b.subrange(pos, pos + 4) == u32_bytes(m.inclusive_size));
        assert(u32_at(b, pos) == m.inclusive_size);
        let r2 = opt_block_bytes(KTAS_TAG, m.scaling);
        lemma_join(b, pos + q2.len(), opt_block_bytes(KTAR_TAG, m.rotation), r2);
        let r1 = opt_block_bytes(KTAR_TAG, m.rotation) + r2;
        lemma_join(b, pos + q1.len(), opt_block_bytes(KTAT_TAG, m.translation), r1);
        lemma_texture_animation_scan_from_0(m, b, pos, pos + q1.len());
        assert(sat(e.len() as int) == m.inclusive_size as usize);
        assert(parse_texture_animation(b, pos) == Ok::<(TextureAnimationModel, int), FormatError>((m, pos + e.len()))) by {
            reveal(parse_texture_animation);
        }
    }

    #[verifier::loop_isolation(false)]
    fn decode(src: &[u8], pos: usize) -> (r: Result<(TextureAnimation, usize), FormatError>) {
        proof {
            reveal(parse_texture_animation);
        }
        let mut p: usize = pos;
        if src.len() - p < 4 {
            return Err(FormatError::OutOfBounds);
        }
        let inclusive_size = read_u32(src, p);
        p = p + 4;
        let mut v = TextureAnimation {
            inclusive_size,
            translation: None,
            rotation: None,
            scaling: None,
        };
        let ghost start_model = v@;
        let ghost p0 = p as int;
        while p - pos < v.inclusive_size as usize
            invariant
                pos <= p <= src.len(),
                scan_texture_animation(src@, pos as int, v.inclusive_size as int, p0, start_model)
                    == scan_texture_animation(
                    src@,
                    pos as int,
                    v.inclusive_size as int,
                    p as int,
                    v@,
                ),
                v.inclusive_size == start_model.inclusive_size,
            decreases src.len() - p,
        {
            if src.len() - p < 4 {
                return Err(FormatError::OutOfBounds);
            }
            let tag = read_u32(src, p);
            if tag == KTAT_TAG {
                match Transform::<Vec3>::decode(src, p + 4) {
                    Ok((t, q)) => {
                        v.translation = Some(t);
                        p = q;
                    },
                    Err(e) => {
                        return Err(e);
                    },
                }
            } else if tag == KTAR_TAG {
                match Transform::<Vec4>::decode(src, p + 4) {
                    Ok((t, q)) => {
                        v.rotation = Some(t);
                        p = q;
                    },
                    Err(e) => {
                        return Err(e);
                    },
                }
            } else if tag == KTAS_TAG {
                match Transform::<Vec3>::decode(src, p + 4) {
                    Ok((t, q)) => {
                        v.scaling = Some(t);
                        p = q;
                    },
                    Err(e) => {
                        return Err(e);
                    },
                }
            } else {
                return Err(FormatError::UnknownSubTag(tag));
            }
        }
        if v.total_bytes_size() != v.inclusive_size as usize {
            return Err(FormatError::SizeMismatch);
        }
        Ok((v, p))
    }

    fn encode(&self, out: &mut Vec<u8>) -> (r: Result<(), FormatError>) {
        proof {
            reveal(texture_animation_bytes);
        }
        let ghost start = out@;
        write_u32(out, self.inclusive_size);
        let ghost mut acc = u32_bytes(self@.inclusive_size);
        assert(out@ =~= start + acc);
        write_opt_block(out, KTAT_TAG, &self.translation);
        proof {
            acc = acc + opt_block_bytes(KTAT_TAG, self@.translation);
        }
        assert(out@ =~= start + acc);
        write_opt_block(out, KTAR_TAG, &self.rotation);
        proof {
            acc = acc + opt_block_bytes(KTAR_TAG, self@.rotation);
        }
        assert(out@ =~= start + acc);
        write_opt_block(out, KTAS_TAG, &self.scaling);
        proof {
            acc = acc + opt_block_bytes(KTAS_TAG, self@.scaling);
        }
        assert(out@ =~= start + acc);
        assert(acc == texture_animation_bytes(self@));
        Ok(())
    }

}

impl BytesTotalSize for TextureAnimation {
    open spec fn model_bytes(m: TextureAnimationModel) -> Seq<u8> {
        texture_animation_bytes(m)
    }

    fn total_bytes_size(&self) -> (r: usize) {
        proof {
            reveal(texture_animation_bytes);
        }
        let mut r: usize = 0;
        let ghost mut acc: Seq<u8> = Seq::empty();
        let k: usize = 4;
        proof {
            lemma_u32_bytes(self.inclusive_size);
            lemma_sat_add(acc.len() as int, (u32_bytes(self@.inclusive_size)).len() as int);
            acc = acc + u32_bytes(self@.inclusive_size);
        }
        r = add_sat(r, k);
        let k: usize = opt_block_size(&self.translation);
        proof {
            lemma_sat_add(acc.len() as int, (opt_block_bytes(KTAT_TAG, self@.translation)).len() as int);
            acc = acc + opt_block_bytes(KTAT_TAG, self@.translation);
        }
        r = add_sat(r, k);
        let k: usize = opt_block_size(&self.rotation);
        proof {
            lemma_sat_add(acc.len() as int, (opt_block_bytes(KTAR_TAG, self@.rotation)).len() as int);
            acc = acc + opt_block_bytes(KTAR_TAG, self@.rotation);
        }
        r = add_sat(r, k);
        let k: usize = opt_block_size(&self.scaling);
        proof {
            lemma_sat_add(acc.len() as int, (opt_block_bytes(KTAS_TAG, self@.scaling)).len() as int);
            acc = acc + opt_block_bytes(KTAS_TAG, self@.scaling);
        }
        r = add_sat(r, k);
        assert(acc =~= texture_animation_bytes(self@));
        r
    }
}

impl Inclusive for TextureAnimation {
    open spec fn declared(m: TextureAnimationModel) -> int {
        m.inclusive_size as int
    }

    fn declared_size(&self) -> (r: u64) {
        self.inclusive_size as u64
    }

    proof fn lemma_declared(m: TextureAnimationModel) {
        reveal(texture_animation_bytes);
        lemma_u32_bytes(m.inclusive_size);
    }
}

/// A run of `TextureAnimation` records, read while the sum of their declared sizes stays below `chunk_size`.
#[derive(PartialEq, Debug)]
pub struct TextureAnimationChunk {
    pub chunk_size: u32,
    pub data: Vec<TextureAnimation>,
}

/// The mathematical content of a `TextureAnimationChunk`.
pub struct TextureAnimationChunkModel {
    pub chunk_size: u32,
    pub data: Seq<TextureAnimationModel>,
}

impl View for TextureAnimationChunk {
    type V = TextureAnimationChunkModel;

    open spec fn view(&self) -> TextureAnimationChunkModel {
        TextureAnimationChunkModel {
            chunk_size: self.chunk_size,
            data: views(self.data@),
        }
    }
}

/// The bytes that encoding a `TextureAnimationChunk` writes.
#[verifier::opaque]
pub open spec fn texture_animation_chunk_bytes(m: TextureAnimationChunkModel) -> Seq<u8> {
    u32_bytes(m.chunk_size)
    + records_bytes::<TextureAnimation>(m.data)
}

pub open spec fn texture_animation_chunk_encodable(m: TextureAnimationChunkModel) -> bool {
    records_encodable::<TextureAnimation>(m.data)
}

/// A `TextureAnimationChunk` that decoding its encoding gives back.
pub open spec fn texture_animation_chunk_wf(m: TextureAnimationChunkModel) -> bool {
    &&& records_wf::<TextureAnimation>(m.data)
    &&& m.chunk_size + 4 == texture_animation_chunk_bytes(m).len()
}

/// Decoding a `TextureAnimationChunk` at `pos`: its model and the position after it.
#[verifier::opaque]
pub open spec fn parse_texture_animation_chunk(b: Seq<u8>, pos: int) -> Result<(TextureAnimationChunkModel, int), FormatError> {
    if pos + 4 > b.len() {
        Err(FormatError::OutOfBounds)
    } else {
        match parse_inclusive::<TextureAnimation>(b, pos + 4, 0, u32_at(b, pos) as int) {
            Err(e) => Err(e),
            Ok((data, p_data)) => {
                let m = TextureAnimationChunkModel {
                    chunk_size: u32_at(b, pos),
                    data: data,
                };
                Ok((m, p_data))
            },
        }
    }
}

/// `m` with every declared size inside it recomputed from the content.
pub open spec fn texture_animation_chunk_resized(m: TextureAnimationChunkModel) -> TextureAnimationChunkModel {
    TextureAnimationChunkModel { data: resized_seq::<TextureAnimation>(m.data), ..m }
}

impl Record for TextureAnimationChunk {
    open spec fn parse(b: Seq<u8>, pos: int) -> Result<(TextureAnimationChunkModel, int), FormatError> {
        parse_texture_animation_chunk(b, pos)
    }

    open spec fn encodable(m: TextureAnimationChunkModel) -> bool {
        texture_animation_chunk_encodable(m)
    }

    open spec fn wf(m: TextureAnimationChunkModel) -> bool {
        texture_animation_chunk_wf(m)
    }

    open spec fn resized(m: TextureAnimationChunkModel) -> TextureAnimationChunkModel {
        texture_animation_chunk_resized(m)
    }

    fn calculate_sizes(&mut self) {
        proof {
            reveal(texture_animation_chunk_bytes);
        }
        proof {
            lemma_resized_seq::<TextureAnimation>(views(self.data@));
        }
        resize_records(&mut self.data);
    }

    proof fn lemma_resized(m: TextureAnimationChunkModel) {
        reveal(texture_animation_chunk_bytes);
        lemma_resized_seq::<TextureAnimation>(m.data);
    }

    proof fn lemma_wf_encodable(m: TextureAnimationChunkModel) {
        lemma_records_wf_encodable::<TextureAnimation>(m.data);
    }

    proof fn lemma_round_trip(m: TextureAnimationChunkModel, b: Seq<u8>, pos: int) {
        let e = texture_animation_chunk_bytes(m);
        let q1 = u32_bytes(m.chunk_size);
        let q2 = q1 + records_bytes::<TextureAnimation>(m.data);
        assert(q2 == e) by {
            reveal(texture_animation_chunk_bytes);
        }
        lemma_u32_bytes(m.chunk_size);
        lemma_split(b, pos, q1, records_bytes::<TextureAnimation>(m.data));
        assert(b.subrange(pos, pos + 4) == u32_bytes(m.chunk_size));
        assert(u32_at(b, pos) == m.chunk_size);
        lemma_inclusive_round_trip::<TextureAnimation>(m.data, b, pos + q1.len(), 0);
        assert(parse_texture_animation_chunk(b, pos) == Ok::<(TextureAnimationChunkModel, int), FormatError>((m, pos + e.len()))) by {
            reveal(parse_texture_animation_chunk);
        }
    }

    fn decode(src: &[u8], pos: usize) -> (r: Result<(TextureAnimationChunk, usize), FormatError>) {
        proof {
            reveal(parse_texture_animation_chunk);
        }
        let mut p: usize = pos;
        if src.len() - p < 4 {
            return Err(FormatError::OutOfBounds);
        }
        let chunk_size = read_u32(src, p);
        p = p + 4;
        let data = match read_inclusive::<TextureAnimation>(src, p, chunk_size) {
            Ok((v, q)) => {
                p = q;
                v
            },
            Err(e) => {
                return Err(e);
            },
        };
        let v = TextureAnimationChunk { chunk_size, data };
        Ok((v, p))
    }

    fn encode(&self, out: &mut Vec<u8>) -> (r: Result<(), FormatError>) {
        proof {
            reveal(texture_animation_chunk_bytes);
        }
        let ghost start = out@;
        write_u32(out, self.chunk_size);
        let ghost mut acc = u32_bytes(self@.chunk_size);
        assert(out@ =~= start + acc);
        if let Err(e) = write_records(out, &self.data) {
            return Err(e);
        }
        proof {
            acc = acc + records_bytes::<TextureAnimation>(self@.data);
        }
        assert(out@ =~= start + acc);
        assert(acc == texture_animation_chunk_bytes(self@));
        Ok(())
    }

}

impl BytesTotalSize for TextureAnimationChunk {
    open spec fn model_bytes(m: TextureAnimationChunkModel) -> Seq<u8> {
        texture_animation_chunk_bytes(m)
    }

    fn total_bytes_size(&self) -> (r: usize) {
        proof {
            reveal(texture_animation_chunk_bytes);
        }
        let mut r: usize = 0;
        let ghost mut acc: Seq<u8> = Seq::empty();
        let k: usize = 4;
        proof {
            lemma_u32_bytes(self.chunk_size);
            lemma_sat_add(acc.len() as int, (u32_bytes(self@.chunk_size)).len() as int);
            acc = acc + u32_bytes(self@.chunk_size);
        }
        r = add_sat(r, k);
        let k: usize = records_size(&self.data);
        proof {
            lemma_sat_add(acc.len() as int, (records_bytes::<TextureAnimation>(self@.data)).len() as int);
            acc = acc + records_bytes::<TextureAnimation>(self@.data);
        }
        r = add_sat(r, k);
        assert(acc =~= texture_animation_chunk_bytes(self@));
        r
    }
}

/// `m` with `chunk_size` set to the encoded length without the size field itself.
pub open spec fn texture_animation_chunk_sized(m: TextureAnimationChunkModel) -> TextureAnimationChunkModel {
    TextureAnimationChunkModel {
        chunk_size: (texture_animation_chunk_bytes(m).len() - 4) as u32,
        ..m
    }
}

impl Chunk for TextureAnimationChunk {
    open spec fn sized(m: TextureAnimationChunkModel) -> TextureAnimationChunkModel {
        texture_animation_chunk_sized(m)
    }

    open spec fn chunk_size_of(m: TextureAnimationChunkModel) -> u32 {
        m.chunk_size
    }

    proof fn lemma_sized_id(m: TextureAnimationChunkModel) {
    }

    proof fn lemma_chunk_min_len(m: TextureAnimationChunkModel) {
        reveal(texture_animation_chunk_bytes);
        lemma_u32_bytes(m.chunk_size);
    }

    fn calculate_chunk_size(&mut self) {
        let n = self.total_bytes_size();
        self.chunk_size = (n - 4) as u32;
        proof {
            reveal(texture_animation_chunk_bytes);
            lemma_u32_bytes(old(self).chunk_size);
            lemma_u32_bytes(self.chunk_size);
        }
    }
}

} // verus!
