//! Geoset animations.

use crate::codec::{
    Element, add_sat, lemma_join, lemma_sat_add, lemma_split, lemma_u32_bytes, read_u32, sat,
    u32_at, u32_bytes, write_u32,
};
use crate::consts::{KGAC_TAG, KGAO_TAG};
use crate::data_types::Color;
use crate::error::FormatError;
use crate::record::{
    BytesTotalSize, Chunk, Inclusive, Record, lemma_inclusive_round_trip,
    lemma_records_wf_encodable, lemma_resized_seq, parse_inclusive, read_inclusive, records_bytes,
    records_encodable, records_size, records_wf, resize_records, resized_seq, views, write_records,
};
use crate::tracks::{
    Transform, TransformModel, lemma_opt_block_round_trip, opt_block_bytes, opt_block_size,
    opt_view, parse_transform, transform_wf, write_opt_block,
};
use vstd::prelude::*;

verus! {

broadcast use vstd::seq::group_seq_axioms;

/// Colour and alpha animation of a geoset. Float fields hold IEEE-754 bit patterns.
#[derive(PartialEq, Debug)]
pub struct GeosetAnimation {
    pub inclusive_size: u32,
    pub alpha: u32,
    pub flags: u32,
    pub color: Color,
    pub geoset_id: u32,
    pub geoset_alpha: Option<Transform<u32>>,
    pub geoset_color: Option<Transform<Color>>,
}

/// The mathematical content of a `GeosetAnimation`.
pub struct GeosetAnimationModel {
    pub inclusive_size: u32,
    pub alpha: u32,
    pub flags: u32,
    pub color: Color,
    pub geoset_id: u32,
    pub geoset_alpha: Option<TransformModel<u32>>,
    pub geoset_color: Option<TransformModel<Color>>,
}

impl View for GeosetAnimation {
    type V = GeosetAnimationModel;

    open spec fn view(&self) -> GeosetAnimationModel {
        GeosetAnimationModel {
            inclusive_size: self.inclusive_size,
            alpha: self.alpha,
            flags: self.flags,
            color: self.color,
            geoset_id: self.geoset_id,
            geoset_alpha: opt_view(self.geoset_alpha),
            geoset_color: opt_view(self.geoset_color),
        }
    }
}

/// The bytes that encoding a `GeosetAnimation` writes.
#[verifier::opaque]
pub open spec fn geoset_animation_bytes(m: GeosetAnimationModel) -> Seq<u8> {
    u32_bytes(m.inclusive_size)
    + u32_bytes(m.alpha)
    + u32_bytes(m.flags)
    + m.color.to_bytes()
    + u32_bytes(m.geoset_id)
    + opt_block_bytes(KGAO_TAG, m.geoset_alpha)
    + opt_block_bytes(KGAC_TAG, m.geoset_color)
}

pub open spec fn geoset_animation_encodable(m: GeosetAnimationModel) -> bool {
    true
}

/// A `GeosetAnimation` that decoding its encoding gives back.
pub open spec fn geoset_animation_wf(m: GeosetAnimationModel) -> bool {
    &&& (m.geoset_alpha matches Some(t) ==> transform_wf(t))
    &&& (m.geoset_color matches Some(t) ==> transform_wf(t))
    &&& m.inclusive_size == geoset_animation_bytes(m).len()
}

/// The optional sub-blocks of a `GeosetAnimation` from `pos` on, read while the
/// position stays below `start + bound`; each one replaces the field of its tag.
pub open spec fn scan_geoset_animation(b: Seq<u8>, start: int, bound: int, pos: int, acc: GeosetAnimationModel) -> Result<
    (GeosetAnimationModel, int),
    FormatError,
>
    decreases b.len() - pos,
{
    if pos - start >= bound {
        Ok((acc, pos))
    } else if pos + 4 > b.len() {
        Err(FormatError::OutOfBounds)
    } else {
        let tag = u32_at(b, pos);
        if tag == KGAO_TAG {
            match parse_transform::<u32>(b, pos + 4) {
                Err(e) => Err(e),
                Ok((t, q)) => if q <= pos || q > b.len() {
                    Err(FormatError::OutOfBounds)
                } else {
                    scan_geoset_animation(
                        b,
                        start,
                        bound,
                        q,
                        GeosetAnimationModel {
                            inclusive_size: acc.inclusive_size,
                            alpha: acc.alpha,
                            flags: acc.flags,
                            color: acc.color,
                            geoset_id: acc.geoset_id,
                            geoset_alpha: Some(t),
                            geoset_color: acc.geoset_color,
                        },
                    )
                },
            }
        } else if tag == KGAC_TAG {
            match parse_transform::<Color>(b, pos + 4) {
                Err(e) => Err(e),
                Ok((t, q)) => if q <= pos || q > b.len() {
                    Err(FormatError::OutOfBounds)
                } else {
                    scan_geoset_animation(
                        b,
                        start,
                        bound,
                        q,
                        GeosetAnimationModel {
                            inclusive_size: acc.inclusive_size,
                            alpha: acc.alpha,
                            flags: acc.flags,
                            color: acc.color,
                            geoset_id: acc.geoset_id,
                            geoset_alpha: acc.geoset_alpha,
                            geoset_color: Some(t),
                        },
                    )
                },
            }
        } else {
            Err(FormatError::UnknownSubTag(tag))
        }
    }
}

/// The sub-blocks of a well-formed `GeosetAnimation` from the `KGAC` one on scan back into it.
proof fn lemma_geoset_animation_scan_from_1(m: GeosetAnimationModel, b: Seq<u8>, pos: int, o: int)
    requires
        m.geoset_color matches Some(t) ==> transform_wf(t),
        0 <= pos <= o,
        o + (opt_block_bytes(KGAC_TAG, m.geoset_color)).len() == pos + m.inclusive_size as int,
        o + (opt_block_bytes(KGAC_TAG, m.geoset_color)).len() <= b.len(),
        b.subrange(o, o + (opt_block_bytes(KGAC_TAG, m.geoset_color)).len())
            == opt_block_bytes(KGAC_TAG, m.geoset_color),
    ensures
        scan_geoset_animation(b, pos, m.inclusive_size as int, o, GeosetAnimationModel {
            geoset_color: None,
            ..m
        }) == Ok::<(GeosetAnimationModel, int), FormatError>(
            (m, o + (opt_block_bytes(KGAC_TAG, m.geoset_color)).len()),
        ),
{
    lemma_opt_block_round_trip(KGAC_TAG, m.geoset_color, b, o);
    let e = o + (opt_block_bytes(KGAC_TAG, m.geoset_color)).len();
    assert(scan_geoset_animation(b, pos, m.inclusive_size as int, e, m) == Ok::<(GeosetAnimationModel, int), FormatError>((m, e)));
    if m.geoset_color is None {
        assert(GeosetAnimationModel { geoset_color: None, ..m } == m);
    }
}

/// The sub-blocks of a well-formed `GeosetAnimation`, written in their fixed order,
/// scan back into it.
proof fn lemma_geoset_animation_scan_from_0(m: GeosetAnimationModel, b: Seq<u8>, pos: int, o: int)
    requires
        m.geoset_alpha matches Some(t) ==> transform_wf(t),
        m.geoset_color matches Some(t) ==> transform_wf(t),
        0 <= pos <= o,
        o + (opt_block_bytes(KGAO_TAG, m.geoset_alpha) + opt_block_bytes(KGAC_TAG, m.geoset_color)).len()
            == pos + m.inclusive_size as int,
        o + (opt_block_bytes(KGAO_TAG, m.geoset_alpha) + opt_block_bytes(KGAC_TAG, m.geoset_color)).len() <= b.len(),
        b.subrange(o, o + (opt_block_bytes(KGAO_TAG, m.geoset_alpha) + opt_block_bytes(KGAC_TAG, m.geoset_color)).len())
            == opt_block_bytes(KGAO_TAG, m.geoset_alpha) + opt_block_bytes(KGAC_TAG, m.geoset_color),
    ensures
        scan_geoset_animation(b, pos, m.inclusive_size as int, o, GeosetAnimationModel {
            geoset_alpha: None,
            geoset_color: None,
            ..m
        }) == Ok::<(GeosetAnimationModel, int), FormatError>(
            (m, o + (opt_block_bytes(KGAO_TAG, m.geoset_alpha) + opt_block_bytes(KGAC_TAG, m.geoset_color)).len()),
        ),
{
    lemma_split(b, o, opt_block_bytes(KGAO_TAG, m.geoset_alpha), opt_block_bytes(KGAC_TAG, m.geoset_color));
    lemma_opt_block_round_trip(KGAO_TAG, m.geoset_alpha, b, o);
    lemma_geoset_animation_scan_from_1(m, b, pos, o + (opt_block_bytes(KGAO_TAG, m.geoset_alpha)).len());
    if m.geoset_alpha is None {
        assert(GeosetAnimationModel {
            geoset_alpha: None,
            geoset_color: None,
            ..m
        } == GeosetAnimationModel { geoset_color: None, ..m });
    }
}

/// Decoding a `GeosetAnimation` at `pos`: its model and the position after it.
#[verifier::opaque]
pub open spec fn parse_geoset_animation(b: Seq<u8>, pos: int) -> Result<(GeosetAnimationModel, int), FormatError> {
    if pos + 28 > b.len() {
        Err(FormatError::OutOfBounds)
    } else {
        let m = GeosetAnimationModel {
            inclusive_size: u32_at(b, pos),
            alpha: u32_at(b, pos + 4),
            flags: u32_at(b, pos + 8),
            color: Color::parse_at(b, pos + 12),
            geoset_id: u32_at(b, pos + 24),
            geoset_alpha: None,
            geoset_color: None,
        };
        match scan_geoset_animation(b, pos, m.inclusive_size as int, pos + 28, m) {
            Err(e) => Err(e),
            Ok((m2, q)) => {
                if sat(geoset_animation_bytes(m2).len() as int) != m2.inclusive_size as usize {
                    Err(FormatError::SizeMismatch)
                } else {
                    Ok((m2, q))
                }
            },
        }
    }
}

/// A decoded `GeosetAnimation` declares exactly the length that `total_bytes_size` reports.
pub proof fn lemma_geoset_animation_size_checked(b: Seq<u8>, pos: int)
    ensures
        parse_geoset_animation(b, pos) matches Ok((m, _)) ==> sat(geoset_animation_bytes(m).len() as int)
            == m.inclusive_size as usize,
{
    reveal(parse_geoset_animation);
}

/// A sub-block tag inside a `GeosetAnimation` other than `KGAO`, `KGAC` is refused.
pub proof fn lemma_geoset_animation_unknown_tag(b: Seq<u8>, start: int, bound: int, pos: int, acc: GeosetAnimationModel)
    requires
        pos - start < bound,
        pos + 4 <= b.len(),
    ensures
        ({
            let tag = u32_at(b, pos);
            !(tag == KGAO_TAG || tag == KGAC_TAG) ==> scan_geoset_animation(b, start, bound, pos, acc)
                == Err::<(GeosetAnimationModel, int), FormatError>(
                FormatError::UnknownSubTag(tag),
            )
        }),
{
}

/// `m` with every declared size inside it recomputed from the content.
pub open spec fn geoset_animation_resized(m: GeosetAnimationModel) -> GeosetAnimationModel {
    let n = m;
    GeosetAnimationModel { inclusive_size: geoset_animation_bytes(n).len() as u32, ..n }
}

/// After its sizes are recomputed, a `GeosetAnimation` declares exactly its encoded length.
pub proof fn lemma_geoset_animation_resized_consistent(m: GeosetAnimationModel)
    requires
        geoset_animation_bytes(m).len() <= u32::MAX,
    ensures
        geoset_animation_resized(m).inclusive_size
            == geoset_animation_bytes(geoset_animation_resized(m)).len(),
{
    reveal(geoset_animation_bytes);
    lemma_u32_bytes(m.inclusive_size);
    lemma_u32_bytes(geoset_animation_resized(m).inclusive_size);
    GeosetAnimation::lemma_resized(m);
}

impl Record for GeosetAnimation {
    open spec fn parse(b: Seq<u8>, pos: int) -> Result<(GeosetAnimationModel, int), FormatError> {
        parse_geoset_animation(b, pos)
    }

    open spec fn encodable(m: GeosetAnimationModel) -> bool {
        geoset_animation_encodable(m)
    }

    open spec fn wf(m: GeosetAnimationModel) -> bool {
        geoset_animation_wf(m)
    }

    open spec fn resized(m: GeosetAnimationModel) -> GeosetAnimationModel {
        geoset_animation_resized(m)
    }

    fn calculate_sizes(&mut self) {
        proof {
            reveal(geoset_animation_bytes);
        }
        let n = self.total_bytes_size();
        self.inclusive_size = n as u32;
    }

    proof fn lemma_resized(m: GeosetAnimationModel) {
        reveal(geoset_animation_bytes);
        lemma_u32_bytes(m.inclusive_size);
        lemma_u32_bytes(geoset_animation_resized(m).inclusive_size);
    }

    proof fn lemma_wf_encodable(m: GeosetAnimationModel) {
    }

    proof fn lemma_round_trip(m: GeosetAnimationModel, b: Seq<u8>, pos: int) {
        let e = geoset_animation_bytes(m);
        let q1 = u32_bytes(m.inclusive_size);
        let q2 = q1 + u32_bytes(m.alpha);
        let q3 = q2 + u32_bytes(m.flags);
        let q4 = q3 + m.color.to_bytes();
        let q5 = q4 + u32_bytes(m.geoset_id);
        let q6 = q5 + opt_block_bytes(KGAO_TAG, m.geoset_alpha);
        let q7 = q6 + opt_block_bytes(KGAC_TAG, m.geoset_color);
        assert(q7 == e) by {
            reveal(geoset_animation_bytes);
        }
        lemma_u32_bytes(m.inclusive_size);
        lemma_u32_bytes(m.alpha);
        lemma_u32_bytes(m.flags);
        m.color.lemma_codec(Seq::empty(), 0);
        lemma_u32_bytes(m.geoset_id);
        lemma_split(b, pos, q6, opt_block_bytes(KGAC_TAG, m.geoset_color));
        lemma_split(b, pos, q5, opt_block_bytes(KGAO_TAG, m.geoset_alpha));
        lemma_split(b, pos, q4, u32_bytes(m.geoset_id));
        lemma_split(b, pos, q3, m.color.to_bytes());
        lemma_split(b, pos, q2, u32_bytes(m.flags));
        lemma_split(b, pos, q1, u32_bytes(m.alpha));
        assert(b.subrange(pos, pos + 4) == u32_bytes(m.inclusive_size));
        assert(u32_at(b, pos) == m.inclusive_size);
        assert(b.subrange(pos + q1.len(), pos + q1.len() + 4) == u32_bytes(m.alpha));
        assert(u32_at(b, pos + q1.len()) == m.alpha);
        assert(b.subrange(pos + q2.len(), pos + q2.len() + 4) == u32_bytes(m.flags));
        assert(u32_at(b, pos + q2.len()) == m.flags);
        assert(b.subrange(pos + q3.len(), pos + q3.len() + 12) == m.color.to_bytes());
        m.color.lemma_codec(b, pos + q3.len());
        assert(b.subrange(pos + q4.len(), pos + q4.len() + 4) == u32_bytes(m.geoset_id));
        assert(u32_at(b, pos + q4.len()) == m.geoset_id);
        let r1 = opt_block_bytes(KGAC_TAG, m.geoset_color);
        lemma_join(b, pos + q5.len(), opt_block_bytes(KGAO_TAG, m.geoset_alpha), r1);
        lemma_geoset_animation_scan_from_0(m, b, pos, pos + q5.len());
        assert(sat(e.len() as int) == m.inclusive_size as usize);
        assert(parse_geoset_animation(b, pos) == Ok::<(GeosetAnimationModel, int), FormatError>((m, pos + e.len()))) by {
            reveal(parse_geoset_animation);
        }
    }

    #[verifier::loop_isolation(false)]
    fn decode(src: &[u8], pos: usize) -> (r: Result<(GeosetAnimation, usize), FormatError>) {
        proof {
            reveal(parse_geoset_animation);
        }
        let mut p: usize = pos;
        if src.len() - p < 28 {
            return Err(FormatError::OutOfBounds);
        }
        let inclusive_size = read_u32(src, p);
        let alpha = read_u32(src, p + 4);
        let flags = read_u32(src, p + 8);
        let color = Color::read_at(src, p + 12);
        let geoset_id = read_u32(src, p + 24);
        p = p + 28;
        let mut v = GeosetAnimation {
            inclusive_size,
            alpha,
            flags,
            color,
            geoset_id,
            geoset_alpha: None,
            geoset_color: None,
        };
        let ghost start_model = v@;
        let ghost p0 = p as int;
        while p - pos < v.inclusive_size as usize
            invariant
                pos <= p <= src.len(),
                scan_geoset_animation(src@, pos as int, v.inclusive_size as int, p0, start_model)
                    == scan_geoset_animation(
                    src@,
                    pos as int,
                    v.inclusive_size as int,
                    p as int,
                    v@,
                ),
                v.inclusive_size == start_model.inclusive_size,
            decreases src.len() - p,
        {
            if src.len() - p < 4 {
                return Err(FormatError::OutOfBounds);
            }
            let tag = read_u32(src, p);
            if tag == KGAO_TAG {
                match Transform::<u32>::decode(src, p + 4) {
                    Ok((t, q)) => {
                        v.geoset_alpha = Some(t);
                        p = q;
                    },
                    Err(e) => {
                        return Err(e);
                    },
                }
            } else if tag == KGAC_TAG {
                match Transform::<Color>::decode(src, p + 4) {
                    Ok((t, q)) => {
                        v.geoset_color = Some(t);
                        p = q;
                    },
                    Err(e) => {
                        return Err(e);
                    },
                }
            } else {
                return Err(FormatError::UnknownSubTag(tag));
            }
        }
        if v.total_bytes_size() != v.inclusive_size as usize {
            return Err(FormatError::SizeMismatch);
        }
        Ok((v, p))
    }

    fn encode(&self, out: &mut Vec<u8>) -> (r: Result<(), FormatError>) {
        proof {
            reveal(geoset_animation_bytes);
        }
        let ghost start = out@;
        write_u32(out, self.inclusive_size);
        let ghost mut acc = u32_bytes(self@.inclusive_size);
        assert(out@ =~= start + acc);
        write_u32(out, self.alpha);
        proof {
            acc = acc + u32_bytes(self@.alpha);
        }
        assert(out@ =~= start + acc);
        write_u32(out, self.flags);
        proof {
            acc = acc + u32_bytes(self@.flags);
        }
        assert(out@ =~= start + acc);
        self.color.write_to(out);
        proof {
            acc = acc + self@.color.to_bytes();
        }
        assert(out@ =~= start + acc);
        write_u32(out, self.geoset_id);
        proof {
            acc = acc + u32_bytes(self@.geoset_id);
        }
        assert(out@ =~= start + acc);
        write_opt_block(out, KGAO_TAG, &self.geoset_alpha);
        proof {
            acc = acc + opt_block_bytes(KGAO_TAG, self@.geoset_alpha);
        }
        assert(out@ =~= start + acc);
        write_opt_block(out, KGAC_TAG, &self.geoset_color);
        proof {
            acc = acc + opt_block_bytes(KGAC_TAG, self@.geoset_color);
        }
        assert(out@ =~= start + acc);
        assert(acc == geoset_animation_bytes(self@));
        Ok(())
    }

}

impl BytesTotalSize for GeosetAnimation {
    open spec fn model_bytes(m: GeosetAnimationModel) -> Seq<u8> {
        geoset_animation_bytes(m)
    }

    fn total_bytes_size(&self) -> (r: usize) {
        proof {
            reveal(geoset_animation_bytes);
        }
        let mut r: usize = 0;
        let ghost mut acc: Seq<u8> = Seq::empty();
        let k: usize = 4;
        proof {
            lemma_u32_bytes(self.inclusive_size);
            lemma_sat_add(acc.len() as int, (u32_bytes(self@.inclusive_size)).len() as int);
            acc = acc + u32_bytes(self@.inclusive_size);
        }
        r = add_sat(r, k);
        let k: usize = 4;
        proof {
            lemma_u32_bytes(self.alpha);
            lemma_sat_add(acc.len() as int, (u32_bytes(self@.alpha)).len() as int);
            acc = acc + u32_bytes(self@.alpha);
        }
        r = add_sat(r, k);
        let k: usize = 4;
        proof {
            lemma_u32_bytes(self.flags);
            lemma_sat_add(acc.len() as int, (u32_bytes(self@.flags)).len() as int);
            acc = acc + u32_bytes(self@.flags);
        }
        r = add_sat(r, k);
        let k: usize = Color::byte_width();
        proof {
            self.color.lemma_codec(Seq::empty(), 0);
            lemma_sat_add(acc.len() as int, (self@.color.to_bytes()).len() as int);
            acc = acc + self@.color.to_bytes();
        }
        r = add_sat(r, k);
        let k: usize = 4;
        proof {
            lemma_u32_bytes(self.geoset_id);
            lemma_sat_add(acc.len() as int, (u32_bytes(self@.geoset_id)).len() as int);
            acc = acc + u32_bytes(self@.geoset_id);
        }
        r = add_sat(r, k);
        let k: usize = opt_block_size(&self.geoset_alpha);
        proof {
            lemma_sat_add(acc.len() as int, (opt_block_bytes(KGAO_TAG, self@.geoset_alpha)).len() as int);
            acc = acc + opt_block_bytes(KGAO_TAG, self@.geoset_alpha);
        }
        r = add_sat(r, k);
        let k: usize = opt_block_size(&self.geoset_color);
        proof {
            lemma_sat_add(acc.len() as int, (opt_block_bytes(KGAC_TAG, self@.geoset_color)).len() as int);
            acc = acc + opt_block_bytes(KGAC_TAG, self@.geoset_color);
        }
        r = add_sat(r, k);
        assert(acc =~= geoset_animation_bytes(self@));
        r
    }
}

impl Inclusive for GeosetAnimation {
    open spec fn declared(m: GeosetAnimationModel) -> int {
        m.inclusive_size as int
    }

    fn declared_size(&self) -> (r: u64) {
        self.inclusive_size as u64
    }

    proof fn lemma_declared(m: GeosetAnimationModel) {
        reveal(geoset_animation_bytes);
        lemma_u32_bytes(m.inclusive_size);
        lemma_u32_bytes(m.alpha);
        lemma_u32_bytes(m.flags);
        lemma_u32_bytes(m.geoset_id);
    }
}

/// A run of `GeosetAnimation` records, read while the sum of their declared sizes stays below `chunk_size`.
#[derive(PartialEq, Debug)]
pub struct GeosetAnimationChunk {
    pub chunk_size: u32,
    pub data: Vec<GeosetAnimation>,
}

/// The mathematical content of a `GeosetAnimationChunk`.
pub struct GeosetAnimationChunkModel {
    pub chunk_size: u32,
    pub data: Seq<GeosetAnimationModel>,
}

impl View for GeosetAnimationChunk {
    type V = GeosetAnimationChunkModel;

    open spec fn view(&self) -> GeosetAnimationChunkModel {
        GeosetAnimationChunkModel {
            chunk_size: self.chunk_size,
            data: views(self.data@),
        }
    }
}

/// The bytes that encoding a `GeosetAnimationChunk` writes.
#[verifier::opaque]
pub open spec fn geoset_animation_chunk_bytes(m: GeosetAnimationChunkModel) -> Seq<u8> {
    u32_bytes(m.chunk_size)
    + records_bytes::<GeosetAnimation>(m.data)
}

pub open spec fn geoset_animation_chunk_encodable(m: GeosetAnimationChunkModel) -> bool {
    records_encodable::<GeosetAnimation>(m.data)
}

/// A `GeosetAnimationChunk` that decoding its encoding gives back.
pub open spec fn geoset_animation_chunk_wf(m: GeosetAnimationChunkModel) -> bool {
    &&& records_wf::<GeosetAnimation>(m.data)
    &&& m.chunk_size + 4 == geoset_animation_chunk_bytes(m).len()
}

/// Decoding a `GeosetAnimationChunk` at `pos`: its model and the position after it.
#[verifier::opaque]
pub open spec fn parse_geoset_animation_chunk(b: Seq<u8>, pos: int) -> Result<(GeosetAnimationChunkModel, int), FormatError> {
    if pos + 4 > b.len() {
        Err(FormatError::OutOfBounds)
    } else {
        match parse_inclusive::<GeosetAnimation>(b, pos + 4, 0, u32_at(b, pos) as int) {
            Err(e) => Err(e),
            Ok((data, p_data)) => {
                let m = GeosetAnimationChunkModel {
                    chunk_size: u32_at(b, pos),
                    data: data,
                };
                Ok((m, p_data))
            },
        }
    }
}

/// `m` with every declared size inside it recomputed from the content.
pub open spec fn geoset_animation_chunk_resized(m: GeosetAnimationChunkModel) -> GeosetAnimationChunkModel {
    GeosetAnimationChunkModel { data: resized_seq::<GeosetAnimation>(m.data), ..m }
}

impl Record for GeosetAnimationChunk {
    open spec fn parse(b: Seq<u8>, pos: int) -> Result<(GeosetAnimationChunkModel, int), FormatError> {
        parse_geoset_animation_chunk(b, pos)
    }

    open spec fn encodable(m: GeosetAnimationChunkModel) -> bool {
        geoset_animation_chunk_encodable(m)
    }

    open spec fn wf(m: GeosetAnimationChunkModel) -> bool {
        geoset_animation_chunk_wf(m)
    }

    open spec fn resized(m: GeosetAnimationChunkModel) -> GeosetAnimationChunkModel {
        geoset_animation_chunk_resized(m)
    }

    fn calculate_sizes(&mut self) {
        proof {
            reveal(geoset_animation_chunk_bytes);
        }
        proof {
            lemma_resized_seq::<GeosetAnimation>(views(self.data@));
        }
        resize_records(&mut self.data);
    }

    proof fn lemma_resized(m: GeosetAnimationChunkModel) {
        reveal(geoset_animation_chunk_bytes);
        lemma_resized_seq::<GeosetAnimation>(m.data);
    }

    proof fn lemma_wf_encodable(m: GeosetAnimationChunkModel) {
        lemma_records_wf_encodable::<GeosetAnimation>(m.data);
    }

    proof fn lemma_round_trip(m: GeosetAnimationChunkModel, b: Seq<u8>, pos: int) {
        let e = geoset_animation_chunk_bytes(m);
        let q1 = u32_bytes(m.chunk_size);
        let q2 = q1 + records_bytes::<GeosetAnimation>(m.data);
        assert(q2 == e) by {
            reveal(geoset_animation_chunk_bytes);
        }
        lemma_u32_bytes(m.chunk_size);
        lemma_split(b, pos, q1, records_bytes::<GeosetAnimation>(m.data));
        assert(b.subrange(pos, pos + 4) == u32_bytes(m.chunk_size));
        assert(u32_at(b, pos) == m.chunk_size);
        lemma_inclusive_round_trip::<GeosetAnimation>(m.data, b, pos + q1.len(), 0);
        assert(parse_geoset_animation_chunk(b, pos) == Ok::<(GeosetAnimationChunkModel, int), FormatError>((m, pos + e.len()))) by {
            reveal(parse_geoset_animation_chunk);
        }
    }

    fn decode(src: &[u8], pos: usize) -> (r: Result<(GeosetAnimationChunk, usize), FormatError>) {
        proof {
            reveal(parse_geoset_animation_chunk);
        }
        let mut p: usize = pos;
        if src.len() - p < 4 {
            return Err(FormatError::OutOfBounds);
        }
        let chunk_size = read_u32(src, p);
        p = p + 4;
        let data = match read_inclusive::<GeosetAnimation>(src, p, chunk_size) {
            Ok((v, q)) => {
                p = q;
                v
            },
            Err(e) => {
                return Err(e);
            },
        };
        let v = GeosetAnimationChunk { chunk_size, data };
        Ok((v, p))
    }

    fn encode(&self, out: &mut Vec<u8>) -> (r: Result<(), FormatError>) {
        proof {
            reveal(geoset_animation_chunk_bytes);
        }
        let ghost start = out@;
        write_u32(out, self.chunk_size);
        let ghost mut acc = u32_bytes(self@.chunk_size);
        assert(out@ =~= start + acc);
        if let Err(e) = write_records(out, &self.data) {
            return Err(e);
        }
        proof {
            acc = acc + records_bytes::<GeosetAnimation>(self@.data);
        }
        assert(out@ =~= start + acc);
        assert(acc == geoset_animation_chunk_bytes(self@));
        Ok(())
    }

}

impl BytesTotalSize for GeosetAnimationChunk {
    open spec fn model_bytes(m: GeosetAnimationChunkModel) -> Seq<u8> {
        geoset_animation_chunk_bytes(m)
    }

    fn total_bytes_size(&self) -> (r: usize) {
        proof {
            reveal(geoset_animation_chunk_bytes);
        }
        let mut r: usize = 0;
        let ghost mut acc: Seq<u8> = Seq::empty();
        let k: usize = 4;
        proof {
            lemma_u32_bytes(self.chunk_size);
            lemma_sat_add(acc.len() as int, (u32_bytes(self@.chunk_size)).len() as int);
            acc = acc + u32_bytes(self@.chunk_size);
        }
        r = add_sat(r, k);
        let k: usize = records_size(&self.data);
        proof {
            lemma_sat_add(acc.len() as int, (records_bytes::<GeosetAnimation>(self@.data)).len() as int);
            acc = acc + records_bytes::<GeosetAnimation>(self@.data);
        }
        r = add_sat(r, k);
        assert(acc =~= geoset_animation_chunk_bytes(self@));
        r
    }
}

/// `m` with `chunk_size` set to the encoded length without the size field itself.
pub open spec fn geoset_animation_chunk_sized(m: GeosetAnimationChunkModel) -> GeosetAnimationChunkModel {
    GeosetAnimationChunkModel {
        chunk_size: (geoset_animation_chunk_bytes(m).len() - 4) as u32,
        ..m
    }
}

impl Chunk for GeosetAnimationChunk {
    open spec fn sized(m: GeosetAnimationChunkModel) -> GeosetAnimationChunkModel {
        geoset_animation_chunk_sized(m)
    }

    open spec fn chunk_size_of(m: GeosetAnimationChunkModel) -> u32 {
        m.chunk_size
    }

    proof fn lemma_sized_id(m: GeosetAnimationChunkModel) {
    }

    proof fn lemma_chunk_min_len(m: GeosetAnimationChunkModel) {
        reveal(geoset_animation_chunk_bytes);
        lemma_u32_bytes(m.chunk_size);
    }

    fn calculate_chunk_size(&mut self) {
        let n = self.total_bytes_size();
        self.chunk_size = (n - 4) as u32;
        proof {
            reveal(geoset_animation_chunk_bytes);
            lemma_u32_bytes(old(self).chunk_size);
            lemma_u32_bytes(self.chunk_size);
        }
    }
}

} // verus!
