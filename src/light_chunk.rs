//! Lights.

use crate::codec::{
    Element, add_sat, lemma_join, lemma_sat_add, lemma_split, lemma_u32_bytes, read_u32, sat,
    u32_at, u32_bytes, write_u32,
};
use crate::consts::{KLAC_TAG, KLAE_TAG, KLAI_TAG, KLAS_TAG, KLAV_TAG, KLBC_TAG, KLBI_TAG};
use crate::data_types::Color;
use crate::error::FormatError;
use crate::record::{
    BytesTotalSize, Chunk, Inclusive, Record, lemma_inclusive_round_trip,
    lemma_records_wf_encodable, lemma_resized_seq, parse_inclusive, read_inclusive, records_bytes,
    records_encodable, records_size, records_wf, resize_records, resized_seq, views, write_records,
};
use crate::tracks::{
    Transform, TransformModel, lemma_opt_block_round_trip, opt_block_bytes, opt_block_size,
    opt_view, parse_transform, transform_wf, write_opt_block,
};
use crate::node::{Node, NodeModel};
use vstd::prelude::*;

verus! {

broadcast use vstd::seq::group_seq_axioms;

/// A light source. Float fields hold IEEE-754 bit patterns.
#[derive(PartialEq, Debug)]
pub struct Light {
    pub inclusive_size: u32,
    pub node: Node,
    pub light_type: u32,
    pub attenuation_start: u32,
    pub attenuation_end: u32,
    pub color: Color,
    pub intensity: u32,
    pub ambient_color: Color,
    pub ambient_intensity: u32,
    pub attenuation_start_transform: Option<Transform<u32>>,
    pub attenuation_end_transform: Option<Transform<u32>>,
    pub color_transform: Option<Transform<Color>>,
    pub intensity_transform: Option<Transform<u32>>,
    pub ambient_color_transform: Option<Transform<Color>>,
    pub ambient_intensity_transform: Option<Transform<u32>>,
    pub visibility_transform: Option<Transform<u32>>,
}

/// The mathematical content of a `Light`.
pub struct LightModel {
    pub inclusive_size: u32,
    pub node: NodeModel,
    pub light_type: u32,
    pub attenuation_start: u32,
    pub attenuation_end: u32,
    pub color: Color,
    pub intensity: u32,
    pub ambient_color: Color,
    pub ambient_intensity: u32,
    pub attenuation_start_transform: Option<TransformModel<u32>>,
    pub attenuation_end_transform: Option<TransformModel<u32>>,
    pub color_transform: Option<TransformModel<Color>>,
    pub intensity_transform: Option<TransformModel<u32>>,
    pub ambient_color_transform: Option<TransformModel<Color>>,
    pub ambient_intensity_transform: Option<TransformModel<u32>>,
    pub visibility_transform: Option<TransformModel<u32>>,
}

impl View for Light {
    type V = LightModel;

    open spec fn view(&self) -> LightModel {
        LightModel {
            inclusive_size: self.inclusive_size,
            node: self.node@,
            light_type: self.light_type,
            attenuation_start: self.attenuation_start,
            attenuation_end: self.attenuation_end,
            color: self.color,
            intensity: self.intensity,
            ambient_color: self.ambient_color,
            ambient_intensity: self.ambient_intensity,
            attenuation_start_transform: opt_view(self.attenuation_start_transform),
            attenuation_end_transform: opt_view(self.attenuation_end_transform),
            color_transform: opt_view(self.color_transform),
            intensity_transform: opt_view(self.intensity_transform),
            ambient_color_transform: opt_view(self.ambient_color_transform),
            ambient_intensity_transform: opt_view(self.ambient_intensity_transform),
            visibility_transform: opt_view(self.visibility_transform),
        }
    }
}

/// The bytes that encoding a `Light` writes.
#[verifier::opaque]
pub open spec fn light_bytes(m: LightModel) -> Seq<u8> {
    u32_bytes(m.inclusive_size)
    + Node::model_bytes(m.node)
    + u32_bytes(m.light_type)
    + u32_bytes(m.attenuation_start)
    + u32_bytes(m.attenuation_end)
    + m.color.to_bytes()
    + u32_bytes(m.intensity)
    + m.ambient_color.to_bytes()
    + u32_bytes(m.ambient_intensity)
    + opt_block_bytes(KLAS_TAG, m.attenuation_start_transform)
    + opt_block_bytes(KLAE_TAG, m.attenuation_end_transform)
    + opt_block_bytes(KLAC_TAG, m.color_transform)
    + opt_block_bytes(KLAI_TAG, m.intensity_transform)
    + opt_block_bytes(KLBC_TAG, m.ambient_color_transform)
    + opt_block_bytes(KLBI_TAG, m.ambient_intensity_transform)
    + opt_block_bytes(KLAV_TAG, m.visibility_transform)
}

pub open spec fn light_encodable(m: LightModel) -> bool {
    Node::encodable(m.node)
}

/// A `Light` that decoding its encoding gives back.
pub open spec fn light_wf(m: LightModel) -> bool {
    &&& Node::wf(m.node)
    &&& (m.attenuation_start_transform matches Some(t) ==> transform_wf(t))
    &&& (m.attenuation_end_transform matches Some(t) ==> transform_wf(t))
    &&& (m.color_transform matches Some(t) ==> transform_wf(t))
    &&& (m.intensity_transform matches Some(t) ==> transform_wf(t))
    &&& (m.ambient_color_transform matches Some(t) ==> transform_wf(t))
    &&& (m.ambient_intensity_transform matches Some(t) ==> transform_wf(t))
    &&& (m.visibility_transform matches Some(t) ==> transform_wf(t))
    &&& m.inclusive_size == light_bytes(m).len()
}

/// The optional sub-blocks of a `Light` from `pos` on, read while the
/// position stays below `start + bound`; each one replaces the field of its tag.
pub open spec fn scan_light(b: Seq<u8>, start: int, bound: int, pos: int, acc: LightModel) -> Result<
    (LightModel, int),
    FormatError,
>
    decreases b.len() - pos,
{
    if pos - start >= bound {
        Ok((acc, pos))
    } else if pos + 4 > b.len() {
        Err(FormatError::OutOfBounds)
    } else {
        let tag = u32_at(b, pos);
        if tag == KLAS_TAG {
            match parse_transform::<u32>(b, pos + 4) {
                Err(e) => Err(e),
                Ok((t, q)) => if q <= pos || q > b.len() {
                    Err(FormatError::OutOfBounds)
                } else {
                    scan_light(
                        b,
                        start,
                        bound,
                        q,
                        LightModel {
                            inclusive_size: acc.inclusive_size,
                            node: acc.node,
                            light_type: acc.light_type,
                            attenuation_start: acc.attenuation_start,
                            attenuation_end: acc.attenuation_end,
                            color: acc.color,
                            intensity: acc.intensity,
                            ambient_color: acc.ambient_color,
                            ambient_intensity: acc.ambient_intensity,
                            attenuation_start_transform: Some(t),
                            attenuation_end_transform: acc.attenuation_end_transform,
                            color_transform: acc.color_transform,
                            intensity_transform: acc.intensity_transform,
                            ambient_color_transform: acc.ambient_color_transform,
                            ambient_intensity_transform: acc.ambient_intensity_transform,
                            visibility_transform: acc.visibility_transform,
                        },
                    )
                },
            }
        } else if tag == KLAE_TAG {
            match parse_transform::<u32>(b, pos + 4) {
                Err(e) => Err(e),
                Ok((t, q)) => if q <= pos || q > b.len() {
                    Err(FormatError::OutOfBounds)
                } else {
                    scan_light(
                        b,
                        start,
                        bound,
                        q,
                        LightModel {
                            inclusive_size: acc.inclusive_size,
                            node: acc.node,
                            light_type: acc.light_type,
                            attenuation_start: acc.attenuation_start,
                            attenuation_end: acc.attenuation_end,
                            color: acc.color,
                            intensity: acc.intensity,
                            ambient_color: acc.ambient_color,
                            ambient_intensity: acc.ambient_intensity,
                            attenuation_start_transform: acc.attenuation_start_transform,
                            attenuation_end_transform: Some(t),
                            color_transform: acc.color_transform,
                            intensity_transform: acc.intensity_transform,
                            ambient_color_transform: acc.ambient_color_transform,
                            ambient_intensity_transform: acc.ambient_intensity_transform,
                            visibility_transform: acc.visibility_transform,
                        },
                    )
                },
            }
        } else if tag == KLAC_TAG {
            match parse_transform::<Color>(b, pos + 4) {
                Err(e) => Err(e),
                Ok((t, q)) => if q <= pos || q > b.len() {
                    Err(FormatError::OutOfBounds)
                } else {
                    scan_light(
                        b,
                        start,
                        bound,
                        q,
                        LightModel {
                            inclusive_size: acc.inclusive_size,
                            node: acc.node,
                            light_type: acc.light_type,
                            attenuation_start: acc.attenuation_start,
                            attenuation_end: acc.attenuation_end,
                            color: acc.color,
                            intensity: acc.intensity,
                            ambient_color: acc.ambient_color,
                            ambient_intensity: acc.ambient_intensity,
                            attenuation_start_transform: acc.attenuation_start_transform,
                            attenuation_end_transform: acc.attenuation_end_transform,
                            color_transform: Some(t),
                            intensity_transform: acc.intensity_transform,
                            ambient_color_transform: acc.ambient_color_transform,
                            ambient_intensity_transform: acc.ambient_intensity_transform,
                            visibility_transform: acc.visibility_transform,
                        },
                    )
                },
            }
        } else if tag == KLAI_TAG {
            match parse_transform::<u32>(b, pos + 4) {
                Err(e) => Err(e),
                Ok((t, q)) => if q <= pos || q > b.len() {
                    Err(FormatError::OutOfBounds)
                } else {
                    scan_light(
                        b,
                        start,
                        bound,
                        q,
                        LightModel {
                            inclusive_size: acc.inclusive_size,
                            node: acc.node,
                            light_type: acc.light_type,
                            attenuation_start: acc.attenuation_start,
                            attenuation_end: acc.attenuation_end,
                            color: acc.color,
                            intensity: acc.intensity,
                            ambient_color: acc.ambient_color,
                            ambient_intensity: acc.ambient_intensity,
                            attenuation_start_transform: acc.attenuation_start_transform,
                            attenuation_end_transform: acc.attenuation_end_transform,
                            color_transform: acc.color_transform,
                            intensity_transform: Some(t),
                            ambient_color_transform: acc.ambient_color_transform,
                            ambient_intensity_transform: acc.ambient_intensity_transform,
                            visibility_transform: acc.visibility_transform,
                        },
                    )
                },
            }
        } else if tag == KLBC_TAG {
            match parse_transform::<Color>(b, pos + 4) {
                Err(e) => Err(e),
                Ok((t, q)) => if q <= pos || q > b.len() {
                    Err(FormatError::OutOfBounds)
                } else {
                    scan_light(
                        b,
                        start,
                        bound,
                        q,
                        LightModel {
                            inclusive_size: acc.inclusive_size,
                            node: acc.node,
                            light_type: acc.light_type,
                            attenuation_start: acc.attenuation_start,
                            attenuation_end: acc.attenuation_end,
                            color: acc.color,
                            intensity: acc.intensity,
                            ambient_color: acc.ambient_color,
                            ambient_intensity: acc.ambient_intensity,
                            attenuation_start_transform: acc.attenuation_start_transform,
                            attenuation_end_transform: acc.attenuation_end_transform,
                            color_transform: acc.color_transform,
                            intensity_transform: acc.intensity_transform,
                            ambient_color_transform: Some(t),
                            ambient_intensity_transform: acc.ambient_intensity_transform,
                            visibility_transform: acc.visibility_transform,
                        },
                    )
                },
            }
        } else if tag == KLBI_TAG {
            match parse_transform::<u32>(b, pos + 4) {
                Err(e) => Err(e),
                Ok((t, q)) => if q <= pos || q > b.len() {
                    Err(FormatError::OutOfBounds)
                } else {
                    scan_light(
                        b,
                        start,
                        bound,
                        q,
                        LightModel {
                            inclusive_size: acc.inclusive_size,
                            node: acc.node,
                            light_type: acc.light_type,
                            attenuation_start: acc.attenuation_start,
                            attenuation_end: acc.attenuation_end,
                            color: acc.color,
                            intensity: acc.intensity,
                            ambient_color: acc.ambient_color,
                            ambient_intensity: acc.ambient_intensity,
                            attenuation_start_transform: acc.attenuation_start_transform,
                            attenuation_end_transform: acc.attenuation_end_transform,
                            color_transform: acc.color_transform,
                            intensity_transform: acc.intensity_transform,
                            ambient_color_transform: acc.ambient_color_transform,
                            ambient_intensity_transform: Some(t),
                            visibility_transform: acc.visibility_transform,
                        },
                    )
                },
            }
        } else if tag == KLAV_TAG {
            match parse_transform::<u32>(b, pos + 4) {
                Err(e) => Err(e),
                Ok((t, q)) => if q <= pos || q > b.len() {
                    Err(FormatError::OutOfBounds)
                } else {
                    scan_light(
                        b,
                        start,
                        bound,
                        q,
                        LightModel {
                            inclusive_size: acc.inclusive_size,
                            node: acc.node,
                            light_type: acc.light_type,
                            attenuation_start: acc.attenuation_start,
                            attenuation_end: acc.attenuation_end,
                            color: acc.color,
                            intensity: acc.intensity,
                            ambient_color: acc.ambient_color,
                            ambient_intensity: acc.ambient_intensity,
                            attenuation_start_transform: acc.attenuation_start_transform,
                            attenuation_end_transform: acc.attenuation_end_transform,
                            color_transform: acc.color_transform,
                            intensity_transform: acc.intensity_transform,
                            ambient_color_transform: acc.ambient_color_transform,
                            ambient_intensity_transform: acc.ambient_intensity_transform,
                            visibility_transform: Some(t),
                        },
                    )
                },
            }
        } else {
            Err(FormatError::UnknownSubTag(tag))
        }
    }
}

/// The sub-blocks of a well-formed `Light` from the `KLAV` one on scan back into it.
proof fn lemma_light_scan_from_6(m: LightModel, b: Seq<u8>, pos: int, o: int)
    requires
        m.visibility_transform matches Some(t) ==> transform_wf(t),
        0 <= pos <= o,
        o + (opt_block_bytes(KLAV_TAG, m.visibility_transform)).len()
            == pos + m.inclusive_size as int,
        o + (opt_block_bytes(KLAV_TAG, m.visibility_transform)).len() <= b.len(),
        b.subrange(o, o + (opt_block_bytes(KLAV_TAG, m.visibility_transform)).len())
            == opt_block_bytes(KLAV_TAG, m.visibility_transform),
    ensures
        scan_light(b, pos, m.inclusive_size as int, o, LightModel {
            visibility_transform: None,
            ..m
        }) == Ok::<(LightModel, int), FormatError>(
            (m, o + (opt_block_bytes(KLAV_TAG, m.visibility_transform)).len()),
        ),
{
    lemma_opt_block_round_trip(KLAV_TAG, m.visibility_transform, b, o);
    let e = o + (opt_block_bytes(KLAV_TAG, m.visibility_transform)).len();
    assert(scan_light(b, pos, m.inclusive_size as int, e, m) == Ok::<(LightModel, int), FormatError>((m, e)));
    if m.visibility_transform is None {
        assert(LightModel { visibility_transform: None, ..m } == m);
    }
}

/// The sub-blocks of a well-formed `Light` from the `KLBI` one on scan back into it.
proof fn lemma_light_scan_from_5(m: LightModel, b: Seq<u8>, pos: int, o: int)
    requires
        m.ambient_intensity_transform matches Some(t) ==> transform_wf(t),
        m.visibility_transform matches Some(t) ==> transform_wf(t),
        0 <= pos <= o,
        o + (opt_block_bytes(KLBI_TAG, m.ambient_intensity_transform) + opt_block_bytes(KLAV_TAG, m.visibility_transform)).len()
            == pos + m.inclusive_size as int,
        o + (opt_block_bytes(KLBI_TAG, m.ambient_intensity_transform) + opt_block_bytes(KLAV_TAG, m.visibility_transform)).len() <= b.len(),
        b.subrange(o, o + (opt_block_bytes(KLBI_TAG, m.ambient_intensity_transform) + opt_block_bytes(KLAV_TAG, m.visibility_transform)).len())
            == opt_block_bytes(KLBI_TAG, m.ambient_intensity_transform) + opt_block_bytes(KLAV_TAG, m.visibility_transform),
    ensures
        scan_light(b, pos, m.inclusive_size as int, o, LightModel {
            ambient_intensity_transform: None,
            visibility_transform: None,
            ..m
        }) == Ok::<(LightModel, int), FormatError>(
            (m, o + (opt_block_bytes(KLBI_TAG, m.ambient_intensity_transform) + opt_block_bytes(KLAV_TAG, m.visibility_transform)).len()),
        ),
{
    lemma_split(b, o, opt_block_bytes(KLBI_TAG, m.ambient_intensity_transform), opt_block_bytes(KLAV_TAG, m.visibility_transform));
    lemma_opt_block_round_trip(KLBI_TAG, m.ambient_intensity_transform, b, o);
    lemma_light_scan_from_6(m, b, pos, o + (opt_block_bytes(KLBI_TAG, m.ambient_intensity_transform)).len());
    if m.ambient_intensity_transform is None {
        assert(LightModel {
            ambient_intensity_transform: None,
            visibility_transform: None,
            ..m
        } == LightModel { visibility_transform: None, ..m });
    }
}

/// The sub-blocks of a well-formed `Light` from the `KLBC` one on scan back into it.
proof fn lemma_light_scan_from_4(m: LightModel, b: Seq<u8>, pos: int, o: int)
    requires
        m.ambient_color_transform matches Some(t) ==> transform_wf(t),
        m.ambient_intensity_transform matches Some(t) ==> transform_wf(t),
        m.visibility_transform matches Some(t) ==> transform_wf(t),
        0 <= pos <= o,
        o + (opt_block_bytes(KLBC_TAG, m.ambient_color_transform) + (opt_block_bytes(KLBI_TAG, m.ambient_intensity_transform) + opt_block_bytes(KLAV_TAG, m.visibility_transform))).len()
            == pos + m.inclusive_size as int,
        o + (opt_block_bytes(KLBC_TAG, m.ambient_color_transform) + (opt_block_bytes(KLBI_TAG, m.ambient_intensity_transform) + opt_block_bytes(KLAV_TAG, m.visibility_transform))).len() <= b.len(),
        b.subrange(o, o + (opt_block_bytes(KLBC_TAG, m.ambient_color_transform) + (opt_block_bytes(KLBI_TAG, m.ambient_intensity_transform) + opt_block_bytes(KLAV_TAG, m.visibility_transform))).len())
            == opt_block_bytes(KLBC_TAG, m.ambient_color_transform) + (opt_block_bytes(KLBI_TAG, m.ambient_intensity_transform) + opt_block_bytes(KLAV_TAG, m.visibility_transform)),
    ensures
        scan_light(b, pos, m.inclusive_size as int, o, LightModel {
            ambient_color_transform: None,
            ambient_intensity_transform: None,
            visibility_transform: None,
            ..m
        }) == Ok::<(LightModel, int), FormatError>(
            (m, o + (opt_block_bytes(KLBC_TAG, m.ambient_color_transform) + (opt_block_bytes(KLBI_TAG, m.ambient_intensity_transform) + opt_block_bytes(KLAV_TAG, m.visibility_transform))).len()),
        ),
{
    lemma_split(b, o, opt_block_bytes(KLBC_TAG, m.ambient_color_transform), opt_block_bytes(KLBI_TAG, m.ambient_intensity_transform) + opt_block_bytes(KLAV_TAG, m.visibility_transform));
    lemma_opt_block_round_trip(KLBC_TAG, m.ambient_color_transform, b, o);
    lemma_light_scan_from_5(m, b, pos, o + (opt_block_bytes(KLBC_TAG, m.ambient_color_transform)).len());
    if m.ambient_color_transform is None {
        assert(LightModel {
            ambient_color_transform: None,
            ambient_intensity_transform: None,
            visibility_transform: None,
            ..m
        } == LightModel { ambient_intensity_transform: None, visibility_transform: None, ..m });
    }
}

/// The sub-blocks of a well-formed `Light` from the `KLAI` one on scan back into it.
proof fn lemma_light_scan_from_3(m: LightModel, b: Seq<u8>, pos: int, o: int)
    requires
        m.intensity_transform matches Some(t) ==> transform_wf(t),
        m.ambient_color_transform matches Some(t) ==> transform_wf(t),
        m.ambient_intensity_transform matches Some(t) ==> transform_wf(t),
        m.visibility_transform matches Some(t) ==> transform_wf(t),
        0 <= pos <= o,
        o + (opt_block_bytes(KLAI_TAG, m.intensity_transform) + (opt_block_bytes(KLBC_TAG, m.ambient_color_transform) + (opt_block_bytes(KLBI_TAG, m.ambient_intensity_transform) + opt_block_bytes(KLAV_TAG, m.visibility_transform)))).len()
            == pos + m.inclusive_size as int,
        o + (opt_block_bytes(KLAI_TAG, m.intensity_transform) + (opt_block_bytes(KLBC_TAG, m.ambient_color_transform) + (opt_block_bytes(KLBI_TAG, m.ambient_intensity_transform) + opt_block_bytes(KLAV_TAG, m.visibility_transform)))).len() <= b.len(),
        b.subrange(o, o + (opt_block_bytes(KLAI_TAG, m.intensity_transform) + (opt_block_bytes(KLBC_TAG, m.ambient_color_transform) + (opt_block_bytes(KLBI_TAG, m.ambient_intensity_transform) + opt_block_bytes(KLAV_TAG, m.visibility_transform)))).len())
            == opt_block_bytes(KLAI_TAG, m.intensity_transform) + (opt_block_bytes(KLBC_TAG, m.ambient_color_transform) + (opt_block_bytes(KLBI_TAG, m.ambient_intensity_transform) + opt_block_bytes(KLAV_TAG, m.visibility_transform))),
    ensures
        scan_light(b, pos, m.inclusive_size as int, o, LightModel {
            intensity_transform: None,
            ambient_color_transform: None,
            ambient_intensity_transform: None,
            visibility_transform: None,
            ..m
        }) == Ok::<(LightModel, int), FormatError>(
            (m, o + (opt_block_bytes(KLAI_TAG, m.intensity_transform) + (opt_block_bytes(KLBC_TAG, m.ambient_color_transform) + (opt_block_bytes(KLBI_TAG, m.ambient_intensity_transform) + opt_block_bytes(KLAV_TAG, m.visibility_transform)))).len()),
        ),
{
    lemma_split(b, o, opt_block_bytes(KLAI_TAG, m.intensity_transform), opt_block_bytes(KLBC_TAG, m.ambient_color_transform) + (opt_block_bytes(KLBI_TAG, m.ambient_intensity_transform) + opt_block_bytes(KLAV_TAG, m.visibility_transform)));
    lemma_opt_block_round_trip(KLAI_TAG, m.intensity_transform, b, o);
    lemma_light_scan_from_4(m, b, pos, o + (opt_block_bytes(KLAI_TAG, m.intensity_transform)).len());
    if m.intensity_transform is None {
        assert(LightModel {
            intensity_transform: None,
            ambient_color_transform: None,
            ambient_intensity_transform: None,
            visibility_transform: None,
            ..m
        } == LightModel {
            ambient_color_transform: None,
            ambient_intensity_transform: None,
            visibility_transform: None,
            ..m
        });
    }
}

/// The sub-blocks of a well-formed `Light` from the `KLAC` one on scan back into it.
proof fn lemma_light_scan_from_2(m: LightModel, b: Seq<u8>, pos: int, o: int)
    requires
        m.color_transform matches Some(t) ==> transform_wf(t),
        m.intensity_transform matches Some(t) ==> transform_wf(t),
        m.ambient_color_transform matches Some(t) ==> transform_wf(t),
        m.ambient_intensity_transform matches Some(t) ==> transform_wf(t),
        m.visibility_transform matches Some(t) ==> transform_wf(t),
        0 <= pos <= o,
        o + (opt_block_bytes(KLAC_TAG, m.color_transform) + (opt_block_bytes(KLAI_TAG, m.intensity_transform) + (opt_block_bytes(KLBC_TAG, m.ambient_color_transform) + (opt_block_bytes(KLBI_TAG, m.ambient_intensity_transform) + opt_block_bytes(KLAV_TAG, m.visibility_transform))))).len()
            == pos + m.inclusive_size as int,
        o + (opt_block_bytes(KLAC_TAG, m.color_transform) + (opt_block_bytes(KLAI_TAG, m.intensity_transform) + (opt_block_bytes(KLBC_TAG, m.ambient_color_transform) + (opt_block_bytes(KLBI_TAG, m.ambient_intensity_transform) + opt_block_bytes(KLAV_TAG, m.visibility_transform))))).len() <= b.len(),
        b.subrange(o, o + (opt_block_bytes(KLAC_TAG, m.color_transform) + (opt_block_bytes(KLAI_TAG, m.intensity_transform) + (opt_block_bytes(KLBC_TAG, m.ambient_color_transform) + (opt_block_bytes(KLBI_TAG, m.ambient_intensity_transform) + opt_block_bytes(KLAV_TAG, m.visibility_transform))))).len())
            == opt_block_bytes(KLAC_TAG, m.color_transform) + (opt_block_bytes(KLAI_TAG, m.intensity_transform) + (opt_block_bytes(KLBC_TAG, m.ambient_color_transform) + (opt_block_bytes(KLBI_TAG, m.ambient_intensity_transform) + opt_block_bytes(KLAV_TAG, m.visibility_transform)))),
    ensures
        scan_light(b, pos, m.inclusive_size as int, o, LightModel {
            color_transform: None,
            intensity_transform: None,
            ambient_color_transform: None,
            ambient_intensity_transform: None,
            visibility_transform: None,
            ..m
        }) == Ok::<(LightModel, int), FormatError>(
            (m, o + (opt_block_bytes(KLAC_TAG, m.color_transform) + (opt_block_bytes(KLAI_TAG, m.intensity_transform) + (opt_block_bytes(KLBC_TAG, m.ambient_color_transform) + (opt_block_bytes(KLBI_TAG, m.ambient_intensity_transform) + opt_block_bytes(KLAV_TAG, m.visibility_transform))))).len()),
        ),
{
    lemma_split(b, o, opt_block_bytes(KLAC_TAG, m.color_transform), opt_block_bytes(KLAI_TAG, m.intensity_transform) + (opt_block_bytes(KLBC_TAG, m.ambient_color_transform) + (opt_block_bytes(KLBI_TAG, m.ambient_intensity_transform) + opt_block_bytes(KLAV_TAG, m.visibility_transform))));
    lemma_opt_block_round_trip(KLAC_TAG, m.color_transform, b, o);
    lemma_light_scan_from_3(m, b, pos, o + (opt_block_bytes(KLAC_TAG, m.color_transform)).len());
    if m.color_transform is None {
        assert(LightModel {
            color_transform: None,
            intensity_transform: None,
            ambient_color_transform: None,
            ambient_intensity_transform: None,
            visibility_transform: None,
            ..m
        } == LightModel {
            intensity_transform: None,
            ambient_color_transform: None,
            ambient_intensity_transform: None,
            visibility_transform: None,
            ..m
        });
    }
}

/// The sub-blocks of a well-formed `Light` from the `KLAE` one on scan back into it.
proof fn lemma_light_scan_from_1(m: LightModel, b: Seq<u8>, pos: int, o: int)
    requires
        m.attenuation_end_transform matches Some(t) ==> transform_wf(t),
        m.color_transform matches Some(t) ==> transform_wf(t),
        m.intensity_transform matches Some(t) ==> transform_wf(t),
        m.ambient_color_transform matches Some(t) ==> transform_wf(t),
        m.ambient_intensity_transform matches Some(t) ==> transform_wf(t),
        m.visibility_transform matches Some(t) ==> transform_wf(t),
        0 <= pos <= o,
        o + (opt_block_bytes(KLAE_TAG, m.attenuation_end_transform) + (opt_block_bytes(KLAC_TAG, m.color_transform) + (opt_block_bytes(KLAI_TAG, m.intensity_transform) + (opt_block_bytes(KLBC_TAG, m.ambient_color_transform) + (opt_block_bytes(KLBI_TAG, m.ambient_intensity_transform) + opt_block_bytes(KLAV_TAG, m.visibility_transform)))))).len()
            == pos + m.inclusive_size as int,
        o + (opt_block_bytes(KLAE_TAG, m.attenuation_end_transform) + (opt_block_bytes(KLAC_TAG, m.color_transform) + (opt_block_bytes(KLAI_TAG, m.intensity_transform) + (opt_block_bytes(KLBC_TAG, m.ambient_color_transform) + (opt_block_bytes(KLBI_TAG, m.ambient_intensity_transform) + opt_block_bytes(KLAV_TAG, m.visibility_transform)))))).len() <= b.len(),
        b.subrange(o, o + (opt_block_bytes(KLAE_TAG, m.attenuation_end_transform) + (opt_block_bytes(KLAC_TAG, m.color_transform) + (opt_block_bytes(KLAI_TAG, m.intensity_transform) + (opt_block_bytes(KLBC_TAG, m.ambient_color_transform) + (opt_block_bytes(KLBI_TAG, m.ambient_intensity_transform) + opt_block_bytes(KLAV_TAG, m.visibility_transform)))))).len())
            == opt_block_bytes(KLAE_TAG, m.attenuation_end_transform) + (opt_block_bytes(KLAC_TAG, m.color_transform) + (opt_block_bytes(KLAI_TAG, m.intensity_transform) + (opt_block_bytes(KLBC_TAG, m.ambient_color_transform) + (opt_block_bytes(KLBI_TAG, m.ambient_intensity_transform) + opt_block_bytes(KLAV_TAG, m.visibility_transform))))),
    ensures
        scan_light(b, pos, m.inclusive_size as int, o, LightModel {
            attenuation_end_transform: None,
            color_transform: None,
            intensity_transform: None,
            ambient_color_transform: None,
            ambient_intensity_transform: None,
            visibility_transform: None,
            ..m
        }) == Ok::<(LightModel, int), FormatError>(
            (m, o + (opt_block_bytes(KLAE_TAG, m.attenuation_end_transform) + (opt_block_bytes(KLAC_TAG, m.color_transform) + (opt_block_bytes(KLAI_TAG, m.intensity_transform) + (opt_block_bytes(KLBC_TAG, m.ambient_color_transform) + (opt_block_bytes(KLBI_TAG, m.ambient_intensity_transform) + opt_block_bytes(KLAV_TAG, m.visibility_transform)))))).len()),
        ),
{
    lemma_split(b, o, opt_block_bytes(KLAE_TAG, m.attenuation_end_transform), opt_block_bytes(KLAC_TAG, m.color_transform) + (opt_block_bytes(KLAI_TAG, m.intensity_transform) + (opt_block_bytes(KLBC_TAG, m.ambient_color_transform) + (opt_block_bytes(KLBI_TAG, m.ambient_intensity_transform) + opt_block_bytes(KLAV_TAG, m.visibility_transform)))));
    lemma_opt_block_round_trip(KLAE_TAG, m.attenuation_end_transform, b, o);
    lemma_light_scan_from_2(m, b, pos, o + (opt_block_bytes(KLAE_TAG, m.attenuation_end_transform)).len());
    if m.attenuation_end_transform is None {
        assert(LightModel {
            attenuation_end_transform: None,
            color_transform: None,
            intensity_transform: None,
            ambient_color_transform: None,
            ambient_intensity_transform: None,
            visibility_transform: None,
            ..m
        } == LightModel {
            color_transform: None,
            intensity_transform: None,
            ambient_color_transform: None,
            ambient_intensity_transform: None,
            visibility_transform: None,
            ..m
        });
    }
}

/// The sub-blocks of a well-formed `Light`, written in their fixed order,
/// scan back into it.
proof fn lemma_light_scan_from_0(m: LightModel, b: Seq<u8>, pos: int, o: int)
    requires
        m.attenuation_start_transform matches Some(t) ==> transform_wf(t),
        m.attenuation_end_transform matches Some(t) ==> transform_wf(t),
        m.color_transform matches Some(t) ==> transform_wf(t),
        m.intensity_transform matches Some(t) ==> transform_wf(t),
        m.ambient_color_transform matches Some(t) ==> transform_wf(t),
        m.ambient_intensity_transform matches Some(t) ==> transform_wf(t),
        m.visibility_transform matches Some(t) ==> transform_wf(t),
        0 <= pos <= o,
        o + (opt_block_bytes(KLAS_TAG, m.attenuation_start_transform) + (opt_block_bytes(KLAE_TAG, m.attenuation_end_transform) + (opt_block_bytes(KLAC_TAG, m.color_transform) + (opt_block_bytes(KLAI_TAG, m.intensity_transform) + (opt_block_bytes(KLBC_TAG, m.ambient_color_transform) + (opt_block_bytes(KLBI_TAG, m.ambient_intensity_transform) + opt_block_bytes(KLAV_TAG, m.visibility_transform))))))).len()
            == pos + m.inclusive_size as int,
        o + (opt_block_bytes(KLAS_TAG, m.attenuation_start_transform) + (opt_block_bytes(KLAE_TAG, m.attenuation_end_transform) + (opt_block_bytes(KLAC_TAG, m.color_transform) + (opt_block_bytes(KLAI_TAG, m.intensity_transform) + (opt_block_bytes(KLBC_TAG, m.ambient_color_transform) + (opt_block_bytes(KLBI_TAG, m.ambient_intensity_transform) + opt_block_bytes(KLAV_TAG, m.visibility_transform))))))).len() <= b.len(),
        b.subrange(o, o + (opt_block_bytes(KLAS_TAG, m.attenuation_start_transform) + (opt_block_bytes(KLAE_TAG, m.attenuation_end_transform) + (opt_block_bytes(KLAC_TAG, m.color_transform) + (opt_block_bytes(KLAI_TAG, m.intensity_transform) + (opt_block_bytes(KLBC_TAG, m.ambient_color_transform) + (opt_block_bytes(KLBI_TAG, m.ambient_intensity_transform) + opt_block_bytes(KLAV_TAG, m.visibility_transform))))))).len())
            == opt_block_bytes(KLAS_TAG, m.attenuation_start_transform) + (opt_block_bytes(KLAE_TAG, m.attenuation_end_transform) + (opt_block_bytes(KLAC_TAG, m.color_transform) + (opt_block_bytes(KLAI_TAG, m.intensity_transform) + (opt_block_bytes(KLBC_TAG, m.ambient_color_transform) + (opt_block_bytes(KLBI_TAG, m.ambient_intensity_transform) + opt_block_bytes(KLAV_TAG, m.visibility_transform)))))),
    ensures
        scan_light(b, pos, m.inclusive_size as int, o, LightModel {
            attenuation_start_transform: None,
            attenuation_end_transform: None,
            color_transform: None,
            intensity_transform: None,
            ambient_color_transform: None,
            ambient_intensity_transform: None,
            visibility_transform: None,
            ..m
        }) == Ok::<(LightModel, int), FormatError>(
            (m, o + (opt_block_bytes(KLAS_TAG, m.attenuation_start_transform) + (opt_block_bytes(KLAE_TAG, m.attenuation_end_transform) + (opt_block_bytes(KLAC_TAG, m.color_transform) + (opt_block_bytes(KLAI_TAG, m.intensity_transform) + (opt_block_bytes(KLBC_TAG, m.ambient_color_transform) + (opt_block_bytes(KLBI_TAG, m.ambient_intensity_transform) + opt_block_bytes(KLAV_TAG, m.visibility_transform))))))).len()),
        ),
{
    lemma_split(b, o, opt_block_bytes(KLAS_TAG, m.attenuation_start_transform), opt_block_bytes(KLAE_TAG, m.attenuation_end_transform) + (opt_block_bytes(KLAC_TAG, m.color_transform) + (opt_block_bytes(KLAI_TAG, m.intensity_transform) + (opt_block_bytes(KLBC_TAG, m.ambient_color_transform) + (opt_block_bytes(KLBI_TAG, m.ambient_intensity_transform) + opt_block_bytes(KLAV_TAG, m.visibility_transform))))));
    lemma_opt_block_round_trip(KLAS_TAG, m.attenuation_start_transform, b, o);
    lemma_light_scan_from_1(m, b, pos, o + (opt_block_bytes(KLAS_TAG, m.attenuation_start_transform)).len());
    if m.attenuation_start_transform is None {
        assert(LightModel {
            attenuation_start_transform: None,
            attenuation_end_transform: None,
            color_transform: None,
            intensity_transform: None,
            ambient_color_transform: None,
            ambient_intensity_transform: None,
            visibility_transform: None,
            ..m
        } == LightModel {
            attenuation_end_transform: None,
            color_transform: None,
            intensity_transform: None,
            ambient_color_transform: None,
            ambient_intensity_transform: None,
            visibility_transform: None,
            ..m
        });
    }
}

/// Decoding a `Light` at `pos`: its model and the position after it.
#[verifier::opaque]
pub open spec fn parse_light(b: Seq<u8>, pos: int) -> Result<(LightModel, int), FormatError> {
    if pos + 4 > b.len() {
        Err(FormatError::OutOfBounds)
    } else {
        match Node::parse(b, pos + 4) {
            Err(e) => Err(e),
            Ok((node, p_node)) => {
                if p_node + 44 > b.len() {
                    Err(FormatError::OutOfBounds)
                } else {
                    let m = LightModel {
                        inclusive_size: u32_at(b, pos),
                        node: node,
                        light_type: u32_at(b, p_node),
                        attenuation_start: u32_at(b, p_node + 4),
                        attenuation_end: u32_at(b, p_node + 8),
                        color: Color::parse_at(b, p_node + 12),
                        intensity: u32_at(b, p_node + 24),
                        ambient_color: Color::parse_at(b, p_node + 28),
                        ambient_intensity: u32_at(b, p_node + 40),
                        attenuation_start_transform: None,
                        attenuation_end_transform: None,
                        color_transform: None,
                        intensity_transform: None,
                        ambient_color_transform: None,
                        ambient_intensity_transform: None,
                        visibility_transform: None,
                    };
                    match scan_light(b, pos, m.inclusive_size as int, p_node + 44, m) {
                        Err(e) => Err(e),
                        Ok((m2, q)) => {
                            if sat(light_bytes(m2).len() as int) != m2.inclusive_size as usize {
                                Err(FormatError::SizeMismatch)
                            } else {
                                Ok((m2, q))
                            }
                        },
                    }
                }
            },
        }
    }
}

/// A decoded `Light` declares exactly the length that `total_bytes_size` reports.
pub proof fn lemma_light_size_checked(b: Seq<u8>, pos: int)
    ensures
        parse_light(b, pos) matches Ok((m, _)) ==> sat(light_bytes(m).len() as int)
            == m.inclusive_size as usize,
{
    reveal(parse_light);
}

/// A sub-block tag inside a `Light` other than `KLAS`, `KLAE`, `KLAC`, `KLAI`, `KLBC`, `KLBI`, `KLAV` is refused.
pub proof fn lemma_light_unknown_tag(b: Seq<u8>, start: int, bound: int, pos: int, acc: LightModel)
    requires
        pos - start < bound,
        pos + 4 <= b.len(),
    ensures
        ({
            let tag = u32_at(b, pos);
            !(tag == KLAS_TAG || tag == KLAE_TAG || tag == KLAC_TAG || tag == KLAI_TAG || tag == KLBC_TAG || tag == KLBI_TAG || tag == KLAV_TAG) ==> scan_light(b, start, bound, pos, acc)
                == Err::<(LightModel, int), FormatError>(
                FormatError::UnknownSubTag(tag),
            )
        }),
{
}

/// `m` with every declared size inside it recomputed from the content.
pub open spec fn light_resized(m: LightModel) -> LightModel {
    let n = LightModel { node: Node::resized(m.node), ..m };
    LightModel { inclusive_size: light_bytes(n).len() as u32, ..n }
}

/// After its sizes are recomputed, a `Light` declares exactly its encoded length.
pub proof fn lemma_light_resized_consistent(m: LightModel)
    requires
        light_bytes(m).len() <= u32::MAX,
    ensures
        light_resized(m).inclusive_size == light_bytes(light_resized(m)).len(),
{
    reveal(light_bytes);
    Node::lemma_resized(m.node);
    lemma_u32_bytes(m.inclusive_size);
    lemma_u32_bytes(light_resized(m).inclusive_size);
    Light::lemma_resized(m);
}

/// Where each part of a well-formed `Light` sits in its encoding, and what
/// decoding that part gives.
#[verifier::spinoff_prover]
#[verifier::rlimit(100)]
proof fn lemma_light_parts(m: LightModel, b: Seq<u8>, pos: int)
    requires
        light_wf(m),
        0 <= pos,
        pos + light_bytes(m).len() <= b.len(),
        b.subrange(pos, pos + light_bytes(m).len()) == light_bytes(m),
    ensures
        (u32_bytes(m.inclusive_size)).len() == 4,
        u32_at(b, pos) == m.inclusive_size,
        Node::parse(b, pos + (u32_bytes(m.inclusive_size)).len())
            == Ok::<(NodeModel, int), FormatError>((m.node, pos + (u32_bytes(m.inclusive_size)).len() + (Node::model_bytes(m.node)).len())),
        (u32_bytes(m.light_type)).len() == 4,
        u32_at(b, pos + (u32_bytes(m.inclusive_size)).len() + (Node::model_bytes(m.node)).len())
            == m.light_type,
        (u32_bytes(m.attenuation_start)).len() == 4,
        u32_at(b, pos + (u32_bytes(m.inclusive_size)).len() + (Node::model_bytes(m.node)).len() + (u32_bytes(m.light_type)).len())
            == m.attenuation_start,
        (u32_bytes(m.attenuation_end)).len() == 4,
        u32_at(b, pos + (u32_bytes(m.inclusive_size)).len() + (Node::model_bytes(m.node)).len() + (u32_bytes(m.light_type)).len() + (u32_bytes(m.attenuation_start)).len())
            == m.attenuation_end,
        (m.color.to_bytes()).len() == 12,
        Color::parse_at(b, pos + (u32_bytes(m.inclusive_size)).len() + (Node::model_bytes(m.node)).len() + (u32_bytes(m.light_type)).len() + (u32_bytes(m.attenuation_start)).len() + (u32_bytes(m.attenuation_end)).len())
            == m.color,
        (u32_bytes(m.intensity)).len() == 4,
        u32_at(b, pos + (u32_bytes(m.inclusive_size)).len() + (Node::model_bytes(m.node)).len() + (u32_bytes(m.light_type)).len() + (u32_bytes(m.attenuation_start)).len() + (u32_bytes(m.attenuation_end)).len() + (m.color.to_bytes()).len())
            == m.intensity,
        (m.ambient_color.to_bytes()).len() == 12,
        Color::parse_at(b, pos + (u32_bytes(m.inclusive_size)).len() + (Node::model_bytes(m.node)).len() + (u32_bytes(m.light_type)).len() + (u32_bytes(m.attenuation_start)).len() + (u32_bytes(m.attenuation_end)).len() + (m.color.to_bytes()).len() + (u32_bytes(m.intensity)).len())
            == m.ambient_color,
        (u32_bytes(m.ambient_intensity)).len() == 4,
        u32_at(b, pos + (u32_bytes(m.inclusive_size)).len() + (Node::model_bytes(m.node)).len() + (u32_bytes(m.light_type)).len() + (u32_bytes(m.attenuation_start)).len() + (u32_bytes(m.attenuation_end)).len() + (m.color.to_bytes()).len() + (u32_bytes(m.intensity)).len() + (m.ambient_color.to_bytes()).len())
            == m.ambient_intensity,
        light_bytes(m)
            == u32_bytes(m.inclusive_size) + Node::model_bytes(m.node) + u32_bytes(m.light_type) + u32_bytes(m.attenuation_start) + u32_bytes(m.attenuation_end) + m.color.to_bytes() + u32_bytes(m.intensity) + m.ambient_color.to_bytes() + u32_bytes(m.ambient_intensity) + opt_block_bytes(KLAS_TAG, m.attenuation_start_transform) + opt_block_bytes(KLAE_TAG, m.attenuation_end_transform) + opt_block_bytes(KLAC_TAG, m.color_transform) + opt_block_bytes(KLAI_TAG, m.intensity_transform) + opt_block_bytes(KLBC_TAG, m.ambient_color_transform) + opt_block_bytes(KLBI_TAG, m.ambient_intensity_transform) + opt_block_bytes(KLAV_TAG, m.visibility_transform),
        b.subrange(pos + (u32_bytes(m.inclusive_size)).len() + (Node::model_bytes(m.node)).len() + (u32_bytes(m.light_type)).len() + (u32_bytes(m.attenuation_start)).len() + (u32_bytes(m.attenuation_end)).len() + (m.color.to_bytes()).len() + (u32_bytes(m.intensity)).len() + (m.ambient_color.to_bytes()).len() + (u32_bytes(m.ambient_intensity)).len(), pos + (u32_bytes(m.inclusive_size)).len() + (Node::model_bytes(m.node)).len() + (u32_bytes(m.light_type)).len() + (u32_bytes(m.attenuation_start)).len() + (u32_bytes(m.attenuation_end)).len() + (m.color.to_bytes()).len() + (u32_bytes(m.intensity)).len() + (m.ambient_color.to_bytes()).len() + (u32_bytes(m.ambient_intensity)).len() + (opt_block_bytes(KLAS_TAG, m.attenuation_start_transform) + (opt_block_bytes(KLAE_TAG, m.attenuation_end_transform) + (opt_block_bytes(KLAC_TAG, m.color_transform) + (opt_block_bytes(KLAI_TAG, m.intensity_transform) + (opt_block_bytes(KLBC_TAG, m.ambient_color_transform) + (opt_block_bytes(KLBI_TAG, m.ambient_intensity_transform) + opt_block_bytes(KLAV_TAG, m.visibility_transform))))))).len())
            == opt_block_bytes(KLAS_TAG, m.attenuation_start_transform) + (opt_block_bytes(KLAE_TAG, m.attenuation_end_transform) + (opt_block_bytes(KLAC_TAG, m.color_transform) + (opt_block_bytes(KLAI_TAG, m.intensity_transform) + (opt_block_bytes(KLBC_TAG, m.ambient_color_transform) + (opt_block_bytes(KLBI_TAG, m.ambient_intensity_transform) + opt_block_bytes(KLAV_TAG, m.visibility_transform)))))),
        pos + (u32_bytes(m.inclusive_size)).len() + (Node::model_bytes(m.node)).len() + (u32_bytes(m.light_type)).len() + (u32_bytes(m.attenuation_start)).len() + (u32_bytes(m.attenuation_end)).len() + (m.color.to_bytes()).len() + (u32_bytes(m.intensity)).len() + (m.ambient_color.to_bytes()).len() + (u32_bytes(m.ambient_intensity)).len() + (opt_block_bytes(KLAS_TAG, m.attenuation_start_transform) + (opt_block_bytes(KLAE_TAG, m.attenuation_end_transform) + (opt_block_bytes(KLAC_TAG, m.color_transform) + (opt_block_bytes(KLAI_TAG, m.intensity_transform) + (opt_block_bytes(KLBC_TAG, m.ambient_color_transform) + (opt_block_bytes(KLBI_TAG, m.ambient_intensity_transform) + opt_block_bytes(KLAV_TAG, m.visibility_transform))))))).len()
            == pos + light_bytes(m).len(),
{
    let e = light_bytes(m);
    let q1 = u32_bytes(m.inclusive_size);
    let q2 = q1 + Node::model_bytes(m.node);
    let q3 = q2 + u32_bytes(m.light_type);
    let q4 = q3 + u32_bytes(m.attenuation_start);
    let q5 = q4 + u32_bytes(m.attenuation_end);
    let q6 = q5 + m.color.to_bytes();
    let q7 = q6 + u32_bytes(m.intensity);
    let q8 = q7 + m.ambient_color.to_bytes();
    let q9 = q8 + u32_bytes(m.ambient_intensity);
    let q10 = q9 + opt_block_bytes(KLAS_TAG, m.attenuation_start_transform);
    let q11 = q10 + opt_block_bytes(KLAE_TAG, m.attenuation_end_transform);
    let q12 = q11 + opt_block_bytes(KLAC_TAG, m.color_transform);
    let q13 = q12 + opt_block_bytes(KLAI_TAG, m.intensity_transform);
    let q14 = q13 + opt_block_bytes(KLBC_TAG, m.ambient_color_transform);
    let q15 = q14 + opt_block_bytes(KLBI_TAG, m.ambient_intensity_transform);
    let q16 = q15 + opt_block_bytes(KLAV_TAG, m.visibility_transform);
    assert(q16 == e) by {
        reveal(light_bytes);
    }
    lemma_u32_bytes(m.inclusive_size);
    lemma_u32_bytes(m.light_type);
    lemma_u32_bytes(m.attenuation_start);
    lemma_u32_bytes(m.attenuation_end);
    m.color.lemma_codec(Seq::empty(), 0);
    lemma_u32_bytes(m.intensity);
    m.ambient_color.lemma_codec(Seq::empty(), 0);
    lemma_u32_bytes(m.ambient_intensity);
    lemma_split(b, pos, q15, opt_block_bytes(KLAV_TAG, m.visibility_transform));
    lemma_split(b, pos, q14, opt_block_bytes(KLBI_TAG, m.ambient_intensity_transform));
    lemma_split(b, pos, q13, opt_block_bytes(KLBC_TAG, m.ambient_color_transform));
    lemma_split(b, pos, q12, opt_block_bytes(KLAI_TAG, m.intensity_transform));
    lemma_split(b, pos, q11, opt_block_bytes(KLAC_TAG, m.color_transform));
    lemma_split(b, pos, q10, opt_block_bytes(KLAE_TAG, m.attenuation_end_transform));
    lemma_split(b, pos, q9, opt_block_bytes(KLAS_TAG, m.attenuation_start_transform));
    lemma_split(b, pos, q8, u32_bytes(m.ambient_intensity));
    lemma_split(b, pos, q7, m.ambient_color.to_bytes());
    lemma_split(b, pos, q6, u32_bytes(m.intensity));
    lemma_split(b, pos, q5, m.color.to_bytes());
    lemma_split(b, pos, q4, u32_bytes(m.attenuation_end));
    lemma_split(b, pos, q3, u32_bytes(m.attenuation_start));
    lemma_split(b, pos, q2, u32_bytes(m.light_type));
    lemma_split(b, pos, q1, Node::model_bytes(m.node));
    assert(b.subrange(pos, pos + 4) == u32_bytes(m.inclusive_size));
    assert(u32_at(b, pos) == m.inclusive_size);
    Node::lemma_round_trip(m.node, b, pos + q1.len());
    assert(b.subrange(pos + q2.len(), pos + q2.len() + 4) == u32_bytes(m.light_type));
    assert(u32_at(b, pos + q2.len()) == m.light_type);
    assert(b.subrange(pos + q3.len(), pos + q3.len() + 4) == u32_bytes(m.attenuation_start));
    assert(u32_at(b, pos + q3.len()) == m.attenuation_start);
    assert(b.subrange(pos + q4.len(), pos + q4.len() + 4) == u32_bytes(m.attenuation_end));
    assert(u32_at(b, pos + q4.len()) == m.attenuation_end);
    assert(b.subrange(pos + q5.len(), pos + q5.len() + 12) == m.color.to_bytes());
    m.color.lemma_codec(b, pos + q5.len());
    assert(b.subrange(pos + q6.len(), pos + q6.len() + 4) == u32_bytes(m.intensity));
    assert(u32_at(b, pos + q6.len()) == m.intensity);
    assert(b.subrange(pos + q7.len(), pos + q7.len() + 12) == m.ambient_color.to_bytes());
    m.ambient_color.lemma_codec(b, pos + q7.len());
    assert(b.subrange(pos + q8.len(), pos + q8.len() + 4) == u32_bytes(m.ambient_intensity));
    assert(u32_at(b, pos + q8.len()) == m.ambient_intensity);
    let r6 = opt_block_bytes(KLAV_TAG, m.visibility_transform);
    lemma_join(b, pos + q14.len(), opt_block_bytes(KLBI_TAG, m.ambient_intensity_transform), r6);
    let r5 = opt_block_bytes(KLBI_TAG, m.ambient_intensity_transform) + r6;
    lemma_join(b, pos + q13.len(), opt_block_bytes(KLBC_TAG, m.ambient_color_transform), r5);
    let r4 = opt_block_bytes(KLBC_TAG, m.ambient_color_transform) + r5;
    lemma_join(b, pos + q12.len(), opt_block_bytes(KLAI_TAG, m.intensity_transform), r4);
    let r3 = opt_block_bytes(KLAI_TAG, m.intensity_transform) + r4;
    lemma_join(b, pos + q11.len(), opt_block_bytes(KLAC_TAG, m.color_transform), r3);
    let r2 = opt_block_bytes(KLAC_TAG, m.color_transform) + r3;
    lemma_join(b, pos + q10.len(), opt_block_bytes(KLAE_TAG, m.attenuation_end_transform), r2);
    let r1 = opt_block_bytes(KLAE_TAG, m.attenuation_end_transform) + r2;
    lemma_join(b, pos + q9.len(), opt_block_bytes(KLAS_TAG, m.attenuation_start_transform), r1);
    assert(sat(e.len() as int) == m.inclusive_size as usize);
}

impl Record for Light {
    open spec fn parse(b: Seq<u8>, pos: int) -> Result<(LightModel, int), FormatError> {
        parse_light(b, pos)
    }

    open spec fn encodable(m: LightModel) -> bool {
        light_encodable(m)
    }

    open spec fn wf(m: LightModel) -> bool {
        light_wf(m)
    }

    #[verifier::spinoff_prover]
    #[verifier::rlimit(100)]
    open spec fn resized(m: LightModel) -> LightModel {
        light_resized(m)
    }

    fn calculate_sizes(&mut self) {
        proof {
            reveal(light_bytes);
        }
        proof {
            Node::lemma_resized(self.node@);
        }
        self.node.calculate_sizes();
        let n = self.total_bytes_size();
        self.inclusive_size = n as u32;
    }

    proof fn lemma_resized(m: LightModel) {
        reveal(light_bytes);
        Node::lemma_resized(m.node);
        lemma_u32_bytes(m.inclusive_size);
        lemma_u32_bytes(light_resized(m).inclusive_size);
    }

    proof fn lemma_wf_encodable(m: LightModel) {
        Node::lemma_wf_encodable(m.node);
    }

    proof fn lemma_round_trip(m: LightModel, b: Seq<u8>, pos: int) {
        lemma_light_parts(m, b, pos);
        let e = light_bytes(m);
        lemma_light_scan_from_0(m, b, pos, pos + (u32_bytes(m.inclusive_size)).len() + (Node::model_bytes(m.node)).len() + (u32_bytes(m.light_type)).len() + (u32_bytes(m.attenuation_start)).len() + (u32_bytes(m.attenuation_end)).len() + (m.color.to_bytes()).len() + (u32_bytes(m.intensity)).len() + (m.ambient_color.to_bytes()).len() + (u32_bytes(m.ambient_intensity)).len());
        assert(sat(e.len() as int) == m.inclusive_size as usize);
        assert(parse_light(b, pos) == Ok::<(LightModel, int), FormatError>((m, pos + e.len()))) by {
            reveal(parse_light);
        }
    }

    #[verifier::loop_isolation(false)]
    fn decode(src: &[u8], pos: usize) -> (r: Result<(Light, usize), FormatError>) {
        proof {
            reveal(parse_light);
        }
        let mut p: usize = pos;
        if src.len() - p < 4 {
            return Err(FormatError::OutOfBounds);
        }
        let inclusive_size = read_u32(src, p);
        p = p + 4;
        let node = match Node::decode(src, p) {
            Ok((v, q)) => {
                p = q;
                v
            },
            Err(e) => {
                return Err(e);
            },
        };
        if src.len() - p < 44 {
            return Err(FormatError::OutOfBounds);
        }
        let light_type = read_u32(src, p);
        let attenuation_start = read_u32(src, p + 4);
        let attenuation_end = read_u32(src, p + 8);
        let color = Color::read_at(src, p + 12);
        let intensity = read_u32(src, p + 24);
        let ambient_color = Color::read_at(src, p + 28);
        let ambient_intensity = read_u32(src, p + 40);
        p = p + 44;
        let mut v = Light {
            inclusive_size,
            node,
            light_type,
            attenuation_start,
            attenuation_end,
            color,
            intensity,
            ambient_color,
            ambient_intensity,
            attenuation_start_transform: None,
            attenuation_end_transform: None,
            color_transform: None,
            intensity_transform: None,
            ambient_color_transform: None,
            ambient_intensity_transform: None,
            visibility_transform: None,
        };
        let ghost start_model = v@;
        let ghost p0 = p as int;
        while p - pos < v.inclusive_size as usize
            invariant
                pos <= p <= src.len(),
                scan_light(src@, pos as int, v.inclusive_size as int, p0, start_model)
                    == scan_light(
                    src@,
                    pos as int,
                    v.inclusive_size as int,
                    p as int,
                    v@,
                ),
                v.inclusive_size == start_model.inclusive_size,
            decreases src.len() - p,
        {
            if src.len() - p < 4 {
                return Err(FormatError::OutOfBounds);
            }
            let tag = read_u32(src, p);
            if tag == KLAS_TAG {
                match Transform::<u32>::decode(src, p + 4) {
                    Ok((t, q)) => {
                        v.attenuation_start_transform = Some(t);
                        p = q;
                    },
                    Err(e) => {
                        return Err(e);
                    },
                }
            } else if tag == KLAE_TAG {
                match Transform::<u32>::decode(src, p + 4) {
                    Ok((t, q)) => {
                        v.attenuation_end_transform = Some(t);
                        p = q;
                    },
                    Err(e) => {
                        return Err(e);
                    },
                }
            } else if tag == KLAC_TAG {
                match Transform::<Color>::decode(src, p + 4) {
                    Ok((t, q)) => {
                        v.color_transform = Some(t);
                        p = q;
                    },
                    Err(e) => {
                        return Err(e);
                    },
                }
            } else if tag == KLAI_TAG {
                match Transform::<u32>::decode(src, p + 4) {
                    Ok((t, q)) => {
                        v.intensity_transform = Some(t);
                        p = q;
                    },
                    Err(e) => {
                        return Err(e);
                    },
                }
            } else if tag == KLBC_TAG {
                match Transform::<Color>::decode(src, p + 4) {
                    Ok((t, q)) => {
                        v.ambient_color_transform = Some(t);
                        p = q;
                    },
                    Err(e) => {
                        return Err(e);
                    },
                }
            } else if tag == KLBI_TAG {
                match Transform::<u32>::decode(src, p + 4) {
                    Ok((t, q)) => {
                        v.ambient_intensity_transform = Some(t);
                        p = q;
                    },
                    Err(e) => {
                        return Err(e);
                    },
                }
            } else if tag == KLAV_TAG {
                match Transform::<u32>::decode(src, p + 4) {
                    Ok((t, q)) => {
                        v.visibility_transform = Some(t);
                        p = q;
                    },
                    Err(e) => {
                        return Err(e);
                    },
                }
            } else {
                return Err(FormatError::UnknownSubTag(tag));
            }
        }
        if v.total_bytes_size() != v.inclusive_size as usize {
            return Err(FormatError::SizeMismatch);
        }
        Ok((v, p))
    }

    #[verifier::spinoff_prover]
    #[verifier::rlimit(100)]
    fn encode(&self, out: &mut Vec<u8>) -> (r: Result<(), FormatError>) {
        proof {
            reveal(light_bytes);
        }
        let ghost start = out@;
        write_u32(out, self.inclusive_size);
        let ghost mut acc = u32_bytes(self@.inclusive_size);
        assert(out@ =~= start + acc);
        if let Err(e) = self.node.encode(out) {
            return Err(e);
        }
        proof {
            acc = acc + Node::model_bytes(self@.node);
        }
        assert(out@ =~= start + acc);
        write_u32(out, self.light_type);
        proof {
            acc = acc + u32_bytes(self@.light_type);
        }
        assert(out@ =~= start + acc);
        write_u32(out, self.attenuation_start);
        proof {
            acc = acc + u32_bytes(self@.attenuation_start);
        }
        assert(out@ =~= start + acc);
        write_u32(out, self.attenuation_end);
        proof {
            acc = acc + u32_bytes(self@.attenuation_end);
        }
        assert(out@ =~= start + acc);
        self.color.write_to(out);
        proof {
            acc = acc + self@.color.to_bytes();
        }
        assert(out@ =~= start + acc);
        write_u32(out, self.intensity);
        proof {
            acc = acc + u32_bytes(self@.intensity);
        }
        assert(out@ =~= start + acc);
        self.ambient_color.write_to(out);
        proof {
            acc = acc + self@.ambient_color.to_bytes();
        }
        assert(out@ =~= start + acc);
        write_u32(out, self.ambient_intensity);
        proof {
            acc = acc + u32_bytes(self@.ambient_intensity);
        }
        assert(out@ =~= start + acc);
        write_opt_block(out, KLAS_TAG, &self.attenuation_start_transform);
        proof {
            acc = acc + opt_block_bytes(KLAS_TAG, self@.attenuation_start_transform);
        }
        assert(out@ =~= start + acc);
        write_opt_block(out, KLAE_TAG, &self.attenuation_end_transform);
        proof {
            acc = acc + opt_block_bytes(KLAE_TAG, self@.attenuation_end_transform);
        }
        assert(out@ =~= start + acc);
        write_opt_block(out, KLAC_TAG, &self.color_transform);
        proof {
            acc = acc + opt_block_bytes(KLAC_TAG, self@.color_transform);
        }
        assert(out@ =~= start + acc);
        write_opt_block(out, KLAI_TAG, &self.intensity_transform);
        proof {
            acc = acc + opt_block_bytes(KLAI_TAG, self@.intensity_transform);
        }
        assert(out@ =~= start + acc);
        write_opt_block(out, KLBC_TAG, &self.ambient_color_transform);
        proof {
            acc = acc + opt_block_bytes(KLBC_TAG, self@.ambient_color_transform);
        }
        assert(out@ =~= start + acc);
        write_opt_block(out, KLBI_TAG, &self.ambient_intensity_transform);
        proof {
            acc = acc + opt_block_bytes(KLBI_TAG, self@.ambient_intensity_transform);
        }
        assert(out@ =~= start + acc);
        write_opt_block(out, KLAV_TAG, &self.visibility_transform);
        proof {
            acc = acc + opt_block_bytes(KLAV_TAG, self@.visibility_transform);
        }
        assert(out@ =~= start + acc);
        assert(acc == light_bytes(self@));
        Ok(())
    }

}

impl BytesTotalSize for Light {
    open spec fn model_bytes(m: LightModel) -> Seq<u8> {
        light_bytes(m)
    }

    fn total_bytes_size(&self) -> (r: usize) {
        proof {
            reveal(light_bytes);
        }
        let mut r: usize = 0;
        let ghost mut acc: Seq<u8> = Seq::empty();
        let k: usize = 4;
        proof {
            lemma_u32_bytes(self.inclusive_size);
            lemma_sat_add(acc.len() as int, (u32_bytes(self@.inclusive_size)).len() as int);
            acc = acc + u32_bytes(self@.inclusive_size);
        }
        r = add_sat(r, k);
        let k: usize = self.node.total_bytes_size();
        proof {
            lemma_sat_add(acc.len() as int, (Node::model_bytes(self@.node)).len() as int);
            acc = acc + Node::model_bytes(self@.node);
        }
        r = add_sat(r, k);
        let k: usize = 4;
        proof {
            lemma_u32_bytes(self.light_type);
            lemma_sat_add(acc.len() as int, (u32_bytes(self@.light_type)).len() as int);
            acc = acc + u32_bytes(self@.light_type);
        }
        r = add_sat(r, k);
        let k: usize = 4;
        proof {
            lemma_u32_bytes(self.attenuation_start);
            lemma_sat_add(acc.len() as int, (u32_bytes(self@.attenuation_start)).len() as int);
            acc = acc + u32_bytes(self@.attenuation_start);
        }
        r = add_sat(r, k);
        let k: usize = 4;
        proof {
            lemma_u32_bytes(self.attenuation_end);
            lemma_sat_add(acc.len() as int, (u32_bytes(self@.attenuation_end)).len() as int);
            acc = acc + u32_bytes(self@.attenuation_end);
        }
        r = add_sat(r, k);
        let k: usize = Color::byte_width();
        proof {
            self.color.lemma_codec(Seq::empty(), 0);
            lemma_sat_add(acc.len() as int, (self@.color.to_bytes()).len() as int);
            acc = acc + self@.color.to_bytes();
        }
        r = add_sat(r, k);
        let k: usize = 4;
        proof {
            lemma_u32_bytes(self.intensity);
            lemma_sat_add(acc.len() as int, (u32_bytes(self@.intensity)).len() as int);
            acc = acc + u32_bytes(self@.intensity);
        }
        r = add_sat(r, k);
        let k: usize = Color::byte_width();
        proof {
            self.ambient_color.lemma_codec(Seq::empty(), 0);
            lemma_sat_add(acc.len() as int, (self@.ambient_color.to_bytes()).len() as int);
            acc = acc + self@.ambient_color.to_bytes();
        }
        r = add_sat(r, k);
        let k: usize = 4;
        proof {
            lemma_u32_bytes(self.ambient_intensity);
            lemma_sat_add(acc.len() as int, (u32_bytes(self@.ambient_intensity)).len() as int);
            acc = acc + u32_bytes(self@.ambient_intensity);
        }
        r = add_sat(r, k);
        let k: usize = opt_block_size(&self.attenuation_start_transform);
        proof {
            lemma_sat_add(acc.len() as int, (opt_block_bytes(KLAS_TAG, self@.attenuation_start_transform)).len() as int);
            acc = acc + opt_block_bytes(KLAS_TAG, self@.attenuation_start_transform);
        }
        r = add_sat(r, k);
        let k: usize = opt_block_size(&self.attenuation_end_transform);
        proof {
            lemma_sat_add(acc.len() as int, (opt_block_bytes(KLAE_TAG, self@.attenuation_end_transform)).len() as int);
            acc = acc + opt_block_bytes(KLAE_TAG, self@.attenuation_end_transform);
        }
        r = add_sat(r, k);
        let k: usize = opt_block_size(&self.color_transform);
        proof {
            lemma_sat_add(acc.len() as int, (opt_block_bytes(KLAC_TAG, self@.color_transform)).len() as int);
            acc = acc + opt_block_bytes(KLAC_TAG, self@.color_transform);
        }
        r = add_sat(r, k);
        let k: usize = opt_block_size(&self.intensity_transform);
        proof {
            lemma_sat_add(acc.len() as int, (opt_block_bytes(KLAI_TAG, self@.intensity_transform)).len() as int);
            acc = acc + opt_block_bytes(KLAI_TAG, self@.intensity_transform);
        }
        r = add_sat(r, k);
        let k: usize = opt_block_size(&self.ambient_color_transform);
        proof {
            lemma_sat_add(acc.len() as int, (opt_block_bytes(KLBC_TAG, self@.ambient_color_transform)).len() as int);
            acc = acc + opt_block_bytes(KLBC_TAG, self@.ambient_color_transform);
        }
        r = add_sat(r, k);
        let k: usize = opt_block_size(&self.ambient_intensity_transform);
        proof {
            lemma_sat_add(acc.len() as int, (opt_block_bytes(KLBI_TAG, self@.ambient_intensity_transform)).len() as int);
            acc = acc + opt_block_bytes(KLBI_TAG, self@.ambient_intensity_transform);
        }
        r = add_sat(r, k);
        let k: usize = opt_block_size(&self.visibility_transform);
        proof {
            lemma_sat_add(acc.len() as int, (opt_block_bytes(KLAV_TAG, self@.visibility_transform)).len() as int);
            acc = acc + opt_block_bytes(KLAV_TAG, self@.visibility_transform);
        }
        r = add_sat(r, k);
        assert(acc =~= light_bytes(self@));
        r
    }
}

impl Inclusive for Light {
    open spec fn declared(m: LightModel) -> int {
        m.inclusive_size as int
    }

    fn declared_size(&self) -> (r: u64) {
        self.inclusive_size as u64
    }

    proof fn lemma_declared(m: LightModel) {
        reveal(light_bytes);
        lemma_u32_bytes(m.inclusive_size);
        lemma_u32_bytes(m.light_type);
        lemma_u32_bytes(m.attenuation_start);
        lemma_u32_bytes(m.attenuation_end);
        lemma_u32_bytes(m.intensity);
        lemma_u32_bytes(m.ambient_intensity);
    }
}

/// A run of `Light` records, read while the sum of their declared sizes stays below `chunk_size`.
#[derive(PartialEq, Debug)]
pub struct LightChunk {
    pub chunk_size: u32,
    pub data: Vec<Light>,
}

/// The mathematical content of a `LightChunk`.
pub struct LightChunkModel {
    pub chunk_size: u32,
    pub data: Seq<LightModel>,
}

impl View for LightChunk {
    type V = LightChunkModel;

    open spec fn view(&self) -> LightChunkModel {
        LightChunkModel {
            chunk_size: self.chunk_size,
            data: views(self.data@),
        }
    }
}

/// The bytes that encoding a `LightChunk` writes.
#[verifier::opaque]
pub open spec fn light_chunk_bytes(m: LightChunkModel) -> Seq<u8> {
    u32_bytes(m.chunk_size)
    + records_bytes::<Light>(m.data)
}

pub open spec fn light_chunk_encodable(m: LightChunkModel) -> bool {
    records_encodable::<Light>(m.data)
}

/// A `LightChunk` that decoding its encoding gives back.
pub open spec fn light_chunk_wf(m: LightChunkModel) -> bool {
    &&& records_wf::<Light>(m.data)
    &&& m.chunk_size + 4 == light_chunk_bytes(m).len()
}

/// Decoding a `LightChunk` at `pos`: its model and the position after it.
#[verifier::opaque]
pub open spec fn parse_light_chunk(b: Seq<u8>, pos: int) -> Result<(LightChunkModel, int), FormatError> {
    if pos + 4 > b.len() {
        Err(FormatError::OutOfBounds)
    } else {
        match parse_inclusive::<Light>(b, pos + 4, 0, u32_at(b, pos) as int) {
            Err(e) => Err(e),
            Ok((data, p_data)) => {
                let m = LightChunkModel {
                    chunk_size: u32_at(b, pos),
                    data: data,
                };
                Ok((m, p_data))
            },
        }
    }
}

/// `m` with every declared size inside it recomputed from the content.
pub open spec fn light_chunk_resized(m: LightChunkModel) -> LightChunkModel {
    LightChunkModel { data: resized_seq::<Light>(m.data), ..m }
}

impl Record for LightChunk {
    open spec fn parse(b: Seq<u8>, pos: int) -> Result<(LightChunkModel, int), FormatError> {
        parse_light_chunk(b, pos)
    }

    open spec fn encodable(m: LightChunkModel) -> bool {
        light_chunk_encodable(m)
    }

    open spec fn wf(m: LightChunkModel) -> bool {
        light_chunk_wf(m)
    }

    open spec fn resized(m: LightChunkModel) -> LightChunkModel {
        light_chunk_resized(m)
    }

    fn calculate_sizes(&mut self) {
        proof {
            reveal(light_chunk_bytes);
        }
        proof {
            lemma_resized_seq::<Light>(views(self.data@));
        }
        resize_records(&mut self.data);
    }

    proof fn lemma_resized(m: LightChunkModel) {
        reveal(light_chunk_bytes);
        lemma_resized_seq::<Light>(m.data);
    }

    proof fn lemma_wf_encodable(m: LightChunkModel) {
        lemma_records_wf_encodable::<Light>(m.data);
    }

    proof fn lemma_round_trip(m: LightChunkModel, b: Seq<u8>, pos: int) {
        let e = light_chunk_bytes(m);
        let q1 = u32_bytes(m.chunk_size);
        let q2 = q1 + records_bytes::<Light>(m.data);
        assert(q2 == e) by {
            reveal(light_chunk_bytes);
        }
        lemma_u32_bytes(m.chunk_size);
        lemma_split(b, pos, q1, records_bytes::<Light>(m.data));
        assert(b.subrange(pos, pos + 4) == u32_bytes(m.chunk_size));
        assert(u32_at(b, pos) == m.chunk_size);
        lemma_inclusive_round_trip::<Light>(m.data, b, pos + q1.len(), 0);
        assert(parse_light_chunk(b, pos) == Ok::<(LightChunkModel, int), FormatError>((m, pos + e.len()))) by {
            reveal(parse_light_chunk);
        }
    }

    fn decode(src: &[u8], pos: usize) -> (r: Result<(LightChunk, usize), FormatError>) {
        proof {
            reveal(parse_light_chunk);
        }
        let mut p: usize = pos;
        if src.len() - p < 4 {
            return Err(FormatError::OutOfBounds);
        }
        let chunk_size = read_u32(src, p);
        p = p + 4;
        let data = match read_inclusive::<Light>(src, p, chunk_size) {
            Ok((v, q)) => {
                p = q;
                v
            },
            Err(e) => {
                return Err(e);
            },
        };
        let v = LightChunk { chunk_size, data };
        Ok((v, p))
    }

    fn encode(&self, out: &mut Vec<u8>) -> (r: Result<(), FormatError>) {
        proof {
            reveal(light_chunk_bytes);
        }
        let ghost start = out@;
        write_u32(out, self.chunk_size);
        let ghost mut acc = u32_bytes(self@.chunk_size);
        assert(out@ =~= start + acc);
        if let Err(e) = write_records(out, &self.data) {
            return Err(e);
        }
        proof {
            acc = acc + records_bytes::<Light>(self@.data);
        }
        assert(out@ =~= start + acc);
        assert(acc == light_chunk_bytes(self@));
        Ok(())
    }

}

impl BytesTotalSize for LightChunk {
    open spec fn model_bytes(m: LightChunkModel) -> Seq<u8> {
        light_chunk_bytes(m)
    }

    fn total_bytes_size(&self) -> (r: usize) {
        proof {
            reveal(light_chunk_bytes);
        }
        let mut r: usize = 0;
        let ghost mut acc: Seq<u8> = Seq::empty();
        let k: usize = 4;
        proof {
            lemma_u32_bytes(self.chunk_size);
            lemma_sat_add(acc.len() as int, (u32_bytes(self@.chunk_size)).len() as int);
            acc = acc + u32_bytes(self@.chunk_size);
        }
        r = add_sat(r, k);
        let k: usize = records_size(&self.data);
        proof {
            lemma_sat_add(acc.len() as int, (records_bytes::<Light>(self@.data)).len() as int);
            acc = acc + records_bytes::<Light>(self@.data);
        }
        r = add_sat(r, k);
        assert(acc =~= light_chunk_bytes(self@));
        r
    }
}

/// `m` with `chunk_size` set to the encoded length without the size field itself.
pub open spec fn light_chunk_sized(m: LightChunkModel) -> LightChunkModel {
    LightChunkModel { chunk_size: (light_chunk_bytes(m).len() - 4) as u32, ..m }
}

impl Chunk for LightChunk {
    open spec fn sized(m: LightChunkModel) -> LightChunkModel {
        light_chunk_sized(m)
    }

    open spec fn chunk_size_of(m: LightChunkModel) -> u32 {
        m.chunk_size
    }

    proof fn lemma_sized_id(m: LightChunkModel) {
    }

    proof fn lemma_chunk_min_len(m: LightChunkModel) {
        reveal(light_chunk_bytes);
        lemma_u32_bytes(m.chunk_size);
    }

    fn calculate_chunk_size(&mut self) {
        let n = self.total_bytes_size();
        self.chunk_size = (n - 4) as u32;
        proof {
            reveal(light_chunk_bytes);
            lemma_u32_bytes(old(self).chunk_size);
            lemma_u32_bytes(self.chunk_size);
        }
    }
}

} // verus!
