//! Nodes: the shared header of the scene objects.

use crate::codec::{
    add_sat, lemma_join, lemma_sat_add, lemma_split, lemma_text_field_len, lemma_text_round_trip,
    lemma_u32_bytes, parse_text, read_text, read_u32, sat, text_field, text_fits, text_ok, u32_at,
    u32_bytes, write_text, write_u32,
};
use crate::consts::{KGRT_TAG, KGSC_TAG, KGTR_TAG};
use crate::data_types::{Vec3, Vec4};
use crate::error::FormatError;
use crate::record::{BytesTotalSize, Record};
use crate::tracks::{
    Transform, TransformModel, lemma_opt_block_round_trip, opt_block_bytes, opt_block_size,
    opt_view, parse_transform, transform_wf, write_opt_block,
};
use vstd::prelude::*;

verus! {

broadcast use vstd::seq::group_seq_axioms;

/// The common header of bones, lights, helpers and attachments.
#[derive(PartialEq, Debug)]
pub struct Node {
    pub inclusive_size: u32,
    pub name: String,
    pub object_id: u32,
    pub parent_id: u32,
    pub flags: u32,
    pub translation: Option<Transform<Vec3>>,
    pub rotation: Option<Transform<Vec4>>,
    pub scaling: Option<Transform<Vec3>>,
}

/// The mathematical content of a `Node`.
pub struct NodeModel {
    pub inclusive_size: u32,
    pub name: Seq<char>,
    pub object_id: u32,
    pub parent_id: u32,
    pub flags: u32,
    pub translation: Option<TransformModel<Vec3>>,
    pub rotation: Option<TransformModel<Vec4>>,
    pub scaling: Option<TransformModel<Vec3>>,
}

impl View for Node {
    type V = NodeModel;

    open spec fn view(&self) -> NodeModel {
        NodeModel {
            inclusive_size: self.inclusive_size,
            name: self.name@,
            object_id: self.object_id,
            parent_id: self.parent_id,
            flags: self.flags,
            translation: opt_view(self.translation),
            rotation: opt_view(self.rotation),
            scaling: opt_view(self.scaling),
        }
    }
}

/// The bytes that encoding a `Node` writes.
#[verifier::opaque]
pub open spec fn node_bytes(m: NodeModel) -> Seq<u8> {
    u32_bytes(m.inclusive_size)
    + text_field(m.name, 80)
    + u32_bytes(m.object_id)
    + u32_bytes(m.parent_id)
    + u32_bytes(m.flags)
    + opt_block_bytes(KGTR_TAG, m.translation)
    + opt_block_bytes(KGRT_TAG, m.rotation)
    + opt_block_bytes(KGSC_TAG, m.scaling)
}

pub open spec fn node_encodable(m: NodeModel) -> bool {
    text_fits(m.name, 80)
}

/// A `Node` that decoding its encoding gives back.
pub open spec fn node_wf(m: NodeModel) -> bool {
    &&& text_ok(m.name, 80)
    &&& (m.translation matches Some(t) ==> transform_wf(t))
    &&& (m.rotation matches Some(t) ==> transform_wf(t))
    &&& (m.scaling matches Some(t) ==> transform_wf(t))
    &&& m.inclusive_size == node_bytes(m).len()
}

/// The optional sub-blocks of a `Node` from `pos` on, read while the
/// position stays below `start + bound`; each one replaces the field of its tag.
pub open spec fn scan_node(b: Seq<u8>, start: int, bound: int, pos: int, acc: NodeModel) -> Result<
    (NodeModel, int),
    FormatError,
>
    decreases b.len() - pos,
{
    if pos - start >= bound {
        Ok((acc, pos))
    } else if pos + 4 > b.len() {
        Err(FormatError::OutOfBounds)
    } else {
        let tag = u32_at(b, pos);
        if tag == KGTR_TAG {
            match parse_transform::<Vec3>(b, pos + 4) {
                Err(e) => Err(e),
                Ok((t, q)) => if q <= pos || q > b.len() {
                    Err(FormatError::OutOfBounds)
                } else {
                    scan_node(
                        b,
                        start,
                        bound,
                        q,
                        NodeModel {
                            inclusive_size: acc.inclusive_size,
                            name: acc.name,
                            object_id: acc.object_id,
                            parent_id: acc.parent_id,
                            flags: acc.flags,
                            translation: Some(t),
                            rotation: acc.rotation,
                            scaling: acc.scaling,
                        },
                    )
                },
            }
        } else if tag == KGRT_TAG {
            match parse_transform::<Vec4>(b, pos + 4) {
                Err(e) => Err(e),
                Ok((t, q)) => if q <= pos || q > b.len() {
                    Err(FormatError::OutOfBounds)
                } else {
                    scan_node(
                        b,
                        start,
                        bound,
                        q,
                        NodeModel {
                            inclusive_size: acc.inclusive_size,
                            name: acc.name,
                            object_id: acc.object_id,
                            parent_id: acc.parent_id,
                            flags: acc.flags,
                            translation: acc.translation,
                            rotation: Some(t),
                            scaling: acc.scaling,
                        },
                    )
                },
            }
        } else if tag == KGSC_TAG {
            match parse_transform::<Vec3>(b, pos + 4) {
                Err(e) => Err(e),
                Ok((t, q)) => if q <= pos || q > b.len() {
                    Err(FormatError::OutOfBounds)
                } else {
                    scan_node(
                        b,
                        start,
                        bound,
                        q,
                        NodeModel {
                            inclusive_size: acc.inclusive_size,
                            name: acc.name,
                            object_id: acc.object_id,
                            parent_id: acc.parent_id,
                            flags: acc.flags,
                            translation: acc.translation,
                            rotation: acc.rotation,
                            scaling: Some(t),
                        },
                    )
                },
            }
        } else {
            Err(FormatError::UnknownSubTag(tag))
        }
    }
}

/// The sub-blocks of a well-formed `Node` from the `KGSC` one on scan back into it.
proof fn lemma_node_scan_from_2(m: NodeModel, b: Seq<u8>, pos: int, o: int)
    requires
        m.scaling matches Some(t) ==> transform_wf(t),
        0 <= pos <= o,
        o + (opt_block_bytes(KGSC_TAG, m.scaling)).len() == pos + m.inclusive_size as int,
        o + (opt_block_bytes(KGSC_TAG, m.scaling)).len() <= b.len(),
        b.subrange(o, o + (opt_block_bytes(KGSC_TAG, m.scaling)).len())
            == opt_block_bytes(KGSC_TAG, m.scaling),
    ensures
        scan_node(b, pos, m.inclusive_size as int, o, NodeModel {
            scaling: None,
            ..m
        }) == Ok::<(NodeModel, int), FormatError>(
            (m, o + (opt_block_bytes(KGSC_TAG, m.scaling)).len()),
        ),
{
    lemma_opt_block_round_trip(KGSC_TAG, m.scaling, b, o);
    let e = o + (opt_block_bytes(KGSC_TAG, m.scaling)).len();
    assert(scan_node(b, pos, m.inclusive_size as int, e, m) == Ok::<(NodeModel, int), FormatError>((m, e)));
    if m.scaling is None {
        assert(NodeModel { scaling: None, ..m } == m);
    }
}

/// The sub-blocks of a well-formed `Node` from the `KGRT` one on scan back into it.
proof fn lemma_node_scan_from_1(m: NodeModel, b: Seq<u8>, pos: int, o: int)
    requires
        m.rotation matches Some(t) ==> transform_wf(t),
        m.scaling matches Some(t) ==> transform_wf(t),
        0 <= pos <= o,
        o + (opt_block_bytes(KGRT_TAG, m.rotation) + opt_block_bytes(KGSC_TAG, m.scaling)).len()
            == pos + m.inclusive_size as int,
        o + (opt_block_bytes(KGRT_TAG, m.rotation) + opt_block_bytes(KGSC_TAG, m.scaling)).len() <= b.len(),
        b.subrange(o, o + (opt_block_bytes(KGRT_TAG, m.rotation) + opt_block_bytes(KGSC_TAG, m.scaling)).len())
            == opt_block_bytes(KGRT_TAG, m.rotation) + opt_block_bytes(KGSC_TAG, m.scaling),
    ensures
        scan_node(b, pos, m.inclusive_size as int, o, NodeModel {
            rotation: None,
            scaling: None,
            ..m
        }) == Ok::<(NodeModel, int), FormatError>(
            (m, o + (opt_block_bytes(KGRT_TAG, m.rotation) + opt_block_bytes(KGSC_TAG, m.scaling)).len()),
        ),
{
    lemma_split(b, o, opt_block_bytes(KGRT_TAG, m.rotation), opt_block_bytes(KGSC_TAG, m.scaling));
    lemma_opt_block_round_trip(KGRT_TAG, m.rotation, b, o);
    lemma_node_scan_from_2(m, b, pos, o + (opt_block_bytes(KGRT_TAG, m.rotation)).len());
    if m.rotation is None {
        assert(NodeModel {
            rotation: None,
            scaling: None,
            ..m
        } == NodeModel { scaling: None, ..m });
    }
}

/// The sub-blocks of a well-formed `Node`, written in their fixed order,
/// scan back into it.
proof fn lemma_node_scan_from_0(m: NodeModel, b: Seq<u8>, pos: int, o: int)
    requires
        m.translation matches Some(t) ==> transform_wf(t),
        m.rotation matches Some(t) ==> transform_wf(t),
        m.scaling matches Some(t) ==> transform_wf(t),
        0 <= pos <= o,
        o + (opt_block_bytes(KGTR_TAG, m.translation) + (opt_block_bytes(KGRT_TAG, m.rotation) + opt_block_bytes(KGSC_TAG, m.scaling))).len()
            == pos + m.inclusive_size as int,
        o + (opt_block_bytes(KGTR_TAG, m.translation) + (opt_block_bytes(KGRT_TAG, m.rotation) + opt_block_bytes(KGSC_TAG, m.scaling))).len() <= b.len(),
        b.subrange(o, o + (opt_block_bytes(KGTR_TAG, m.translation) + (opt_block_bytes(KGRT_TAG, m.rotation) + opt_block_bytes(KGSC_TAG, m.scaling))).len())
            == opt_block_bytes(KGTR_TAG, m.translation) + (opt_block_bytes(KGRT_TAG, m.rotation) + opt_block_bytes(KGSC_TAG, m.scaling)),
    ensures
        scan_node(b, pos, m.inclusive_size as int, o, NodeModel {
            translation: None,
            rotation: None,
            scaling: None,
            ..m
        }) == Ok::<(NodeModel, int), FormatError>(
            (m, o + (opt_block_bytes(KGTR_TAG, m.translation) + (opt_block_bytes(KGRT_TAG, m.rotation) + opt_block_bytes(KGSC_TAG, m.scaling))).len()),
        ),
{
    lemma_split(b, o, opt_block_bytes(KGTR_TAG, m.translation), opt_block_bytes(KGRT_TAG, m.rotation) + opt_block_bytes(KGSC_TAG, m.scaling));
    lemma_opt_block_round_trip(KGTR_TAG, m.translation, b, o);
    lemma_node_scan_from_1(m, b, pos, o + (opt_block_bytes(KGTR_TAG, m.translation)).len());
    if m.translation is None {
        assert(NodeModel {
            translation: None,
            rotation: None,
            scaling: None,
            ..m
        } == NodeModel { rotation: None, scaling: None, ..m });
    }
}

/// Decoding a `Node` at `pos`: its model and the position after it.
#[verifier::opaque]
pub open spec fn parse_node(b: Seq<u8>, pos: int) -> Result<(NodeModel, int), FormatError> {
    if pos + 96 > b.len() {
        Err(FormatError::OutOfBounds)
    } else {
        match parse_text(b, pos + 4, 80) {
            Err(e) => Err(e),
            Ok(name) => {
                let m = NodeModel {
                    inclusive_size: u32_at(b, pos),
                    name: name,
                    object_id: u32_at(b, pos + 84),
                    parent_id: u32_at(b, pos + 88),
                    flags: u32_at(b, pos + 92),
                    translation: None,
                    rotation: None,
                    scaling: None,
                };
                match scan_node(b, pos, m.inclusive_size as int, pos + 96, m) {
                    Err(e) => Err(e),
                    Ok((m2, q)) => {
                        if sat(node_bytes(m2).len() as int) != m2.inclusive_size as usize {
                            Err(FormatError::SizeMismatch)
                        } else {
                            Ok((m2, q))
                        }
                    },
                }
            },
        }
    }
}

/// A decoded `Node` declares exactly the length that `total_bytes_size` reports.
pub proof fn lemma_node_size_checked(b: Seq<u8>, pos: int)
    ensures
        parse_node(b, pos) matches Ok((m, _)) ==> sat(node_bytes(m).len() as int)
            == m.inclusive_size as usize,
{
    reveal(parse_node);
}

/// A sub-block tag inside a `Node` other than `KGTR`, `KGRT`, `KGSC` is refused.
pub proof fn lemma_node_unknown_tag(b: Seq<u8>, start: int, bound: int, pos: int, acc: NodeModel)
    requires
        pos - start < bound,
        pos + 4 <= b.len(),
    ensures
        ({
            let tag = u32_at(b, pos);
            !(tag == KGTR_TAG || tag == KGRT_TAG || tag == KGSC_TAG) ==> scan_node(b, start, bound, pos, acc)
                == Err::<(NodeModel, int), FormatError>(
                FormatError::UnknownSubTag(tag),
            )
        }),
{
}

/// `m` with every declared size inside it recomputed from the content.
pub open spec fn node_resized(m: NodeModel) -> NodeModel {
    let n = m;
    NodeModel { inclusive_size: node_bytes(n).len() as u32, ..n }
}

/// After its sizes are recomputed, a `Node` declares exactly its encoded length.
pub proof fn lemma_node_resized_consistent(m: NodeModel)
    requires
        node_bytes(m).len() <= u32::MAX,
    ensures
        node_resized(m).inclusive_size == node_bytes(node_resized(m)).len(),
{
    reveal(node_bytes);
    lemma_u32_bytes(m.inclusive_size);
    lemma_u32_bytes(node_resized(m).inclusive_size);
    Node::lemma_resized(m);
}

impl Record for Node {
    open spec fn parse(b: Seq<u8>, pos: int) -> Result<(NodeModel, int), FormatError> {
        parse_node(b, pos)
    }

    open spec fn encodable(m: NodeModel) -> bool {
        node_encodable(m)
    }

    open spec fn wf(m: NodeModel) -> bool {
        node_wf(m)
    }

    open spec fn resized(m: NodeModel) -> NodeModel {
        node_resized(m)
    }

    fn calculate_sizes(&mut self) {
        proof {
            reveal(node_bytes);
        }
        let n = self.total_bytes_size();
        self.inclusive_size = n as u32;
    }

    proof fn lemma_resized(m: NodeModel) {
        reveal(node_bytes);
        lemma_u32_bytes(m.inclusive_size);
        lemma_u32_bytes(node_resized(m).inclusive_size);
    }

    proof fn lemma_wf_encodable(m: NodeModel) {
    }

    proof fn lemma_round_trip(m: NodeModel, b: Seq<u8>, pos: int) {
        let e = node_bytes(m);
        let q1 = u32_bytes(m.inclusive_size);
        let q2 = q1 + text_field(m.name, 80);
        let q3 = q2 + u32_bytes(m.object_id);
        let q4 = q3 + u32_bytes(m.parent_id);
        let q5 = q4 + u32_bytes(m.flags);
        let q6 = q5 + opt_block_bytes(KGTR_TAG, m.translation);
        let q7 = q6 + opt_block_bytes(KGRT_TAG, m.rotation);
        let q8 = q7 + opt_block_bytes(KGSC_TAG, m.scaling);
        assert(q8 == e) by {
            reveal(node_bytes);
        }
        lemma_u32_bytes(m.inclusive_size);
        lemma_text_field_len(m.name, 80);
        lemma_u32_bytes(m.object_id);
        lemma_u32_bytes(m.parent_id);
        lemma_u32_bytes(m.flags);
        lemma_split(b, pos, q7, opt_block_bytes(KGSC_TAG, m.scaling));
        lemma_split(b, pos, q6, opt_block_bytes(KGRT_TAG, m.rotation));
        lemma_split(b, pos, q5, opt_block_bytes(KGTR_TAG, m.translation));
        lemma_split(b, pos, q4, u32_bytes(m.flags));
        lemma_split(b, pos, q3, u32_bytes(m.parent_id));
        lemma_split(b, pos, q2, u32_bytes(m.object_id));
        lemma_split(b, pos, q1, text_field(m.name, 80));
        assert(b.subrange(pos, pos + 4) == u32_bytes(m.inclusive_size));
        assert(u32_at(b, pos) == m.inclusive_size);
        lemma_text_round_trip(m.name, 80, b, pos + q1.len());
        assert(b.subrange(pos + q2.len(), pos + q2.len() + 4) == u32_bytes(m.object_id));
        assert(u32_at(b, pos + q2.len()) == m.object_id);
        assert(b.subrange(pos + q3.len(), pos + q3.len() + 4) == u32_bytes(m.parent_id));
        assert(u32_at(b, pos + q3.len()) == m.parent_id);
        assert(b.subrange(pos + q4.len(), pos + q4.len() + 4) == u32_bytes(m.flags));
        assert(u32_at(b, pos + q4.len()) == m.flags);
        let r2 = opt_block_bytes(KGSC_TAG, m.scaling);
        lemma_join(b, pos + q6.len(), opt_block_bytes(KGRT_TAG, m.rotation), r2);
        let r1 = opt_block_bytes(KGRT_TAG, m.rotation) + r2;
        lemma_join(b, pos + q5.len(), opt_block_bytes(KGTR_TAG, m.translation), r1);
        lemma_node_scan_from_0(m, b, pos, pos + q5.len());
        assert(sat(e.len() as int) == m.inclusive_size as usize);
        assert(parse_node(b, pos) == Ok::<(NodeModel, int), FormatError>((m, pos + e.len()))) by {
            reveal(parse_node);
        }
    }

    #[verifier::loop_isolation(false)]
    fn decode(src: &[u8], pos: usize) -> (r: Result<(Node, usize), FormatError>) {
        proof {
            reveal(parse_node);
        }
        let mut p: usize = pos;
        if src.len() - p < 96 {
            return Err(FormatError::OutOfBounds);
        }
        let inclusive_size = read_u32(src, p);
        let name = match read_text(src, p + 4, 80) {
            Ok(s) => s,
            Err(e) => {
                return Err(e);
            },
        };
        let object_id = read_u32(src, p + 84);
        let parent_id = read_u32(src, p + 88);
        let flags = read_u32(src, p + 92);
        p = p + 96;
        let mut v = Node {
            inclusive_size,
            name,
            object_id,
            parent_id,
            flags,
            translation: None,
            rotation: None,
            scaling: None,
        };
        let ghost start_model = v@;
        let ghost p0 = p as int;
        while p - pos < v.inclusive_size as usize
            invariant
                pos <= p <= src.len(),
                scan_node(src@, pos as int, v.inclusive_size as int, p0, start_model) == scan_node(
                    src@,
                    pos as int,
                    v.inclusive_size as int,
                    p as int,
                    v@,
                ),
                v.inclusive_size == start_model.inclusive_size,
            decreases src.len() - p,
        {
            if src.len() - p < 4 {
                return Err(FormatError::OutOfBounds);
            }
            let tag = read_u32(src, p);
            if tag == KGTR_TAG {
                match Transform::<Vec3>::decode(src, p + 4) {
                    Ok((t, q)) => {
                        v.translation = Some(t);
                        p = q;
                    },
                    Err(e) => {
                        return Err(e);
                    },
                }
            } else if tag == KGRT_TAG {
                match Transform::<Vec4>::decode(src, p + 4) {
                    Ok((t, q)) => {
                        v.rotation = Some(t);
                        p = q;
                    },
                    Err(e) => {
                        return Err(e);
                    },
                }
            } else if tag == KGSC_TAG {
                match Transform::<Vec3>::decode(src, p + 4) {
                    Ok((t, q)) => {
                        v.scaling = Some(t);
                        p = q;
                    },
                    Err(e) => {
                        return Err(e);
                    },
                }
            } else {
                return Err(FormatError::UnknownSubTag(tag));
            }
        }
        if v.total_bytes_size() != v.inclusive_size as usize {
            return Err(FormatError::SizeMismatch);
        }
        Ok((v, p))
    }

    fn encode(&self, out: &mut Vec<u8>) -> (r: Result<(), FormatError>) {
        proof {
            reveal(node_bytes);
        }
        let ghost start = out@;
        write_u32(out, self.inclusive_size);
        let ghost mut acc = u32_bytes(self@.inclusive_size);
        assert(out@ =~= start + acc);
        if let Err(e) = write_text(out, &self.name, 80) {
            return Err(e);
        }
        proof {
            acc = acc + text_field(self@.name, 80);
        }
        assert(out@ =~= start + acc);
        write_u32(out, self.object_id);
        proof {
            acc = acc + u32_bytes(self@.object_id);
        }
        assert(out@ =~= start + acc);
        write_u32(out, self.parent_id);
        proof {
            acc = acc + u32_bytes(self@.parent_id);
        }
        assert(out@ =~= start + acc);
        write_u32(out, self.flags);
        proof {
            acc = acc + u32_bytes(self@.flags);
        }
        assert(out@ =~= start + acc);
        write_opt_block(out, KGTR_TAG, &self.translation);
        proof {
            acc = acc + opt_block_bytes(KGTR_TAG, self@.translation);
        }
        assert(out@ =~= start + acc);
        write_opt_block(out, KGRT_TAG, &self.rotation);
        proof {
            acc = acc + opt_block_bytes(KGRT_TAG, self@.rotation);
        }
        assert(out@ =~= start + acc);
        write_opt_block(out, KGSC_TAG, &self.scaling);
        proof {
            acc = acc + opt_block_bytes(KGSC_TAG, self@.scaling);
        }
        assert(out@ =~= start + acc);
        assert(acc == node_bytes(self@));
        Ok(())
    }

}

impl BytesTotalSize for Node {
    open spec fn model_bytes(m: NodeModel) -> Seq<u8> {
        node_bytes(m)
    }

    fn total_bytes_size(&self) -> (r: usize) {
        proof {
            reveal(node_bytes);
        }
        let mut r: usize = 0;
        let ghost mut acc: Seq<u8> = Seq::empty();
        let k: usize = 4;
        proof {
            lemma_u32_bytes(self.inclusive_size);
            lemma_sat_add(acc.len() as int, (u32_bytes(self@.inclusive_size)).len() as int);
            acc = acc + u32_bytes(self@.inclusive_size);
        }
        r = add_sat(r, k);
        let k: usize = 80;
        proof {
            lemma_text_field_len(self.name@, 80);
            lemma_sat_add(acc.len() as int, (text_field(self@.name, 80)).len() as int);
            acc = acc + text_field(self@.name, 80);
        }
        r = add_sat(r, k);
        let k: usize = 4;
        proof {
            lemma_u32_bytes(self.object_id);
            lemma_sat_add(acc.len() as int, (u32_bytes(self@.object_id)).len() as int);
            acc = acc + u32_bytes(self@.object_id);
        }
        r = add_sat(r, k);
        let k: usize = 4;
        proof {
            lemma_u32_bytes(self.parent_id);
            lemma_sat_add(acc.len() as int, (u32_bytes(self@.parent_id)).len() as int);
            acc = acc + u32_bytes(self@.parent_id);
        }
        r = add_sat(r, k);
        let k: usize = 4;
        proof {
            lemma_u32_bytes(self.flags);
            lemma_sat_add(acc.len() as int, (u32_bytes(self@.flags)).len() as int);
            acc = acc + u32_bytes(self@.flags);
        }
        r = add_sat(r, k);
        let k: usize = opt_block_size(&self.translation);
        proof {
            lemma_sat_add(acc.len() as int, (opt_block_bytes(KGTR_TAG, self@.translation)).len() as int);
            acc = acc + opt_block_bytes(KGTR_TAG, self@.translation);
        }
        r = add_sat(r, k);
        let k: usize = opt_block_size(&self.rotation);
        proof {
            lemma_sat_add(acc.len() as int, (opt_block_bytes(KGRT_TAG, self@.rotation)).len() as int);
            acc = acc + opt_block_bytes(KGRT_TAG, self@.rotation);
        }
        r = add_sat(r, k);
        let k: usize = opt_block_size(&self.scaling);
        proof {
            lemma_sat_add(acc.len() as int, (opt_block_bytes(KGSC_TAG, self@.scaling)).len() as int);
            acc = acc + opt_block_bytes(KGSC_TAG, self@.scaling);
        }
        r = add_sat(r, k);
        assert(acc =~= node_bytes(self@));
        r
    }
}

} // verus!
