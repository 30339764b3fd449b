//! Attachments.

use crate::codec::{
    add_sat, lemma_sat_add, lemma_split, lemma_text_field_len, lemma_text_round_trip,
    lemma_u32_bytes, parse_text, read_text, read_u32, sat, text_field, text_fits, text_ok, u32_at,
    u32_bytes, write_text, write_u32,
};
use crate::consts::KATV_TAG;
use crate::error::FormatError;
use crate::record::{
    BytesTotalSize, Chunk, Inclusive, Record, lemma_inclusive_round_trip,
    lemma_records_wf_encodable, lemma_resized_seq, parse_inclusive, read_inclusive, records_bytes,
    records_encodable, records_size, records_wf, resize_records, resized_seq, views, write_records,
};
use crate::tracks::{
    Transform, TransformModel, lemma_opt_block_round_trip, opt_block_bytes, opt_block_size,
    opt_view, parse_transform, transform_wf, write_opt_block,
};
use crate::node::{Node, NodeModel};
use vstd::prelude::*;

verus! {

broadcast use vstd::seq::group_seq_axioms;

/// An attachment point with the path of the model it carries.
#[derive(PartialEq, Debug)]
pub struct Attachment {
    pub inclusive_size: u32,
    pub node: Node,
    pub path: String,
    pub attachment_id: u32,
    pub visibility: Option<Transform<u32>>,
}

/// The mathematical content of a `Attachment`.
pub struct AttachmentModel {
    pub inclusive_size: u32,
    pub node: NodeModel,
    pub path: Seq<char>,
    pub attachment_id: u32,
    pub visibility: Option<TransformModel<u32>>,
}

impl View for Attachment {
    type V = AttachmentModel;

    open spec fn view(&self) -> AttachmentModel {
        AttachmentModel {
            inclusive_size: self.inclusive_size,
            node: self.node@,
            path: self.path@,
            attachment_id: self.attachment_id,
            visibility: opt_view(self.visibility),
        }
    }
}

/// The bytes that encoding a `Attachment` writes.
#[verifier::opaque]
pub open spec fn attachment_bytes(m: AttachmentModel) -> Seq<u8> {
    u32_bytes(m.inclusive_size)
    + Node::model_bytes(m.node)
    + text_field(m.path, 260)
    + u32_bytes(m.attachment_id)
    + opt_block_bytes(KATV_TAG, m.visibility)
}

pub open spec fn attachment_encodable(m: AttachmentModel) -> bool {
    Node::encodable(m.node)
    && text_fits(m.path, 260)
}

/// A `Attachment` that decoding its encoding gives back.
pub open spec fn attachment_wf(m: AttachmentModel) -> bool {
    &&& Node::wf(m.node)
    &&& text_ok(m.path, 260)
    &&& (m.visibility matches Some(t) ==> transform_wf(t))
    &&& m.inclusive_size == attachment_bytes(m).len()
}

/// The optional sub-blocks of a `Attachment` from `pos` on, read while the
/// position stays below `start + bound`; each one replaces the field of its tag.
pub open spec fn scan_attachment(b: Seq<u8>, start: int, bound: int, pos: int, acc: AttachmentModel) -> Result<
    (AttachmentModel, int),
    FormatError,
>
    decreases b.len() - pos,
{
    if pos - start >= bound {
        Ok((acc, pos))
    } else if pos + 4 > b.len() {
        Err(FormatError::OutOfBounds)
    } else {
        let tag = u32_at(b, pos);
        if tag == KATV_TAG {
            match parse_transform::<u32>(b, pos + 4) {
                Err(e) => Err(e),
                Ok((t, q)) => if q <= pos || q > b.len() {
                    Err(FormatError::OutOfBounds)
                } else {
                    scan_attachment(
                        b,
                        start,
                        bound,
                        q,
                        AttachmentModel {
                            inclusive_size: acc.inclusive_size,
                            node: acc.node,
                            path: acc.path,
                            attachment_id: acc.attachment_id,
                            visibility: Some(t),
                        },
                    )
                },
            }
        } else {
            Err(FormatError::UnknownSubTag(tag))
        }
    }
}

/// The sub-blocks of a well-formed `Attachment`, written in their fixed order,
/// scan back into it.
proof fn lemma_attachment_scan_from_0(m: AttachmentModel, b: Seq<u8>, pos: int, o: int)
    requires
        m.visibility matches Some(t) ==> transform_wf(t),
        0 <= pos <= o,
        o + (opt_block_bytes(KATV_TAG, m.visibility)).len() == pos + m.inclusive_size as int,
        o + (opt_block_bytes(KATV_TAG, m.visibility)).len() <= b.len(),
        b.subrange(o, o + (opt_block_bytes(KATV_TAG, m.visibility)).len())
            == opt_block_bytes(KATV_TAG, m.visibility),
    ensures
        scan_attachment(b, pos, m.inclusive_size as int, o, AttachmentModel {
            visibility: None,
            ..m
        }) == Ok::<(AttachmentModel, int), FormatError>(
            (m, o + (opt_block_bytes(KATV_TAG, m.visibility)).len()),
        ),
{
    lemma_opt_block_round_trip(KATV_TAG, m.visibility, b, o);
    let e = o + (opt_block_bytes(KATV_TAG, m.visibility)).len();
    assert(scan_attachment(b, pos, m.inclusive_size as int, e, m) == Ok::<(AttachmentModel, int), FormatError>((m, e)));
    if m.visibility is None {
        assert(AttachmentModel { visibility: None, ..m } == m);
    }
}

/// Decoding a `Attachment` at `pos`: its model and the position after it.
#[verifier::opaque]
pub open spec fn parse_attachment(b: Seq<u8>, pos: int) -> Result<(AttachmentModel, int), FormatError> {
    if pos + 4 > b.len() {
        Err(FormatError::OutOfBounds)
    } else {
        match Node::parse(b, pos + 4) {
            Err(e) => Err(e),
            Ok((node, p_node)) => {
                if p_node + 264 > b.len() {
                    Err(FormatError::OutOfBounds)
                } else {
                    match parse_text(b, p_node, 260) {
                        Err(e) => Err(e),
                        Ok(path) => {
                            let m = AttachmentModel {
                                inclusive_size: u32_at(b, pos),
                                node: node,
                                path: path,
                                attachment_id: u32_at(b, p_node + 260),
                                visibility: None,
                            };
                            match scan_attachment(b, pos, m.inclusive_size as int, p_node + 264, m) {
                                Err(e) => Err(e),
                                Ok((m2, q)) => {
                                    if sat(attachment_bytes(m2).len() as int) != m2.inclusive_size as usize {
                                        Err(FormatError::SizeMismatch)
                                    } else {
                                        Ok((m2, q))
                                    }
                                },
                            }
                        },
                    }
                }
            },
        }
    }
}

/// A decoded `Attachment` declares exactly the length that `total_bytes_size` reports.
pub proof fn lemma_attachment_size_checked(b: Seq<u8>, pos: int)
    ensures
        parse_attachment(b, pos) matches Ok((m, _)) ==> sat(attachment_bytes(m).len() as int)
            == m.inclusive_size as usize,
{
    reveal(parse_attachment);
}

/// A sub-block tag inside a `Attachment` other than `KATV` is refused.
pub proof fn lemma_attachment_unknown_tag(b: Seq<u8>, start: int, bound: int, pos: int, acc: AttachmentModel)
    requires
        pos - start < bound,
        pos + 4 <= b.len(),
    ensures
        ({
            let tag = u32_at(b, pos);
            !(tag == KATV_TAG) ==> scan_attachment(b, start, bound, pos, acc)
                == Err::<(AttachmentModel, int), FormatError>(
                FormatError::UnknownSubTag(tag),
            )
        }),
{
}

/// `m` with every declared size inside it recomputed from the content.
pub open spec fn attachment_resized(m: AttachmentModel) -> AttachmentModel {
    let n = AttachmentModel { node: Node::resized(m.node), ..m };
    AttachmentModel { inclusive_size: attachment_bytes(n).len() as u32, ..n }
}

/// After its sizes are recomputed, a `Attachment` declares exactly its encoded length.
pub proof fn lemma_attachment_resized_consistent(m: AttachmentModel)
    requires
        attachment_bytes(m).len() <= u32::MAX,
    ensures
        attachment_resized(m).inclusive_size == attachment_bytes(attachment_resized(m)).len(),
{
    reveal(attachment_bytes);
    Node::lemma_resized(m.node);
    lemma_u32_bytes(m.inclusive_size);
    lemma_u32_bytes(attachment_resized(m).inclusive_size);
    Attachment::lemma_resized(m);
}

impl Record for Attachment {
    open spec fn parse(b: Seq<u8>, pos: int) -> Result<(AttachmentModel, int), FormatError> {
        parse_attachment(b, pos)
    }

    open spec fn encodable(m: AttachmentModel) -> bool {
        attachment_encodable(m)
    }

    open spec fn wf(m: AttachmentModel) -> bool {
        attachment_wf(m)
    }

    open spec fn resized(m: AttachmentModel) -> AttachmentModel {
        attachment_resized(m)
    }

    fn calculate_sizes(&mut self) {
        proof {
            reveal(attachment_bytes);
        }
        proof {
            Node::lemma_resized(self.node@);
        }
        self.node.calculate_sizes();
        let n = self.total_bytes_size();
        self.inclusive_size = n as u32;
    }

    proof fn lemma_resized(m: AttachmentModel) {
        reveal(attachment_bytes);
        Node::lemma_resized(m.node);
        lemma_u32_bytes(m.inclusive_size);
        lemma_u32_bytes(attachment_resized(m).inclusive_size);
    }

    proof fn lemma_wf_encodable(m: AttachmentModel) {
        Node::lemma_wf_encodable(m.node);
    }

    proof fn lemma_round_trip(m: AttachmentModel, b: Seq<u8>, pos: int) {
        let e = attachment_bytes(m);
        let q1 = u32_bytes(m.inclusive_size);
        let q2 = q1 + Node::model_bytes(m.node);
        let q3 = q2 + text_field(m.path, 260);
        let q4 = q3 + u32_bytes(m.attachment_id);
        let q5 = q4 + opt_block_bytes(KATV_TAG, m.visibility);
        assert(q5 == e) by {
            reveal(attachment_bytes);
        }
        lemma_u32_bytes(m.inclusive_size);
        lemma_text_field_len(m.path, 260);
        lemma_u32_bytes(m.attachment_id);
        lemma_split(b, pos, q4, opt_block_bytes(KATV_TAG, m.visibility));
        lemma_split(b, pos, q3, u32_bytes(m.attachment_id));
        lemma_split(b, pos, q2, text_field(m.path, 260));
        lemma_split(b, pos, q1, Node::model_bytes(m.node));
        assert(b.subrange(pos, pos + 4) == u32_bytes(m.inclusive_size));
        assert(u32_at(b, pos) == m.inclusive_size);
        Node::lemma_round_trip(m.node, b, pos + q1.len());
        lemma_text_round_trip(m.path, 260, b, pos + q2.len());
        assert(b.subrange(pos + q3.len(), pos + q3.len() + 4) == u32_bytes(m.attachment_id));
        assert(u32_at(b, pos + q3.len()) == m.attachment_id);
        let r0 = opt_block_bytes(KATV_TAG, m.visibility);
        lemma_attachment_scan_from_0(m, b, pos, pos + q4.len());
        assert(sat(e.len() as int) == m.inclusive_size as usize);
        assert(parse_attachment(b, pos) == Ok::<(AttachmentModel, int), FormatError>((m, pos + e.len()))) by {
            reveal(parse_attachment);
        }
    }

    #[verifier::loop_isolation(false)]
    fn decode(src: &[u8], pos: usize) -> (r: Result<(Attachment, usize), FormatError>) {
        proof {
            reveal(parse_attachment);
        }
        let mut p: usize = pos;
        if src.len() - p < 4 {
            return Err(FormatError::OutOfBounds);
        }
        let inclusive_size = read_u32(src, p);
        p = p + 4;
        let node = match Node::decode(src, p) {
            Ok((v, q)) => {
                p = q;
                v
            },
            Err(e) => {
                return Err(e);
            },
        };
        if src.len() - p < 264 {
            return Err(FormatError::OutOfBounds);
        }
        let path = match read_text(src, p, 260) {
            Ok(s) => s,
            Err(e) => {
                return Err(e);
            },
        };
        let attachment_id = read_u32(src, p + 260);
        p = p + 264;
        let mut v = Attachment { inclusive_size, node, path, attachment_id, visibility: None };
        let ghost start_model = v@;
        let ghost p0 = p as int;
        while p - pos < v.inclusive_size as usize
            invariant
                pos <= p <= src.len(),
                scan_attachment(src@, pos as int, v.inclusive_size as int, p0, start_model)
                    == scan_attachment(
                    src@,
                    pos as int,
                    v.inclusive_size as int,
                    p as int,
                    v@,
                ),
                v.inclusive_size == start_model.inclusive_size,
            decreases src.len() - p,
        {
            if src.len() - p < 4 {
                return Err(FormatError::OutOfBounds);
            }
            let tag = read_u32(src, p);
            if tag == KATV_TAG {
                match Transform::<u32>::decode(src, p + 4) {
                    Ok((t, q)) => {
                        v.visibility = Some(t);
                        p = q;
                    },
                    Err(e) => {
                        return Err(e);
                    },
                }
            } else {
                return Err(FormatError::UnknownSubTag(tag));
            }
        }
        if v.total_bytes_size() != v.inclusive_size as usize {
            return Err(FormatError::SizeMismatch);
        }
        Ok((v, p))
    }

    fn encode(&self, out: &mut Vec<u8>) -> (r: Result<(), FormatError>) {
        proof {
            reveal(attachment_bytes);
        }
        let ghost start = out@;
        write_u32(out, self.inclusive_size);
        let ghost mut acc = u32_bytes(self@.inclusive_size);
        assert(out@ =~= start + acc);
        if let Err(e) = self.node.encode(out) {
            return Err(e);
        }
        proof {
            acc = acc + Node::model_bytes(self@.node);
        }
        assert(out@ =~= start + acc);
        if let Err(e) = write_text(out, &self.path, 260) {
            return Err(e);
        }
        proof {
            acc = acc + text_field(self@.path, 260);
        }
        assert(out@ =~= start + acc);
        write_u32(out, self.attachment_id);
        proof {
            acc = acc + u32_bytes(self@.attachment_id);
        }
        assert(out@ =~= start + acc);
        write_opt_block(out, KATV_TAG, &self.visibility);
        proof {
            acc = acc + opt_block_bytes(KATV_TAG, self@.visibility);
        }
        assert(out@ =~= start + acc);
        assert(acc == attachment_bytes(self@));
        Ok(())
    }

}

impl BytesTotalSize for Attachment {
    open spec fn model_bytes(m: AttachmentModel) -> Seq<u8> {
        attachment_bytes(m)
    }

    fn total_bytes_size(&self) -> (r: usize) {
        proof {
            reveal(attachment_bytes);
        }
        let mut r: usize = 0;
        let ghost mut acc: Seq<u8> = Seq::empty();
        let k: usize = 4;
        proof {
            lemma_u32_bytes(self.inclusive_size);
            lemma_sat_add(acc.len() as int, (u32_bytes(self@.inclusive_size)).len() as int);
            acc = acc + u32_bytes(self@.inclusive_size);
        }
        r = add_sat(r, k);
        let k: usize = self.node.total_bytes_size();
        proof {
            lemma_sat_add(acc.len() as int, (Node::model_bytes(self@.node)).len() as int);
            acc = acc + Node::model_bytes(self@.node);
        }
        r = add_sat(r, k);
        let k: usize = 260;
        proof {
            lemma_text_field_len(self.path@, 260);
            lemma_sat_add(acc.len() as int, (text_field(self@.path, 260)).len() as int);
            acc = acc + text_field(self@.path, 260);
        }
        r = add_sat(r, k);
        let k: usize = 4;
        proof {
            lemma_u32_bytes(self.attachment_id);
            lemma_sat_add(acc.len() as int, (u32_bytes(self@.attachment_id)).len() as int);
            acc = acc + u32_bytes(self@.attachment_id);
        }
        r = add_sat(r, k);
        let k: usize = opt_block_size(&self.visibility);
        proof {
            lemma_sat_add(acc.len() as int, (opt_block_bytes(KATV_TAG, self@.visibility)).len() as int);
            acc = acc + opt_block_bytes(KATV_TAG, self@.visibility);
        }
        r = add_sat(r, k);
        assert(acc =~= attachment_bytes(self@));
        r
    }
}

impl Inclusive for Attachment {
    open spec fn declared(m: AttachmentModel) -> int {
        m.inclusive_size as int
    }

    fn declared_size(&self) -> (r: u64) {
        self.inclusive_size as u64
    }

    proof fn lemma_declared(m: AttachmentModel) {
        reveal(attachment_bytes);
        lemma_u32_bytes(m.inclusive_size);
        lemma_u32_bytes(m.attachment_id);
    }
}

/// A run of `Attachment` records, read while the sum of their declared sizes stays below `chunk_size`.
#[derive(PartialEq, Debug)]
pub struct AttachmentChunk {
    pub chunk_size: u32,
    pub data: Vec<Attachment>,
}

/// The mathematical content of a `AttachmentChunk`.
pub struct AttachmentChunkModel {
    pub chunk_size: u32,
    pub data: Seq<AttachmentModel>,
}

impl View for AttachmentChunk {
    type V = AttachmentChunkModel;

    open spec fn view(&self) -> AttachmentChunkModel {
        AttachmentChunkModel {
            chunk_size: self.chunk_size,
            data: views(self.data@),
        }
    }
}

/// The bytes that encoding a `AttachmentChunk` writes.
#[verifier::opaque]
pub open spec fn attachment_chunk_bytes(m: AttachmentChunkModel) -> Seq<u8> {
    u32_bytes(m.chunk_size)
    + records_bytes::<Attachment>(m.data)
}

pub open spec fn attachment_chunk_encodable(m: AttachmentChunkModel) -> bool {
    records_encodable::<Attachment>(m.data)
}

/// A `AttachmentChunk` that decoding its encoding gives back.
pub open spec fn attachment_chunk_wf(m: AttachmentChunkModel) -> bool {
    &&& records_wf::<Attachment>(m.data)
    &&& m.chunk_size + 4 == attachment_chunk_bytes(m).len()
}

/// Decoding a `AttachmentChunk` at `pos`: its model and the position after it.
#[verifier::opaque]
pub open spec fn parse_attachment_chunk(b: Seq<u8>, pos: int) -> Result<(AttachmentChunkModel, int), FormatError> {
    if pos + 4 > b.len() {
        Err(FormatError::OutOfBounds)
    } else {
        match parse_inclusive::<Attachment>(b, pos + 4, 0, u32_at(b, pos) as int) {
            Err(e) => Err(e),
            Ok((data, p_data)) => {
                let m = AttachmentChunkModel {
                    chunk_size: u32_at(b, pos),
                    data: data,
                };
                Ok((m, p_data))
            },
        }
    }
}

/// `m` with every declared size inside it recomputed from the content.
pub open spec fn attachment_chunk_resized(m: AttachmentChunkModel) -> AttachmentChunkModel {
    AttachmentChunkModel { data: resized_seq::<Attachment>(m.data), ..m }
}

impl Record for AttachmentChunk {
    open spec fn parse(b: Seq<u8>, pos: int) -> Result<(AttachmentChunkModel, int), FormatError> {
        parse_attachment_chunk(b, pos)
    }

    open spec fn encodable(m: AttachmentChunkModel) -> bool {
        attachment_chunk_encodable(m)
    }

    open spec fn wf(m: AttachmentChunkModel) -> bool {
        attachment_chunk_wf(m)
    }

    open spec fn resized(m: AttachmentChunkModel) -> AttachmentChunkModel {
        attachment_chunk_resized(m)
    }

    fn calculate_sizes(&mut self) {
        proof {
            reveal(attachment_chunk_bytes);
        }
        proof {
            lemma_resized_seq::<Attachment>(views(self.data@));
        }
        resize_records(&mut self.data);
    }

    proof fn lemma_resized(m: AttachmentChunkModel) {
        reveal(attachment_chunk_bytes);
        lemma_resized_seq::<Attachment>(m.data);
    }

    proof fn lemma_wf_encodable(m: AttachmentChunkModel) {
        lemma_records_wf_encodable::<Attachment>(m.data);
    }

    proof fn lemma_round_trip(m: AttachmentChunkModel, b: Seq<u8>, pos: int) {
        let e = attachment_chunk_bytes(m);
        let q1 = u32_bytes(m.chunk_size);
        let q2 = q1 + records_bytes::<Attachment>(m.data);
        assert(q2 == e) by {
            reveal(attachment_chunk_bytes);
        }
        lemma_u32_bytes(m.chunk_size);
        lemma_split(b, pos, q1, records_bytes::<Attachment>(m.data));
        assert(b.subrange(pos, pos + 4) == u32_bytes(m.chunk_size));
        assert(u32_at(b, pos) == m.chunk_size);
        lemma_inclusive_round_trip::<Attachment>(m.data, b, pos + q1.len(), 0);
        assert(parse_attachment_chunk(b, pos) == Ok::<(AttachmentChunkModel, int), FormatError>((m, pos + e.len()))) by {
            reveal(parse_attachment_chunk);
        }
    }

    fn decode(src: &[u8], pos: usize) -> (r: Result<(AttachmentChunk, usize), FormatError>) {
        proof {
            reveal(parse_attachment_chunk);
        }
        let mut p: usize = pos;
        if src.len() - p < 4 {
            return Err(FormatError::OutOfBounds);
        }
        let chunk_size = read_u32(src, p);
        p = p + 4;
        let data = match read_inclusive::<Attachment>(src, p, chunk_size) {
            Ok((v, q)) => {
                p = q;
                v
            },
            Err(e) => {
                return Err(e);
            },
        };
        let v = AttachmentChunk { chunk_size, data };
        Ok((v, p))
    }

    fn encode(&self, out: &mut Vec<u8>) -> (r: Result<(), FormatError>) {
        proof {
            reveal(attachment_chunk_bytes);
        }
        let ghost start = out@;
        write_u32(out, self.chunk_size);
        let ghost mut acc = u32_bytes(self@.chunk_size);
        assert(out@ =~= start + acc);
        if let Err(e) = write_records(out, &self.data) {
            return Err(e);
        }
        proof {
            acc = acc + records_bytes::<Attachment>(self@.data);
        }
        assert(out@ =~= start + acc);
        assert(acc == attachment_chunk_bytes(self@));
        Ok(())
    }

}

impl BytesTotalSize for AttachmentChunk {
    open spec fn model_bytes(m: AttachmentChunkModel) -> Seq<u8> {
        attachment_chunk_bytes(m)
    }

    fn total_bytes_size(&self) -> (r: usize) {
        proof {
            reveal(attachment_chunk_bytes);
        }
        let mut r: usize = 0;
        let ghost mut acc: Seq<u8> = Seq::empty();
        let k: usize = 4;
        proof {
            lemma_u32_bytes(self.chunk_size);
            lemma_sat_add(acc.len() as int, (u32_bytes(self@.chunk_size)).len() as int);
            acc = acc + u32_bytes(self@.chunk_size);
        }
        r = add_sat(r, k);
        let k: usize = records_size(&self.data);
        proof {
            lemma_sat_add(acc.len() as int, (records_bytes::<Attachment>(self@.data)).len() as int);
            acc = acc + records_bytes::<Attachment>(self@.data);
        }
        r = add_sat(r, k);
        assert(acc =~= attachment_chunk_bytes(self@));
        r
    }
}

/// `m` with `chunk_size` set to the encoded length without the size field itself.
pub open spec fn attachment_chunk_sized(m: AttachmentChunkModel) -> AttachmentChunkModel {
    AttachmentChunkModel { chunk_size: (attachment_chunk_bytes(m).len() - 4) as u32, ..m }
}

impl Chunk for AttachmentChunk {
    open spec fn sized(m: AttachmentChunkModel) -> AttachmentChunkModel {
        attachment_chunk_sized(m)
    }

    open spec fn chunk_size_of(m: AttachmentChunkModel) -> u32 {
        m.chunk_size
    }

    proof fn lemma_sized_id(m: AttachmentChunkModel) {
    }

    proof fn lemma_chunk_min_len(m: AttachmentChunkModel) {
        reveal(attachment_chunk_bytes);
        lemma_u32_bytes(m.chunk_size);
    }

    fn calculate_chunk_size(&mut self) {
        let n = self.total_bytes_size();
        self.chunk_size = (n - 4) as u32;
        proof {
            reveal(attachment_chunk_bytes);
            lemma_u32_bytes(old(self).chunk_size);
            lemma_u32_bytes(self.chunk_size);
        }
    }
}

} // verus!
