//! Helpers.

use crate::codec::{
    add_sat, lemma_sat_add, lemma_split, lemma_u32_bytes, read_u32, u32_at, u32_bytes, write_u32,
};
use crate::error::FormatError;
use crate::record::{
    BytesTotalSize, Chunk, Inclusive, Record, lemma_inclusive_round_trip,
    lemma_records_wf_encodable, lemma_resized_seq, parse_inclusive, read_inclusive, records_bytes,
    records_encodable, records_size, records_wf, resize_records, resized_seq, views, write_records,
};
use crate::node::{Node, NodeModel};
use vstd::prelude::*;

verus! {

broadcast use vstd::seq::group_seq_axioms;

/// A helper: a bare node.
#[derive(PartialEq, Debug)]
pub struct Helper {
    pub node: Node,
}

/// The mathematical content of a `Helper`.
pub struct HelperModel {
    pub node: NodeModel,
}

impl View for Helper {
    type V = HelperModel;

    open spec fn view(&self) -> HelperModel {
        HelperModel {
            node: self.node@,
        }
    }
}

/// The bytes that encoding a `Helper` writes.
#[verifier::opaque]
pub open spec fn helper_bytes(m: HelperModel) -> Seq<u8> {
    Node::model_bytes(m.node)
}

pub open spec fn helper_encodable(m: HelperModel) -> bool {
    Node::encodable(m.node)
}

/// A `Helper` that decoding its encoding gives back.
pub open spec fn helper_wf(m: HelperModel) -> bool {
    &&& Node::wf(m.node)
}

/// Decoding a `Helper` at `pos`: its model and the position after it.
#[verifier::opaque]
pub open spec fn parse_helper(b: Seq<u8>, pos: int) -> Result<(HelperModel, int), FormatError> {
    match Node::parse(b, pos) {
        Err(e) => Err(e),
        Ok((node, p_node)) => {
            let m = HelperModel {
                node: node,
            };
            Ok((m, p_node))
        },
    }
}

/// `m` with every declared size inside it recomputed from the content.
pub open spec fn helper_resized(m: HelperModel) -> HelperModel {
    HelperModel { node: Node::resized(m.node), ..m }
}

impl Record for Helper {
    open spec fn parse(b: Seq<u8>, pos: int) -> Result<(HelperModel, int), FormatError> {
        parse_helper(b, pos)
    }

    open spec fn encodable(m: HelperModel) -> bool {
        helper_encodable(m)
    }

    open spec fn wf(m: HelperModel) -> bool {
        helper_wf(m)
    }

    open spec fn resized(m: HelperModel) -> HelperModel {
        helper_resized(m)
    }

    fn calculate_sizes(&mut self) {
        proof {
            reveal(helper_bytes);
        }
        proof {
            Node::lemma_resized(self.node@);
        }
        self.node.calculate_sizes();
    }

    proof fn lemma_resized(m: HelperModel) {
        reveal(helper_bytes);
        Node::lemma_resized(m.node);
    }

    proof fn lemma_wf_encodable(m: HelperModel) {
        Node::lemma_wf_encodable(m.node);
    }

    proof fn lemma_round_trip(m: HelperModel, b: Seq<u8>, pos: int) {
        let e = helper_bytes(m);
        let q1 = Node::model_bytes(m.node);
        assert(q1 == e) by {
            reveal(helper_bytes);
        }
        Node::lemma_round_trip(m.node, b, pos);
        assert(parse_helper(b, pos) == Ok::<(HelperModel, int), FormatError>((m, pos + e.len()))) by {
            reveal(parse_helper);
        }
    }

    fn decode(src: &[u8], pos: usize) -> (r: Result<(Helper, usize), FormatError>) {
        proof {
            reveal(parse_helper);
        }
        let mut p: usize = pos;
        let node = match Node::decode(src, p) {
            Ok((v, q)) => {
                p = q;
                v
            },
            Err(e) => {
                return Err(e);
            },
        };
        let v = Helper { node };
        Ok((v, p))
    }

    fn encode(&self, out: &mut Vec<u8>) -> (r: Result<(), FormatError>) {
        proof {
            reveal(helper_bytes);
        }
        let ghost start = out@;
        if let Err(e) = self.node.encode(out) {
            return Err(e);
        }
        let ghost mut acc = Node::model_bytes(self@.node);
        assert(out@ =~= start + acc);
        assert(acc == helper_bytes(self@));
        Ok(())
    }

}

impl BytesTotalSize for Helper {
    open spec fn model_bytes(m: HelperModel) -> Seq<u8> {
        helper_bytes(m)
    }

    fn total_bytes_size(&self) -> (r: usize) {
        proof {
            reveal(helper_bytes);
        }
        let mut r: usize = 0;
        let ghost mut acc: Seq<u8> = Seq::empty();
        let k: usize = self.node.total_bytes_size();
        proof {
            lemma_sat_add(acc.len() as int, (Node::model_bytes(self@.node)).len() as int);
            acc = acc + Node::model_bytes(self@.node);
        }
        r = add_sat(r, k);
        assert(acc =~= helper_bytes(self@));
        r
    }
}

impl Inclusive for Helper {
    open spec fn declared(m: HelperModel) -> int {
        m.node.inclusive_size as int
    }

    fn declared_size(&self) -> (r: u64) {
        self.node.inclusive_size as u64
    }

    proof fn lemma_declared(m: HelperModel) {
        reveal(helper_bytes);

    }
}

/// A run of `Helper` records, read while the sum of their declared sizes stays below `chunk_size`.
#[derive(PartialEq, Debug)]
pub struct HelperChunk {
    pub chunk_size: u32,
    pub data: Vec<Helper>,
}

/// The mathematical content of a `HelperChunk`.
pub struct HelperChunkModel {
    pub chunk_size: u32,
    pub data: Seq<HelperModel>,
}

impl View for HelperChunk {
    type V = HelperChunkModel;

    open spec fn view(&self) -> HelperChunkModel {
        HelperChunkModel {
            chunk_size: self.chunk_size,
            data: views(self.data@),
        }
    }
}

/// The bytes that encoding a `HelperChunk` writes.
#[verifier::opaque]
pub open spec fn helper_chunk_bytes(m: HelperChunkModel) -> Seq<u8> {
    u32_bytes(m.chunk_size)
    + records_bytes::<Helper>(m.data)
}

pub open spec fn helper_chunk_encodable(m: HelperChunkModel) -> bool {
    records_encodable::<Helper>(m.data)
}

/// A `HelperChunk` that decoding its encoding gives back.
pub open spec fn helper_chunk_wf(m: HelperChunkModel) -> bool {
    &&& records_wf::<Helper>(m.data)
    &&& m.chunk_size + 4 == helper_chunk_bytes(m).len()
}

/// Decoding a `HelperChunk` at `pos`: its model and the position after it.
#[verifier::opaque]
pub open spec fn parse_helper_chunk(b: Seq<u8>, pos: int) -> Result<(HelperChunkModel, int), FormatError> {
    if pos + 4 > b.len() {
        Err(FormatError::OutOfBounds)
    } else {
        match parse_inclusive::<Helper>(b, pos + 4, 0, u32_at(b, pos) as int) {
            Err(e) => Err(e),
            Ok((data, p_data)) => {
                let m = HelperChunkModel {
                    chunk_size: u32_at(b, pos),
                    data: data,
                };
                Ok((m, p_data))
            },
        }
    }
}

/// `m` with every declared size inside it recomputed from the content.
pub open spec fn helper_chunk_resized(m: HelperChunkModel) -> HelperChunkModel {
    HelperChunkModel { data: resized_seq::<Helper>(m.data), ..m }
}

impl Record for HelperChunk {
    open spec fn parse(b: Seq<u8>, pos: int) -> Result<(HelperChunkModel, int), FormatError> {
        parse_helper_chunk(b, pos)
    }

    open spec fn encodable(m: HelperChunkModel) -> bool {
        helper_chunk_encodable(m)
    }

    open spec fn wf(m: HelperChunkModel) -> bool {
        helper_chunk_wf(m)
    }

    open spec fn resized(m: HelperChunkModel) -> HelperChunkModel {
        helper_chunk_resized(m)
    }

    fn calculate_sizes(&mut self) {
        proof {
            reveal(helper_chunk_bytes);
        }
        proof {
            lemma_resized_seq::<Helper>(views(self.data@));
        }
        resize_records(&mut self.data);
    }

    proof fn lemma_resized(m: HelperChunkModel) {
        reveal(helper_chunk_bytes);
        lemma_resized_seq::<Helper>(m.data);
    }

    proof fn lemma_wf_encodable(m: HelperChunkModel) {
        lemma_records_wf_encodable::<Helper>(m.data);
    }

    proof fn lemma_round_trip(m: HelperChunkModel, b: Seq<u8>, pos: int) {
        let e = helper_chunk_bytes(m);
        let q1 = u32_bytes(m.chunk_size);
        let q2 = q1 + records_bytes::<Helper>(m.data);
        assert(q2 == e) by {
            reveal(helper_chunk_bytes);
        }
        lemma_u32_bytes(m.chunk_size);
        lemma_split(b, pos, q1, records_bytes::<Helper>(m.data));
        assert(b.subrange(pos, pos + 4) == u32_bytes(m.chunk_size));
        assert(u32_at(b, pos) == m.chunk_size);
        lemma_inclusive_round_trip::<Helper>(m.data, b, pos + q1.len(), 0);
        assert(parse_helper_chunk(b, pos) == Ok::<(HelperChunkModel, int), FormatError>((m, pos + e.len()))) by {
            reveal(parse_helper_chunk);
        }
    }

    fn decode(src: &[u8], pos: usize) -> (r: Result<(HelperChunk, usize), FormatError>) {
        proof {
            reveal(parse_helper_chunk);
        }
        let mut p: usize = pos;
        if src.len() - p < 4 {
            return Err(FormatError::OutOfBounds);
        }
        let chunk_size = read_u32(src, p);
        p = p + 4;
        let data = match read_inclusive::<Helper>(src, p, chunk_size) {
            Ok((v, q)) => {
                p = q;
                v
            },
            Err(e) => {
                return Err(e);
            },
        };
        let v = HelperChunk { chunk_size, data };
        Ok((v, p))
    }

    fn encode(&self, out: &mut Vec<u8>) -> (r: Result<(), FormatError>) {
        proof {
            reveal(helper_chunk_bytes);
        }
        let ghost start = out@;
        write_u32(out, self.chunk_size);
        let ghost mut acc = u32_bytes(self@.chunk_size);
        assert(out@ =~= start + acc);
        if let Err(e) = write_records(out, &self.data) {
            return Err(e);
        }
        proof {
            acc = acc + records_bytes::<Helper>(self@.data);
        }
        assert(out@ =~= start + acc);
        assert(acc == helper_chunk_bytes(self@));
        Ok(())
    }

}

impl BytesTotalSize for HelperChunk {
    open spec fn model_bytes(m: HelperChunkModel) -> Seq<u8> {
        helper_chunk_bytes(m)
    }

    fn total_bytes_size(&self) -> (r: usize) {
        proof {
            reveal(helper_chunk_bytes);
        }
        let mut r: usize = 0;
        let ghost mut acc: Seq<u8> = Seq::empty();
        let k: usize = 4;
        proof {
            lemma_u32_bytes(self.chunk_size);
            lemma_sat_add(acc.len() as int, (u32_bytes(self@.chunk_size)).len() as int);
            acc = acc + u32_bytes(self@.chunk_size);
        }
        r = add_sat(r, k);
        let k: usize = records_size(&self.data);
        proof {
            lemma_sat_add(acc.len() as int, (records_bytes::<Helper>(self@.data)).len() as int);
            acc = acc + records_bytes::<Helper>(self@.data);
        }
        r = add_sat(r, k);
        assert(acc =~= helper_chunk_bytes(self@));
        r
    }
}

/// `m` with `chunk_size` set to the encoded length without the size field itself.
pub open spec fn helper_chunk_sized(m: HelperChunkModel) -> HelperChunkModel {
    HelperChunkModel { chunk_size: (helper_chunk_bytes(m).len() - 4) as u32, ..m }
}

impl Chunk for HelperChunk {
    open spec fn sized(m: HelperChunkModel) -> HelperChunkModel {
        helper_chunk_sized(m)
    }

    open spec fn chunk_size_of(m: HelperChunkModel) -> u32 {
        m.chunk_size
    }

    proof fn lemma_sized_id(m: HelperChunkModel) {
    }

    proof fn lemma_chunk_min_len(m: HelperChunkModel) {
        reveal(helper_chunk_bytes);
        lemma_u32_bytes(m.chunk_size);
    }

    fn calculate_chunk_size(&mut self) {
        let n = self.total_bytes_size();
        self.chunk_size = (n - 4) as u32;
        proof {
            reveal(helper_chunk_bytes);
            lemma_u32_bytes(old(self).chunk_size);
            lemma_u32_bytes(self.chunk_size);
        }
    }
}

} // verus!
