//! Bones.

use crate::codec::{
    add_sat, lemma_sat_add, lemma_split, lemma_u32_bytes, read_u32, u32_at, u32_bytes, write_u32,
};
use crate::error::FormatError;
use crate::record::{
    BytesTotalSize, Chunk, Inclusive, Record, lemma_inclusive_round_trip,
    lemma_records_wf_encodable, lemma_resized_seq, parse_inclusive, read_inclusive, records_bytes,
    records_encodable, records_size, records_wf, resize_records, resized_seq, views, write_records,
};
use crate::node::{Node, NodeModel};
use vstd::prelude::*;

verus! {

broadcast use vstd::seq::group_seq_axioms;

/// A bone: a node and the geoset it moves.
#[derive(PartialEq, Debug)]
pub struct Bone {
    pub node: Node,
    pub geoset_id: u32,
    pub geoset_animation_id: u32,
}

/// The mathematical content of a `Bone`.
pub struct BoneModel {
    pub node: NodeModel,
    pub geoset_id: u32,
    pub geoset_animation_id: u32,
}

impl View for Bone {
    type V = BoneModel;

    open spec fn view(&self) -> BoneModel {
        BoneModel {
            node: self.node@,
            geoset_id: self.geoset_id,
            geoset_animation_id: self.geoset_animation_id,
        }
    }
}

/// The bytes that encoding a `Bone` writes.
#[verifier::opaque]
pub open spec fn bone_bytes(m: BoneModel) -> Seq<u8> {
    Node::model_bytes(m.node)
    + u32_bytes(m.geoset_id)
    + u32_bytes(m.geoset_animation_id)
}

pub open spec fn bone_encodable(m: BoneModel) -> bool {
    Node::encodable(m.node)
}

/// A `Bone` that decoding its encoding gives back.
pub open spec fn bone_wf(m: BoneModel) -> bool {
    &&& Node::wf(m.node)
}

/// Decoding a `Bone` at `pos`: its model and the position after it.
#[verifier::opaque]
pub open spec fn parse_bone(b: Seq<u8>, pos: int) -> Result<(BoneModel, int), FormatError> {
    match Node::parse(b, pos) {
        Err(e) => Err(e),
        Ok((node, p_node)) => {
            if p_node + 8 > b.len() {
                Err(FormatError::OutOfBounds)
            } else {
                let m = BoneModel {
                    node: node,
                    geoset_id: u32_at(b, p_node),
                    geoset_animation_id: u32_at(b, p_node + 4),
                };
                Ok((m, p_node + 8))
            }
        },
    }
}

/// `m` with every declared size inside it recomputed from the content.
pub open spec fn bone_resized(m: BoneModel) -> BoneModel {
    BoneModel { node: Node::resized(m.node), ..m }
}

impl Record for Bone {
    open spec fn parse(b: Seq<u8>, pos: int) -> Result<(BoneModel, int), FormatError> {
        parse_bone(b, pos)
    }

    open spec fn encodable(m: BoneModel) -> bool {
        bone_encodable(m)
    }

    open spec fn wf(m: BoneModel) -> bool {
        bone_wf(m)
    }

    open spec fn resized(m: BoneModel) -> BoneModel {
        bone_resized(m)
    }

    fn calculate_sizes(&mut self) {
        proof {
            reveal(bone_bytes);
        }
        proof {
            Node::lemma_resized(self.node@);
        }
        self.node.calculate_sizes();
    }

    proof fn lemma_resized(m: BoneModel) {
        reveal(bone_bytes);
        Node::lemma_resized(m.node);
    }

    proof fn lemma_wf_encodable(m: BoneModel) {
        Node::lemma_wf_encodable(m.node);
    }

    proof fn lemma_round_trip(m: BoneModel, b: Seq<u8>, pos: int) {
        let e = bone_bytes(m);
        let q1 = Node::model_bytes(m.node);
        let q2 = q1 + u32_bytes(m.geoset_id);
        let q3 = q2 + u32_bytes(m.geoset_animation_id);
        assert(q3 == e) by {
            reveal(bone_bytes);
        }
        lemma_u32_bytes(m.geoset_id);
        lemma_u32_bytes(m.geoset_animation_id);
        lemma_split(b, pos, q2, u32_bytes(m.geoset_animation_id));
        lemma_split(b, pos, q1, u32_bytes(m.geoset_id));
        Node::lemma_round_trip(m.node, b, pos);
        assert(b.subrange(pos + q1.len(), pos + q1.len() + 4) == u32_bytes(m.geoset_id));
        assert(u32_at(b, pos + q1.len()) == m.geoset_id);
        assert(b.subrange(pos + q2.len(), pos + q2.len() + 4) == u32_bytes(m.geoset_animation_id));
        assert(u32_at(b, pos + q2.len()) == m.geoset_animation_id);
        assert(parse_bone(b, pos) == Ok::<(BoneModel, int), FormatError>((m, pos + e.len()))) by {
            reveal(parse_bone);
        }
    }

    fn decode(src: &[u8], pos: usize) -> (r: Result<(Bone, usize), FormatError>) {
        proof {
            reveal(parse_bone);
        }
        let mut p: usize = pos;
        let node = match Node::decode(src, p) {
            Ok((v, q)) => {
                p = q;
                v
            },
            Err(e) => {
                return Err(e);
            },
        };
        if src.len() - p < 8 {
            return Err(FormatError::OutOfBounds);
        }
        let geoset_id = read_u32(src, p);
        let geoset_animation_id = read_u32(src, p + 4);
        p = p + 8;
        let v = Bone { node, geoset_id, geoset_animation_id };
        Ok((v, p))
    }

    fn encode(&self, out: &mut Vec<u8>) -> (r: Result<(), FormatError>) {
        proof {
            reveal(bone_bytes);
        }
        let ghost start = out@;
        if let Err(e) = self.node.encode(out) {
            return Err(e);
        }
        let ghost mut acc = Node::model_bytes(self@.node);
        assert(out@ =~= start + acc);
        write_u32(out, self.geoset_id);
        proof {
            acc = acc + u32_bytes(self@.geoset_id);
        }
        assert(out@ =~= start + acc);
        write_u32(out, self.geoset_animation_id);
        proof {
            acc = acc + u32_bytes(self@.geoset_animation_id);
        }
        assert(out@ =~= start + acc);
        assert(acc == bone_bytes(self@));
        Ok(())
    }

}

impl BytesTotalSize for Bone {
    open spec fn model_bytes(m: BoneModel) -> Seq<u8> {
        bone_bytes(m)
    }

    fn total_bytes_size(&self) -> (r: usize) {
        proof {
            reveal(bone_bytes);
        }
        let mut r: usize = 0;
        let ghost mut acc: Seq<u8> = Seq::empty();
        let k: usize = self.node.total_bytes_size();
        proof {
            lemma_sat_add(acc.len() as int, (Node::model_bytes(self@.node)).len() as int);
            acc = acc + Node::model_bytes(self@.node);
        }
        r = add_sat(r, k);
        let k: usize = 4;
        proof {
            lemma_u32_bytes(self.geoset_id);
            lemma_sat_add(acc.len() as int, (u32_bytes(self@.geoset_id)).len() as int);
            acc = acc + u32_bytes(self@.geoset_id);
        }
        r = add_sat(r, k);
        let k: usize = 4;
        proof {
            lemma_u32_bytes(self.geoset_animation_id);
            lemma_sat_add(acc.len() as int, (u32_bytes(self@.geoset_animation_id)).len() as int);
            acc = acc + u32_bytes(self@.geoset_animation_id);
        }
        r = add_sat(r, k);
        assert(acc =~= bone_bytes(self@));
        r
    }
}

impl Inclusive for Bone {
    open spec fn declared(m: BoneModel) -> int {
        m.node.inclusive_size + 8
    }

    fn declared_size(&self) -> (r: u64) {
        self.node.inclusive_size as u64 + 8
    }

    proof fn lemma_declared(m: BoneModel) {
        reveal(bone_bytes);
        lemma_u32_bytes(m.geoset_id);
        lemma_u32_bytes(m.geoset_animation_id);
    }
}

/// A run of `Bone` records, read while the sum of their declared sizes stays below `chunk_size`.
#[derive(PartialEq, Debug)]
pub struct BoneChunk {
    pub chunk_size: u32,
    pub data: Vec<Bone>,
}

/// The mathematical content of a `BoneChunk`.
pub struct BoneChunkModel {
    pub chunk_size: u32,
    pub data: Seq<BoneModel>,
}

impl View for BoneChunk {
    type V = BoneChunkModel;

    open spec fn view(&self) -> BoneChunkModel {
        BoneChunkModel {
            chunk_size: self.chunk_size,
            data: views(self.data@),
        }
    }
}

/// The bytes that encoding a `BoneChunk` writes.
#[verifier::opaque]
pub open spec fn bone_chunk_bytes(m: BoneChunkModel) -> Seq<u8> {
    u32_bytes(m.chunk_size)
    + records_bytes::<Bone>(m.data)
}

pub open spec fn bone_chunk_encodable(m: BoneChunkModel) -> bool {
    records_encodable::<Bone>(m.data)
}

/// A `BoneChunk` that decoding its encoding gives back.
pub open spec fn bone_chunk_wf(m: BoneChunkModel) -> bool {
    &&& records_wf::<Bone>(m.data)
    &&& m.chunk_size + 4 == bone_chunk_bytes(m).len()
}

/// Decoding a `BoneChunk` at `pos`: its model and the position after it.
#[verifier::opaque]
pub open spec fn parse_bone_chunk(b: Seq<u8>, pos: int) -> Result<(BoneChunkModel, int), FormatError> {
    if pos + 4 > b.len() {
        Err(FormatError::OutOfBounds)
    } else {
        match parse_inclusive::<Bone>(b, pos + 4, 0, u32_at(b, pos) as int) {
            Err(e) => Err(e),
            Ok((data, p_data)) => {
                let m = BoneChunkModel {
                    chunk_size: u32_at(b, pos),
                    data: data,
                };
                Ok((m, p_data))
            },
        }
    }
}

/// `m` with every declared size inside it recomputed from the content.
pub open spec fn bone_chunk_resized(m: BoneChunkModel) -> BoneChunkModel {
    BoneChunkModel { data: resized_seq::<Bone>(m.data), ..m }
}

impl Record for BoneChunk {
    open spec fn parse(b: Seq<u8>, pos: int) -> Result<(BoneChunkModel, int), FormatError> {
        parse_bone_chunk(b, pos)
    }

    open spec fn encodable(m: BoneChunkModel) -> bool {
        bone_chunk_encodable(m)
    }

    open spec fn wf(m: BoneChunkModel) -> bool {
        bone_chunk_wf(m)
    }

    open spec fn resized(m: BoneChunkModel) -> BoneChunkModel {
        bone_chunk_resized(m)
    }

    fn calculate_sizes(&mut self) {
        proof {
            reveal(bone_chunk_bytes);
        }
        proof {
            lemma_resized_seq::<Bone>(views(self.data@));
        }
        resize_records(&mut self.data);
    }

    proof fn lemma_resized(m: BoneChunkModel) {
        reveal(bone_chunk_bytes);
        lemma_resized_seq::<Bone>(m.data);
    }

    proof fn lemma_wf_encodable(m: BoneChunkModel) {
        lemma_records_wf_encodable::<Bone>(m.data);
    }

    proof fn lemma_round_trip(m: BoneChunkModel, b: Seq<u8>, pos: int) {
        let e = bone_chunk_bytes(m);
        let q1 = u32_bytes(m.chunk_size);
        let q2 = q1 + records_bytes::<Bone>(m.data);
        assert(q2 == e) by {
            reveal(bone_chunk_bytes);
        }
        lemma_u32_bytes(m.chunk_size);
        lemma_split(b, pos, q1, records_bytes::<Bone>(m.data));
        assert(b.subrange(pos, pos + 4) == u32_bytes(m.chunk_size));
        assert(u32_at(b, pos) == m.chunk_size);
        lemma_inclusive_round_trip::<Bone>(m.data, b, pos + q1.len(), 0);
        assert(parse_bone_chunk(b, pos) == Ok::<(BoneChunkModel, int), FormatError>((m, pos + e.len()))) by {
            reveal(parse_bone_chunk);
        }
    }

    fn decode(src: &[u8], pos: usize) -> (r: Result<(BoneChunk, usize), FormatError>) {
        proof {
            reveal(parse_bone_chunk);
        }
        let mut p: usize = pos;
        if src.len() - p < 4 {
            return Err(FormatError::OutOfBounds);
        }
        let chunk_size = read_u32(src, p);
        p = p + 4;
        let data = match read_inclusive::<Bone>(src, p, chunk_size) {
            Ok((v, q)) => {
                p = q;
                v
            },
            Err(e) => {
                return Err(e);
            },
        };
        let v = BoneChunk { chunk_size, data };
        Ok((v, p))
    }

    fn encode(&self, out: &mut Vec<u8>) -> (r: Result<(), FormatError>) {
        proof {
            reveal(bone_chunk_bytes);
        }
        let ghost start = out@;
        write_u32(out, self.chunk_size);
        let ghost mut acc = u32_bytes(self@.chunk_size);
        assert(out@ =~= start + acc);
        if let Err(e) = write_records(out, &self.data) {
            return Err(e);
        }
        proof {
            acc = acc + records_bytes::<Bone>(self@.data);
        }
        assert(out@ =~= start + acc);
        assert(acc == bone_chunk_bytes(self@));
        Ok(())
    }

}

impl BytesTotalSize for BoneChunk {
    open spec fn model_bytes(m: BoneChunkModel) -> Seq<u8> {
        bone_chunk_bytes(m)
    }

    fn total_bytes_size(&self) -> (r: usize) {
        proof {
            reveal(bone_chunk_bytes);
        }
        let mut r: usize = 0;
        let ghost mut acc: Seq<u8> = Seq::empty();
        let k: usize = 4;
        proof {
            lemma_u32_bytes(self.chunk_size);
            lemma_sat_add(acc.len() as int, (u32_bytes(self@.chunk_size)).len() as int);
            acc = acc + u32_bytes(self@.chunk_size);
        }
        r = add_sat(r, k);
        let k: usize = records_size(&self.data);
        proof {
            lemma_sat_add(acc.len() as int, (records_bytes::<Bone>(self@.data)).len() as int);
            acc = acc + records_bytes::<Bone>(self@.data);
        }
        r = add_sat(r, k);
        assert(acc =~= bone_chunk_bytes(self@));
        r
    }
}

/// `m` with `chunk_size` set to the encoded length without the size field itself.
pub open spec fn bone_chunk_sized(m: BoneChunkModel) -> BoneChunkModel {
    BoneChunkModel { chunk_size: (bone_chunk_bytes(m).len() - 4) as u32, ..m }
}

impl Chunk for BoneChunk {
    open spec fn sized(m: BoneChunkModel) -> BoneChunkModel {
        bone_chunk_sized(m)
    }

    open spec fn chunk_size_of(m: BoneChunkModel) -> u32 {
        m.chunk_size
    }

    proof fn lemma_sized_id(m: BoneChunkModel) {
    }

    proof fn lemma_chunk_min_len(m: BoneChunkModel) {
        reveal(bone_chunk_bytes);
        lemma_u32_bytes(m.chunk_size);
    }

    fn calculate_chunk_size(&mut self) {
        let n = self.total_bytes_size();
        self.chunk_size = (n - 4) as u32;
        proof {
            reveal(bone_chunk_bytes);
            lemma_u32_bytes(old(self).chunk_size);
            lemma_u32_bytes(self.chunk_size);
        }
    }
}

} // verus!
