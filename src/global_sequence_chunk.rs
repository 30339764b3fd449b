//! Global sequences.

use crate::codec::{
    Element, add_sat, lemma_sat_add, lemma_split, lemma_sub, lemma_u32_bytes, read_u32, u32_at,
    u32_bytes, write_u32,
};
use crate::error::FormatError;
use crate::list::{
    elems_bytes, elems_size, lemma_elems_len, lemma_elems_round_trip, parse_elems, read_elems,
    write_elems,
};
use crate::record::{BytesTotalSize, Chunk, Record};
use vstd::arithmetic::div_mod::lemma_div_by_multiple;
use vstd::prelude::*;

verus! {

broadcast use vstd::seq::group_seq_axioms;

#[derive(PartialEq, Eq, Structural, Debug, Clone, Copy)]
pub struct GlobalSequence {
    pub duration: u32,
}

impl Element for GlobalSequence {
    open spec fn width() -> nat {
        4
    }

    open spec fn parse_at(b: Seq<u8>, pos: int) -> GlobalSequence {
        GlobalSequence { duration: u32_at(b, pos) }
    }

    open spec fn to_bytes(self) -> Seq<u8> {
        u32_bytes(self.duration)
    }

    fn byte_width() -> usize {
        4
    }

    fn read_at(src: &[u8], pos: usize) -> GlobalSequence {
        GlobalSequence { duration: read_u32(src, pos) }
    }

    fn write_to(&self, out: &mut Vec<u8>) {
        write_u32(out, self.duration);
    }

    proof fn lemma_width() {
    }

    proof fn lemma_codec(self, b: Seq<u8>, pos: int) {
        lemma_u32_bytes(self.duration);
        let w = self.to_bytes();
        if 0 <= pos && pos + 4 <= b.len() && b.subrange(pos, pos + 4) == w {
            lemma_sub(b, pos, w, 0, 4);
                assert(w.subrange(0, 4) =~= u32_bytes(self.duration));
        }
    }
}

/// Global sequence durations: `chunk_size / 4` of them; remainder bytes are skipped.
#[derive(PartialEq, Debug)]
pub struct GlobalSequenceChunk {
    pub chunk_size: u32,
    pub data: Vec<GlobalSequence>,
}

/// The mathematical content of a `GlobalSequenceChunk`.
pub struct GlobalSequenceChunkModel {
    pub chunk_size: u32,
    pub data: Seq<GlobalSequence>,
}

impl View for GlobalSequenceChunk {
    type V = GlobalSequenceChunkModel;

    open spec fn view(&self) -> GlobalSequenceChunkModel {
        GlobalSequenceChunkModel {
            chunk_size: self.chunk_size,
            data: self.data@,
        }
    }
}

/// The bytes that encoding a `GlobalSequenceChunk` writes.
#[verifier::opaque]
pub open spec fn global_sequence_chunk_bytes(m: GlobalSequenceChunkModel) -> Seq<u8> {
    u32_bytes(m.chunk_size)
    + elems_bytes(m.data)
}

pub open spec fn global_sequence_chunk_encodable(m: GlobalSequenceChunkModel) -> bool {
    true
}

/// A `GlobalSequenceChunk` that decoding its encoding gives back.
pub open spec fn global_sequence_chunk_wf(m: GlobalSequenceChunkModel) -> bool {
    &&& m.chunk_size + 4 == global_sequence_chunk_bytes(m).len()
}

/// Decoding a `GlobalSequenceChunk` at `pos`: its model and the position after it.
#[verifier::opaque]
pub open spec fn parse_global_sequence_chunk(b: Seq<u8>, pos: int) -> Result<(GlobalSequenceChunkModel, int), FormatError> {
    if pos + 4 > b.len() {
        Err(FormatError::OutOfBounds)
    } else {
        match parse_elems::<GlobalSequence>(b, pos + 4, (u32_at(b, pos) / 4) as nat) {
            Err(e) => Err(e),
            Ok((data, p_data)) => if pos + 4 + u32_at(b, pos) as int > b.len() {
                Err(FormatError::OutOfBounds)
            } else {
                let m = GlobalSequenceChunkModel {
                    chunk_size: u32_at(b, pos),
                    data: data,
                };
                Ok((m, pos + 4 + u32_at(b, pos) as int))
            },
        }
    }
}

/// Decoding reads `chunk_size / 4` records and skips the remainder: the
/// position after the chunk is `pos + 4 + chunk_size` whatever that remainder.
pub proof fn lemma_global_sequence_chunk_truncates(b: Seq<u8>, pos: int)
    ensures
        parse_global_sequence_chunk(b, pos) matches Ok((m, p)) ==> {
            &&& m.data.len() == m.chunk_size / 4
            &&& p == pos + 4 + m.chunk_size
        },
{
    reveal(parse_global_sequence_chunk);

}

/// Recomputing `chunk_size` gives an exact multiple of the record width.
pub proof fn lemma_global_sequence_chunk_sized_multiple(m: GlobalSequenceChunkModel)
    requires
        global_sequence_chunk_bytes(m).len() <= u32::MAX,
    ensures
        global_sequence_chunk_sized(m).chunk_size == m.data.len() * 4,
{
    reveal(global_sequence_chunk_bytes);
    lemma_u32_bytes(m.chunk_size);
    lemma_elems_len(m.data);
}

/// `m` with every declared size inside it recomputed from the content.
pub open spec fn global_sequence_chunk_resized(m: GlobalSequenceChunkModel) -> GlobalSequenceChunkModel {
    m
}

impl Record for GlobalSequenceChunk {
    open spec fn parse(b: Seq<u8>, pos: int) -> Result<(GlobalSequenceChunkModel, int), FormatError> {
        parse_global_sequence_chunk(b, pos)
    }

    open spec fn encodable(m: GlobalSequenceChunkModel) -> bool {
        global_sequence_chunk_encodable(m)
    }

    open spec fn wf(m: GlobalSequenceChunkModel) -> bool {
        global_sequence_chunk_wf(m)
    }

    open spec fn resized(m: GlobalSequenceChunkModel) -> GlobalSequenceChunkModel {
        global_sequence_chunk_resized(m)
    }

    fn calculate_sizes(&mut self) {
    }

    proof fn lemma_resized(m: GlobalSequenceChunkModel) {
    }

    proof fn lemma_wf_encodable(m: GlobalSequenceChunkModel) {
    }

    proof fn lemma_round_trip(m: GlobalSequenceChunkModel, b: Seq<u8>, pos: int) {
        let e = global_sequence_chunk_bytes(m);
        let q1 = u32_bytes(m.chunk_size);
        let q2 = q1 + elems_bytes(m.data);
        assert(q2 == e) by {
            reveal(global_sequence_chunk_bytes);
        }
        lemma_u32_bytes(m.chunk_size);
        lemma_elems_len(m.data);
        lemma_split(b, pos, q1, elems_bytes(m.data));
        assert(b.subrange(pos, pos + 4) == u32_bytes(m.chunk_size));
        assert(u32_at(b, pos) == m.chunk_size);
        lemma_elems_round_trip(m.data, b, pos + q1.len());
        lemma_div_by_multiple(m.data.len() as int, 4);
        assert(parse_global_sequence_chunk(b, pos) == Ok::<(GlobalSequenceChunkModel, int), FormatError>((m, pos + e.len()))) by {
            reveal(parse_global_sequence_chunk);
        }
    }

    fn decode(src: &[u8], pos: usize) -> (r: Result<(GlobalSequenceChunk, usize), FormatError>) {
        proof {
            reveal(parse_global_sequence_chunk);
        }
        let mut p: usize = pos;
        if src.len() - p < 4 {
            return Err(FormatError::OutOfBounds);
        }
        let chunk_size = read_u32(src, p);
        p = p + 4;
        let data = match read_elems::<GlobalSequence>(src, p, (chunk_size / 4) as usize) {
            Ok((v, _)) => v,
            Err(e) => {
                return Err(e);
            },
        };
        if src.len() - p < chunk_size as usize {
            return Err(FormatError::OutOfBounds);
        }
        p = p + chunk_size as usize;
        let v = GlobalSequenceChunk { chunk_size, data };
        Ok((v, p))
    }

    fn encode(&self, out: &mut Vec<u8>) -> (r: Result<(), FormatError>) {
        proof {
            reveal(global_sequence_chunk_bytes);
        }
        let ghost start = out@;
        write_u32(out, self.chunk_size);
        let ghost mut acc = u32_bytes(self@.chunk_size);
        assert(out@ =~= start + acc);
        write_elems(out, &self.data);
        proof {
            acc = acc + elems_bytes(self@.data);
        }
        assert(out@ =~= start + acc);
        assert(acc == global_sequence_chunk_bytes(self@));
        Ok(())
    }

}

impl BytesTotalSize for GlobalSequenceChunk {
    open spec fn model_bytes(m: GlobalSequenceChunkModel) -> Seq<u8> {
        global_sequence_chunk_bytes(m)
    }

    fn total_bytes_size(&self) -> (r: usize) {
        proof {
            reveal(global_sequence_chunk_bytes);
        }
        let mut r: usize = 0;
        let ghost mut acc: Seq<u8> = Seq::empty();
        let k: usize = 4;
        proof {
            lemma_u32_bytes(self.chunk_size);
            lemma_sat_add(acc.len() as int, (u32_bytes(self@.chunk_size)).len() as int);
            acc = acc + u32_bytes(self@.chunk_size);
        }
        r = add_sat(r, k);
        let k: usize = elems_size(&self.data);
        proof {
            lemma_sat_add(acc.len() as int, (elems_bytes(self@.data)).len() as int);
            acc = acc + elems_bytes(self@.data);
        }
        r = add_sat(r, k);
        assert(acc =~= global_sequence_chunk_bytes(self@));
        r
    }
}

/// `m` with `chunk_size` set to the encoded length without the size field itself.
pub open spec fn global_sequence_chunk_sized(m: GlobalSequenceChunkModel) -> GlobalSequenceChunkModel {
    GlobalSequenceChunkModel { chunk_size: (global_sequence_chunk_bytes(m).len() - 4) as u32, ..m }
}

impl Chunk for GlobalSequenceChunk {
    open spec fn sized(m: GlobalSequenceChunkModel) -> GlobalSequenceChunkModel {
        global_sequence_chunk_sized(m)
    }

    open spec fn chunk_size_of(m: GlobalSequenceChunkModel) -> u32 {
        m.chunk_size
    }

    proof fn lemma_sized_id(m: GlobalSequenceChunkModel) {
    }

    proof fn lemma_chunk_min_len(m: GlobalSequenceChunkModel) {
        reveal(global_sequence_chunk_bytes);
        lemma_u32_bytes(m.chunk_size);
    }

    fn calculate_chunk_size(&mut self) {
        let n = self.total_bytes_size();
        self.chunk_size = (n - 4) as u32;
        proof {
            reveal(global_sequence_chunk_bytes);
            lemma_u32_bytes(old(self).chunk_size);
            lemma_u32_bytes(self.chunk_size);
        }
    }
}

} // verus!
