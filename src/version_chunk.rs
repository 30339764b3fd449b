//! The format version.

use crate::codec::{
    add_sat, lemma_sat_add, lemma_split, lemma_u32_bytes, read_u32, u32_at, u32_bytes, write_u32,
};
use crate::error::FormatError;
use crate::record::{BytesTotalSize, Chunk, Record};
use vstd::prelude::*;

verus! {

broadcast use vstd::seq::group_seq_axioms;

/// The format version.
#[derive(PartialEq, Debug)]
pub struct VersionChunk {
    pub chunk_size: u32,
    pub version: u32,
}

/// The mathematical content of a `VersionChunk`.
pub struct VersionChunkModel {
    pub chunk_size: u32,
    pub version: u32,
}

impl View for VersionChunk {
    type V = VersionChunkModel;

    open spec fn view(&self) -> VersionChunkModel {
        VersionChunkModel {
            chunk_size: self.chunk_size,
            version: self.version,
        }
    }
}

/// The bytes that encoding a `VersionChunk` writes.
#[verifier::opaque]
pub open spec fn version_chunk_bytes(m: VersionChunkModel) -> Seq<u8> {
    u32_bytes(m.chunk_size)
    + u32_bytes(m.version)
}

pub open spec fn version_chunk_encodable(m: VersionChunkModel) -> bool {
    true
}

/// A `VersionChunk` that decoding its encoding gives back.
pub open spec fn version_chunk_wf(m: VersionChunkModel) -> bool {
    &&& m.chunk_size + 4 == version_chunk_bytes(m).len()
}

/// Decoding a `VersionChunk` at `pos`: its model and the position after it.
#[verifier::opaque]
pub open spec fn parse_version_chunk(b: Seq<u8>, pos: int) -> Result<(VersionChunkModel, int), FormatError> {
    if pos + 8 > b.len() {
        Err(FormatError::OutOfBounds)
    } else {
        let m = VersionChunkModel {
            chunk_size: u32_at(b, pos),
            version: u32_at(b, pos + 4),
        };
        Ok((m, pos + 8))
    }
}

/// `m` with every declared size inside it recomputed from the content.
pub open spec fn version_chunk_resized(m: VersionChunkModel) -> VersionChunkModel {
    m
}

impl Record for VersionChunk {
    open spec fn parse(b: Seq<u8>, pos: int) -> Result<(VersionChunkModel, int), FormatError> {
        parse_version_chunk(b, pos)
    }

    open spec fn encodable(m: VersionChunkModel) -> bool {
        version_chunk_encodable(m)
    }

    open spec fn wf(m: VersionChunkModel) -> bool {
        version_chunk_wf(m)
    }

    open spec fn resized(m: VersionChunkModel) -> VersionChunkModel {
        version_chunk_resized(m)
    }

    fn calculate_sizes(&mut self) {
    }

    proof fn lemma_resized(m: VersionChunkModel) {
    }

    proof fn lemma_wf_encodable(m: VersionChunkModel) {
    }

    proof fn lemma_round_trip(m: VersionChunkModel, b: Seq<u8>, pos: int) {
        let e = version_chunk_bytes(m);
        let q1 = u32_bytes(m.chunk_size);
        let q2 = q1 + u32_bytes(m.version);
        assert(q2 == e) by {
            reveal(version_chunk_bytes);
        }
        lemma_u32_bytes(m.chunk_size);
        lemma_u32_bytes(m.version);
        lemma_split(b, pos, q1, u32_bytes(m.version));
        assert(b.subrange(pos, pos + 4) == u32_bytes(m.chunk_size));
        assert(u32_at(b, pos) == m.chunk_size);
        assert(b.subrange(pos + q1.len(), pos + q1.len() + 4) == u32_bytes(m.version));
        assert(u32_at(b, pos + q1.len()) == m.version);
        assert(parse_version_chunk(b, pos) == Ok::<(VersionChunkModel, int), FormatError>((m, pos + e.len()))) by {
            reveal(parse_version_chunk);
        }
    }

    fn decode(src: &[u8], pos: usize) -> (r: Result<(VersionChunk, usize), FormatError>) {
        proof {
            reveal(parse_version_chunk);
        }
        let mut p: usize = pos;
        if src.len() - p < 8 {
            return Err(FormatError::OutOfBounds);
        }
        let chunk_size = read_u32(src, p);
        let version = read_u32(src, p + 4);
        p = p + 8;
        let v = VersionChunk { chunk_size, version };
        Ok((v, p))
    }

    fn encode(&self, out: &mut Vec<u8>) -> (r: Result<(), FormatError>) {
        proof {
            reveal(version_chunk_bytes);
        }
        let ghost start = out@;
        write_u32(out, self.chunk_size);
        let ghost mut acc = u32_bytes(self@.chunk_size);
        assert(out@ =~= start + acc);
        write_u32(out, self.version);
        proof {
            acc = acc + u32_bytes(self@.version);
        }
        assert(out@ =~= start + acc);
        assert(acc == version_chunk_bytes(self@));
        Ok(())
    }

}

impl BytesTotalSize for VersionChunk {
    open spec fn model_bytes(m: VersionChunkModel) -> Seq<u8> {
        version_chunk_bytes(m)
    }

    fn total_bytes_size(&self) -> (r: usize) {
        proof {
            reveal(version_chunk_bytes);
        }
        let mut r: usize = 0;
        let ghost mut acc: Seq<u8> = Seq::empty();
        let k: usize = 4;
        proof {
            lemma_u32_bytes(self.chunk_size);
            lemma_sat_add(acc.len() as int, (u32_bytes(self@.chunk_size)).len() as int);
            acc = acc + u32_bytes(self@.chunk_size);
        }
        r = add_sat(r, k);
        let k: usize = 4;
        proof {
            lemma_u32_bytes(self.version);
            lemma_sat_add(acc.len() as int, (u32_bytes(self@.version)).len() as int);
            acc = acc + u32_bytes(self@.version);
        }
        r = add_sat(r, k);
        assert(acc =~= version_chunk_bytes(self@));
        r
    }
}

/// `m` with `chunk_size` set to the encoded length without the size field itself.
pub open spec fn version_chunk_sized(m: VersionChunkModel) -> VersionChunkModel {
    VersionChunkModel { chunk_size: (version_chunk_bytes(m).len() - 4) as u32, ..m }
}

impl Chunk for VersionChunk {
    open spec fn sized(m: VersionChunkModel) -> VersionChunkModel {
        version_chunk_sized(m)
    }

    open spec fn chunk_size_of(m: VersionChunkModel) -> u32 {
        m.chunk_size
    }

    proof fn lemma_sized_id(m: VersionChunkModel) {
    }

    proof fn lemma_chunk_min_len(m: VersionChunkModel) {
        reveal(version_chunk_bytes);
        lemma_u32_bytes(m.chunk_size);
    }

    fn calculate_chunk_size(&mut self) {
        let n = self.total_bytes_size();
        self.chunk_size = (n - 4) as u32;
        proof {
            reveal(version_chunk_bytes);
            lemma_u32_bytes(old(self).chunk_size);
            lemma_u32_bytes(self.chunk_size);
        }
    }
}

} // verus!
