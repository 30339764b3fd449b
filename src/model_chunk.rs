//! The model header.

use crate::codec::{
    Element, add_sat, lemma_sat_add, lemma_split, lemma_text_field_len, lemma_text_round_trip,
    lemma_u32_bytes, parse_text, read_text, read_u32, text_field, text_fits, text_ok, u32_at,
    u32_bytes, write_text, write_u32,
};
use crate::data_types::Extent;
use crate::error::FormatError;
use crate::record::{BytesTotalSize, Chunk, Record};
use vstd::prelude::*;

verus! {

broadcast use vstd::seq::group_seq_axioms;

/// The model header: a 336-byte name field, then the bounds.
#[derive(PartialEq, Debug)]
pub struct ModelChunk {
    pub chunk_size: u32,
    pub name: String,
    pub unknown: u32,
    pub extent: Extent,
    pub blend_time: u32,
}

/// The mathematical content of a `ModelChunk`.
pub struct ModelChunkModel {
    pub chunk_size: u32,
    pub name: Seq<char>,
    pub unknown: u32,
    pub extent: Extent,
    pub blend_time: u32,
}

impl View for ModelChunk {
    type V = ModelChunkModel;

    open spec fn view(&self) -> ModelChunkModel {
        ModelChunkModel {
            chunk_size: self.chunk_size,
            name: self.name@,
            unknown: self.unknown,
            extent: self.extent,
            blend_time: self.blend_time,
        }
    }
}

/// The bytes that encoding a `ModelChunk` writes.
#[verifier::opaque]
pub open spec fn model_chunk_bytes(m: ModelChunkModel) -> Seq<u8> {
    u32_bytes(m.chunk_size)
    + text_field(m.name, 336)
    + u32_bytes(m.unknown)
    + m.extent.to_bytes()
    + u32_bytes(m.blend_time)
}

pub open spec fn model_chunk_encodable(m: ModelChunkModel) -> bool {
    text_fits(m.name, 336)
}

/// A `ModelChunk` that decoding its encoding gives back.
pub open spec fn model_chunk_wf(m: ModelChunkModel) -> bool {
    &&& text_ok(m.name, 336)
    &&& m.chunk_size + 4 == model_chunk_bytes(m).len()
}

/// Decoding a `ModelChunk` at `pos`: its model and the position after it.
#[verifier::opaque]
pub open spec fn parse_model_chunk(b: Seq<u8>, pos: int) -> Result<(ModelChunkModel, int), FormatError> {
    if pos + 376 > b.len() {
        Err(FormatError::OutOfBounds)
    } else {
        match parse_text(b, pos + 4, 336) {
            Err(e) => Err(e),
            Ok(name) => {
                let m = ModelChunkModel {
                    chunk_size: u32_at(b, pos),
                    name: name,
                    unknown: u32_at(b, pos + 340),
                    extent: Extent::parse_at(b, pos + 344),
                    blend_time: u32_at(b, pos + 372),
                };
                Ok((m, pos + 376))
            },
        }
    }
}

/// `m` with every declared size inside it recomputed from the content.
pub open spec fn model_chunk_resized(m: ModelChunkModel) -> ModelChunkModel {
    m
}

impl Record for ModelChunk {
    open spec fn parse(b: Seq<u8>, pos: int) -> Result<(ModelChunkModel, int), FormatError> {
        parse_model_chunk(b, pos)
    }

    open spec fn encodable(m: ModelChunkModel) -> bool {
        model_chunk_encodable(m)
    }

    open spec fn wf(m: ModelChunkModel) -> bool {
        model_chunk_wf(m)
    }

    open spec fn resized(m: ModelChunkModel) -> ModelChunkModel {
        model_chunk_resized(m)
    }

    fn calculate_sizes(&mut self) {
    }

    proof fn lemma_resized(m: ModelChunkModel) {
    }

    proof fn lemma_wf_encodable(m: ModelChunkModel) {
    }

    proof fn lemma_round_trip(m: ModelChunkModel, b: Seq<u8>, pos: int) {
        let e = model_chunk_bytes(m);
        let q1 = u32_bytes(m.chunk_size);
        let q2 = q1 + text_field(m.name, 336);
        let q3 = q2 + u32_bytes(m.unknown);
        let q4 = q3 + m.extent.to_bytes();
        let q5 = q4 + u32_bytes(m.blend_time);
        assert(q5 == e) by {
            reveal(model_chunk_bytes);
        }
        lemma_u32_bytes(m.chunk_size);
        lemma_text_field_len(m.name, 336);
        lemma_u32_bytes(m.unknown);
        m.extent.lemma_codec(Seq::empty(), 0);
        lemma_u32_bytes(m.blend_time);
        lemma_split(b, pos, q4, u32_bytes(m.blend_time));
        lemma_split(b, pos, q3, m.extent.to_bytes());
        lemma_split(b, pos, q2, u32_bytes(m.unknown));
        lemma_split(b, pos, q1, text_field(m.name, 336));
        assert(b.subrange(pos, pos + 4) == u32_bytes(m.chunk_size));
        assert(u32_at(b, pos) == m.chunk_size);
        lemma_text_round_trip(m.name, 336, b, pos + q1.len());
        assert(b.subrange(pos + q2.len(), pos + q2.len() + 4) == u32_bytes(m.unknown));
        assert(u32_at(b, pos + q2.len()) == m.unknown);
        assert(b.subrange(pos + q3.len(), pos + q3.len() + 28) == m.extent.to_bytes());
        m.extent.lemma_codec(b, pos + q3.len());
        assert(b.subrange(pos + q4.len(), pos + q4.len() + 4) == u32_bytes(m.blend_time));
        assert(u32_at(b, pos + q4.len()) == m.blend_time);
        assert(parse_model_chunk(b, pos) == Ok::<(ModelChunkModel, int), FormatError>((m, pos + e.len()))) by {
            reveal(parse_model_chunk);
        }
    }

    fn decode(src: &[u8], pos: usize) -> (r: Result<(ModelChunk, usize), FormatError>) {
        proof {
            reveal(parse_model_chunk);
        }
        let mut p: usize = pos;
        if src.len() - p < 376 {
            return Err(FormatError::OutOfBounds);
        }
        let chunk_size = read_u32(src, p);
        let name = match read_text(src, p + 4, 336) {
            Ok(s) => s,
            Err(e) => {
                return Err(e);
            },
        };
        let unknown = read_u32(src, p + 340);
        let extent = Extent::read_at(src, p + 344);
        let blend_time = read_u32(src, p + 372);
        p = p + 376;
        let v = ModelChunk { chunk_size, name, unknown, extent, blend_time };
        Ok((v, p))
    }

    fn encode(&self, out: &mut Vec<u8>) -> (r: Result<(), FormatError>) {
        proof {
            reveal(model_chunk_bytes);
        }
        let ghost start = out@;
        write_u32(out, self.chunk_size);
        let ghost mut acc = u32_bytes(self@.chunk_size);
        assert(out@ =~= start + acc);
        if let Err(e) = write_text(out, &self.name, 336) {
            return Err(e);
        }
        proof {
            acc = acc + text_field(self@.name, 336);
        }
        assert(out@ =~= start + acc);
        write_u32(out, self.unknown);
        proof {
            acc = acc + u32_bytes(self@.unknown);
        }
        assert(out@ =~= start + acc);
        self.extent.write_to(out);
        proof {
            acc = acc + self@.extent.to_bytes();
        }
        assert(out@ =~= start + acc);
        write_u32(out, self.blend_time);
        proof {
            acc = acc + u32_bytes(self@.blend_time);
        }
        assert(out@ =~= start + acc);
        assert(acc == model_chunk_bytes(self@));
        Ok(())
    }

}

impl BytesTotalSize for ModelChunk {
    open spec fn model_bytes(m: ModelChunkModel) -> Seq<u8> {
        model_chunk_bytes(m)
    }

    fn total_bytes_size(&self) -> (r: usize) {
        proof {
            reveal(model_chunk_bytes);
        }
        let mut r: usize = 0;
        let ghost mut acc: Seq<u8> = Seq::empty();
        let k: usize = 4;
        proof {
            lemma_u32_bytes(self.chunk_size);
            lemma_sat_add(acc.len() as int, (u32_bytes(self@.chunk_size)).len() as int);
            acc = acc + u32_bytes(self@.chunk_size);
        }
        r = add_sat(r, k);
        let k: usize = 336;
        proof {
            lemma_text_field_len(self.name@, 336);
            lemma_sat_add(acc.len() as int, (text_field(self@.name, 336)).len() as int);
            acc = acc + text_field(self@.name, 336);
        }
        r = add_sat(r, k);
        let k: usize = 4;
        proof {
            lemma_u32_bytes(self.unknown);
            lemma_sat_add(acc.len() as int, (u32_bytes(self@.unknown)).len() as int);
            acc = acc + u32_bytes(self@.unknown);
        }
        r = add_sat(r, k);
        let k: usize = Extent::byte_width();
        proof {
            self.extent.lemma_codec(Seq::empty(), 0);
            lemma_sat_add(acc.len() as int, (self@.extent.to_bytes()).len() as int);
            acc = acc + self@.extent.to_bytes();
        }
        r = add_sat(r, k);
        let k: usize = 4;
        proof {
            lemma_u32_bytes(self.blend_time);
            lemma_sat_add(acc.len() as int, (u32_bytes(self@.blend_time)).len() as int);
            acc = acc + u32_bytes(self@.blend_time);
        }
        r = add_sat(r, k);
        assert(acc =~= model_chunk_bytes(self@));
        r
    }
}

/// `m` with `chunk_size` set to the encoded length without the size field itself.
pub open spec fn model_chunk_sized(m: ModelChunkModel) -> ModelChunkModel {
    ModelChunkModel { chunk_size: (model_chunk_bytes(m).len() - 4) as u32, ..m }
}

impl Chunk for ModelChunk {
    open spec fn sized(m: ModelChunkModel) -> ModelChunkModel {
        model_chunk_sized(m)
    }

    open spec fn chunk_size_of(m: ModelChunkModel) -> u32 {
        m.chunk_size
    }

    proof fn lemma_sized_id(m: ModelChunkModel) {
    }

    proof fn lemma_chunk_min_len(m: ModelChunkModel) {
        reveal(model_chunk_bytes);
        lemma_u32_bytes(m.chunk_size);
    }

    fn calculate_chunk_size(&mut self) {
        let n = self.total_bytes_size();
        self.chunk_size = (n - 4) as u32;
        proof {
            reveal(model_chunk_bytes);
            lemma_u32_bytes(old(self).chunk_size);
            lemma_u32_bytes(self.chunk_size);
        }
    }
}

} // verus!
