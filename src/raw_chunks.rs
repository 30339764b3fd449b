//! Chunks whose payload is carried as raw bytes.

use crate::codec::{
    add_sat, lemma_sat_add, lemma_split, lemma_u32_bytes, read_u32, u32_at, u32_bytes, write_raw,
    write_u32,
};
use crate::error::FormatError;
use crate::record::{BytesTotalSize, Chunk, Record};
use vstd::slice::slice_to_vec;
use vstd::prelude::*;

verus! {

broadcast use vstd::seq::group_seq_axioms;

/// Particle emitters, carried as raw bytes.
#[derive(PartialEq, Debug)]
pub struct ParticleEmitterChunk {
    pub chunk_size: u32,
    pub data: Vec<u8>,
}

/// The mathematical content of a `ParticleEmitterChunk`.
pub struct ParticleEmitterChunkModel {
    pub chunk_size: u32,
    pub data: Seq<u8>,
}

impl View for ParticleEmitterChunk {
    type V = ParticleEmitterChunkModel;

    open spec fn view(&self) -> ParticleEmitterChunkModel {
        ParticleEmitterChunkModel {
            chunk_size: self.chunk_size,
            data: self.data@,
        }
    }
}

/// The bytes that encoding a `ParticleEmitterChunk` writes.
#[verifier::opaque]
pub open spec fn particle_emitter_chunk_bytes(m: ParticleEmitterChunkModel) -> Seq<u8> {
    u32_bytes(m.chunk_size)
    + m.data
}

pub open spec fn particle_emitter_chunk_encodable(m: ParticleEmitterChunkModel) -> bool {
    true
}

/// A `ParticleEmitterChunk` that decoding its encoding gives back.
pub open spec fn particle_emitter_chunk_wf(m: ParticleEmitterChunkModel) -> bool {
    &&& m.chunk_size + 4 == particle_emitter_chunk_bytes(m).len()
}

/// Decoding a `ParticleEmitterChunk` at `pos`: its model and the position after it.
#[verifier::opaque]
pub open spec fn parse_particle_emitter_chunk(b: Seq<u8>, pos: int) -> Result<(ParticleEmitterChunkModel, int), FormatError> {
    if pos + 4 > b.len() {
        Err(FormatError::OutOfBounds)
    } else {
        if pos + 4 + u32_at(b, pos) as int > b.len() {
            Err(FormatError::OutOfBounds)
        } else {
            let m = ParticleEmitterChunkModel {
                chunk_size: u32_at(b, pos),
                data: b.subrange(pos + 4, pos + 4 + u32_at(b, pos) as int),
            };
            Ok((m, pos + 4 + u32_at(b, pos) as int))
        }
    }
}

/// `m` with every declared size inside it recomputed from the content.
pub open spec fn particle_emitter_chunk_resized(m: ParticleEmitterChunkModel) -> ParticleEmitterChunkModel {
    m
}

impl Record for ParticleEmitterChunk {
    open spec fn parse(b: Seq<u8>, pos: int) -> Result<(ParticleEmitterChunkModel, int), FormatError> {
        parse_particle_emitter_chunk(b, pos)
    }

    open spec fn encodable(m: ParticleEmitterChunkModel) -> bool {
        particle_emitter_chunk_encodable(m)
    }

    open spec fn wf(m: ParticleEmitterChunkModel) -> bool {
        particle_emitter_chunk_wf(m)
    }

    open spec fn resized(m: ParticleEmitterChunkModel) -> ParticleEmitterChunkModel {
        particle_emitter_chunk_resized(m)
    }

    fn calculate_sizes(&mut self) {
    }

    proof fn lemma_resized(m: ParticleEmitterChunkModel) {
    }

    proof fn lemma_wf_encodable(m: ParticleEmitterChunkModel) {
    }

    proof fn lemma_round_trip(m: ParticleEmitterChunkModel, b: Seq<u8>, pos: int) {
        let e = particle_emitter_chunk_bytes(m);
        let q1 = u32_bytes(m.chunk_size);
        let q2 = q1 + m.data;
        assert(q2 == e) by {
            reveal(particle_emitter_chunk_bytes);
        }
        lemma_u32_bytes(m.chunk_size);
        lemma_split(b, pos, q1, m.data);
        assert(b.subrange(pos, pos + 4) == u32_bytes(m.chunk_size));
        assert(u32_at(b, pos) == m.chunk_size);
        assert(parse_particle_emitter_chunk(b, pos) == Ok::<(ParticleEmitterChunkModel, int), FormatError>((m, pos + e.len()))) by {
            reveal(parse_particle_emitter_chunk);
        }
    }

    fn decode(src: &[u8], pos: usize) -> (r: Result<(ParticleEmitterChunk, usize), FormatError>) {
        proof {
            reveal(parse_particle_emitter_chunk);
        }
        let mut p: usize = pos;
        if src.len() - p < 4 {
            return Err(FormatError::OutOfBounds);
        }
        let chunk_size = read_u32(src, p);
        p = p + 4;
        if src.len() - p < chunk_size as usize {
            return Err(FormatError::OutOfBounds);
        }
        let data = slice_to_vec(&src[p..p + chunk_size as usize]);
        p = p + chunk_size as usize;
        let v = ParticleEmitterChunk { chunk_size, data };
        Ok((v, p))
    }

    fn encode(&self, out: &mut Vec<u8>) -> (r: Result<(), FormatError>) {
        proof {
            reveal(particle_emitter_chunk_bytes);
        }
        let ghost start = out@;
        write_u32(out, self.chunk_size);
        let ghost mut acc = u32_bytes(self@.chunk_size);
        assert(out@ =~= start + acc);
        write_raw(out, &self.data);
        proof {
            acc = acc + self@.data;
        }
        assert(out@ =~= start + acc);
        assert(acc == particle_emitter_chunk_bytes(self@));
        Ok(())
    }

}

impl BytesTotalSize for ParticleEmitterChunk {
    open spec fn model_bytes(m: ParticleEmitterChunkModel) -> Seq<u8> {
        particle_emitter_chunk_bytes(m)
    }

    fn total_bytes_size(&self) -> (r: usize) {
        proof {
            reveal(particle_emitter_chunk_bytes);
        }
        let mut r: usize = 0;
        let ghost mut acc: Seq<u8> = Seq::empty();
        let k: usize = 4;
        proof {
            lemma_u32_bytes(self.chunk_size);
            lemma_sat_add(acc.len() as int, (u32_bytes(self@.chunk_size)).len() as int);
            acc = acc + u32_bytes(self@.chunk_size);
        }
        r = add_sat(r, k);
        let k: usize = self.data.len();
        proof {
            lemma_sat_add(acc.len() as int, (self@.data).len() as int);
            acc = acc + self@.data;
        }
        r = add_sat(r, k);
        assert(acc =~= particle_emitter_chunk_bytes(self@));
        r
    }
}

/// `m` with `chunk_size` set to the encoded length without the size field itself.
pub open spec fn particle_emitter_chunk_sized(m: ParticleEmitterChunkModel) -> ParticleEmitterChunkModel {
    ParticleEmitterChunkModel {
        chunk_size: (particle_emitter_chunk_bytes(m).len() - 4) as u32,
        ..m
    }
}

impl Chunk for ParticleEmitterChunk {
    open spec fn sized(m: ParticleEmitterChunkModel) -> ParticleEmitterChunkModel {
        particle_emitter_chunk_sized(m)
    }

    open spec fn chunk_size_of(m: ParticleEmitterChunkModel) -> u32 {
        m.chunk_size
    }

    proof fn lemma_sized_id(m: ParticleEmitterChunkModel) {
    }

    proof fn lemma_chunk_min_len(m: ParticleEmitterChunkModel) {
        reveal(particle_emitter_chunk_bytes);
        lemma_u32_bytes(m.chunk_size);
    }

    fn calculate_chunk_size(&mut self) {
        let n = self.total_bytes_size();
        self.chunk_size = (n - 4) as u32;
        proof {
            reveal(particle_emitter_chunk_bytes);
            lemma_u32_bytes(old(self).chunk_size);
            lemma_u32_bytes(self.chunk_size);
        }
    }
}

/// Second-generation particle emitters, carried as raw bytes.
#[derive(PartialEq, Debug)]
pub struct ParticleEmitter2Chunk {
    pub chunk_size: u32,
    pub data: Vec<u8>,
}

/// The mathematical content of a `ParticleEmitter2Chunk`.
pub struct ParticleEmitter2ChunkModel {
    pub chunk_size: u32,
    pub data: Seq<u8>,
}

impl View for ParticleEmitter2Chunk {
    type V = ParticleEmitter2ChunkModel;

    open spec fn view(&self) -> ParticleEmitter2ChunkModel {
        ParticleEmitter2ChunkModel {
            chunk_size: self.chunk_size,
            data: self.data@,
        }
    }
}

/// The bytes that encoding a `ParticleEmitter2Chunk` writes.
#[verifier::opaque]
pub open spec fn particle_emitter2_chunk_bytes(m: ParticleEmitter2ChunkModel) -> Seq<u8> {
    u32_bytes(m.chunk_size)
    + m.data
}

pub open spec fn particle_emitter2_chunk_encodable(m: ParticleEmitter2ChunkModel) -> bool {
    true
}

/// A `ParticleEmitter2Chunk` that decoding its encoding gives back.
pub open spec fn particle_emitter2_chunk_wf(m: ParticleEmitter2ChunkModel) -> bool {
    &&& m.chunk_size + 4 == particle_emitter2_chunk_bytes(m).len()
}

/// Decoding a `ParticleEmitter2Chunk` at `pos`: its model and the position after it.
#[verifier::opaque]
pub open spec fn parse_particle_emitter2_chunk(b: Seq<u8>, pos: int) -> Result<(ParticleEmitter2ChunkModel, int), FormatError> {
    if pos + 4 > b.len() {
        Err(FormatError::OutOfBounds)
    } else {
        if pos + 4 + u32_at(b, pos) as int > b.len() {
            Err(FormatError::OutOfBounds)
        } else {
            let m = ParticleEmitter2ChunkModel {
                chunk_size: u32_at(b, pos),
                data: b.subrange(pos + 4, pos + 4 + u32_at(b, pos) as int),
            };
            Ok((m, pos + 4 + u32_at(b, pos) as int))
        }
    }
}

/// `m` with every declared size inside it recomputed from the content.
pub open spec fn particle_emitter2_chunk_resized(m: ParticleEmitter2ChunkModel) -> ParticleEmitter2ChunkModel {
    m
}

impl Record for ParticleEmitter2Chunk {
    open spec fn parse(b: Seq<u8>, pos: int) -> Result<(ParticleEmitter2ChunkModel, int), FormatError> {
        parse_particle_emitter2_chunk(b, pos)
    }

    open spec fn encodable(m: ParticleEmitter2ChunkModel) -> bool {
        particle_emitter2_chunk_encodable(m)
    }

    open spec fn wf(m: ParticleEmitter2ChunkModel) -> bool {
        particle_emitter2_chunk_wf(m)
    }

    open spec fn resized(m: ParticleEmitter2ChunkModel) -> ParticleEmitter2ChunkModel {
        particle_emitter2_chunk_resized(m)
    }

    fn calculate_sizes(&mut self) {
    }

    proof fn lemma_resized(m: ParticleEmitter2ChunkModel) {
    }

    proof fn lemma_wf_encodable(m: ParticleEmitter2ChunkModel) {
    }

    proof fn lemma_round_trip(m: ParticleEmitter2ChunkModel, b: Seq<u8>, pos: int) {
        let e = particle_emitter2_chunk_bytes(m);
        let q1 = u32_bytes(m.chunk_size);
        let q2 = q1 + m.data;
        assert(q2 == e) by {
            reveal(particle_emitter2_chunk_bytes);
        }
        lemma_u32_bytes(m.chunk_size);
        lemma_split(b, pos, q1, m.data);
        assert(b.subrange(pos, pos + 4) == u32_bytes(m.chunk_size));
        assert(u32_at(b, pos) == m.chunk_size);
        assert(parse_particle_emitter2_chunk(b, pos) == Ok::<(ParticleEmitter2ChunkModel, int), FormatError>((m, pos + e.len()))) by {
            reveal(parse_particle_emitter2_chunk);
        }
    }

    fn decode(src: &[u8], pos: usize) -> (r: Result<(ParticleEmitter2Chunk, usize), FormatError>) {
        proof {
            reveal(parse_particle_emitter2_chunk);
        }
        let mut p: usize = pos;
        if src.len() - p < 4 {
            return Err(FormatError::OutOfBounds);
        }
        let chunk_size = read_u32(src, p);
        p = p + 4;
        if src.len() - p < chunk_size as usize {
            return Err(FormatError::OutOfBounds);
        }
        let data = slice_to_vec(&src[p..p + chunk_size as usize]);
        p = p + chunk_size as usize;
        let v = ParticleEmitter2Chunk { chunk_size, data };
        Ok((v, p))
    }

    fn encode(&self, out: &mut Vec<u8>) -> (r: Result<(), FormatError>) {
        proof {
            reveal(particle_emitter2_chunk_bytes);
        }
        let ghost start = out@;
        write_u32(out, self.chunk_size);
        let ghost mut acc = u32_bytes(self@.chunk_size);
        assert(out@ =~= start + acc);
        write_raw(out, &self.data);
        proof {
            acc = acc + self@.data;
        }
        assert(out@ =~= start + acc);
        assert(acc == particle_emitter2_chunk_bytes(self@));
        Ok(())
    }

}

impl BytesTotalSize for ParticleEmitter2Chunk {
    open spec fn model_bytes(m: ParticleEmitter2ChunkModel) -> Seq<u8> {
        particle_emitter2_chunk_bytes(m)
    }

    fn total_bytes_size(&self) -> (r: usize) {
        proof {
            reveal(particle_emitter2_chunk_bytes);
        }
        let mut r: usize = 0;
        let ghost mut acc: Seq<u8> = Seq::empty();
        let k: usize = 4;
        proof {
            lemma_u32_bytes(self.chunk_size);
            lemma_sat_add(acc.len() as int, (u32_bytes(self@.chunk_size)).len() as int);
            acc = acc + u32_bytes(self@.chunk_size);
        }
        r = add_sat(r, k);
        let k: usize = self.data.len();
        proof {
            lemma_sat_add(acc.len() as int, (self@.data).len() as int);
            acc = acc + self@.data;
        }
        r = add_sat(r, k);
        assert(acc =~= particle_emitter2_chunk_bytes(self@));
        r
    }
}

/// `m` with `chunk_size` set to the encoded length without the size field itself.
pub open spec fn particle_emitter2_chunk_sized(m: ParticleEmitter2ChunkModel) -> ParticleEmitter2ChunkModel {
    ParticleEmitter2ChunkModel {
        chunk_size: (particle_emitter2_chunk_bytes(m).len() - 4) as u32,
        ..m
    }
}

impl Chunk for ParticleEmitter2Chunk {
    open spec fn sized(m: ParticleEmitter2ChunkModel) -> ParticleEmitter2ChunkModel {
        particle_emitter2_chunk_sized(m)
    }

    open spec fn chunk_size_of(m: ParticleEmitter2ChunkModel) -> u32 {
        m.chunk_size
    }

    proof fn lemma_sized_id(m: ParticleEmitter2ChunkModel) {
    }

    proof fn lemma_chunk_min_len(m: ParticleEmitter2ChunkModel) {
        reveal(particle_emitter2_chunk_bytes);
        lemma_u32_bytes(m.chunk_size);
    }

    fn calculate_chunk_size(&mut self) {
        let n = self.total_bytes_size();
        self.chunk_size = (n - 4) as u32;
        proof {
            reveal(particle_emitter2_chunk_bytes);
            lemma_u32_bytes(old(self).chunk_size);
            lemma_u32_bytes(self.chunk_size);
        }
    }
}

/// Ribbon emitters, carried as raw bytes.
#[derive(PartialEq, Debug)]
pub struct RibbonEmitterChunk {
    pub chunk_size: u32,
    pub data: Vec<u8>,
}

/// The mathematical content of a `RibbonEmitterChunk`.
pub struct RibbonEmitterChunkModel {
    pub chunk_size: u32,
    pub data: Seq<u8>,
}

impl View for RibbonEmitterChunk {
    type V = RibbonEmitterChunkModel;

    open spec fn view(&self) -> RibbonEmitterChunkModel {
        RibbonEmitterChunkModel {
            chunk_size: self.chunk_size,
            data: self.data@,
        }
    }
}

/// The bytes that encoding a `RibbonEmitterChunk` writes.
#[verifier::opaque]
pub open spec fn ribbon_emitter_chunk_bytes(m: RibbonEmitterChunkModel) -> Seq<u8> {
    u32_bytes(m.chunk_size)
    + m.data
}

pub open spec fn ribbon_emitter_chunk_encodable(m: RibbonEmitterChunkModel) -> bool {
    true
}

/// A `RibbonEmitterChunk` that decoding its encoding gives back.
pub open spec fn ribbon_emitter_chunk_wf(m: RibbonEmitterChunkModel) -> bool {
    &&& m.chunk_size + 4 == ribbon_emitter_chunk_bytes(m).len()
}

/// Decoding a `RibbonEmitterChunk` at `pos`: its model and the position after it.
#[verifier::opaque]
pub open spec fn parse_ribbon_emitter_chunk(b: Seq<u8>, pos: int) -> Result<(RibbonEmitterChunkModel, int), FormatError> {
    if pos + 4 > b.len() {
        Err(FormatError::OutOfBounds)
    } else {
        if pos + 4 + u32_at(b, pos) as int > b.len() {
            Err(FormatError::OutOfBounds)
        } else {
            let m = RibbonEmitterChunkModel {
                chunk_size: u32_at(b, pos),
                data: b.subrange(pos + 4, pos + 4 + u32_at(b, pos) as int),
            };
            Ok((m, pos + 4 + u32_at(b, pos) as int))
        }
    }
}

/// `m` with every declared size inside it recomputed from the content.
pub open spec fn ribbon_emitter_chunk_resized(m: RibbonEmitterChunkModel) -> RibbonEmitterChunkModel {
    m
}

impl Record for RibbonEmitterChunk {
    open spec fn parse(b: Seq<u8>, pos: int) -> Result<(RibbonEmitterChunkModel, int), FormatError> {
        parse_ribbon_emitter_chunk(b, pos)
    }

    open spec fn encodable(m: RibbonEmitterChunkModel) -> bool {
        ribbon_emitter_chunk_encodable(m)
    }

    open spec fn wf(m: RibbonEmitterChunkModel) -> bool {
        ribbon_emitter_chunk_wf(m)
    }

    open spec fn resized(m: RibbonEmitterChunkModel) -> RibbonEmitterChunkModel {
        ribbon_emitter_chunk_resized(m)
    }

    fn calculate_sizes(&mut self) {
    }

    proof fn lemma_resized(m: RibbonEmitterChunkModel) {
    }

    proof fn lemma_wf_encodable(m: RibbonEmitterChunkModel) {
    }

    proof fn lemma_round_trip(m: RibbonEmitterChunkModel, b: Seq<u8>, pos: int) {
        let e = ribbon_emitter_chunk_bytes(m);
        let q1 = u32_bytes(m.chunk_size);
        let q2 = q1 + m.data;
        assert(q2 == e) by {
            reveal(ribbon_emitter_chunk_bytes);
        }
        lemma_u32_bytes(m.chunk_size);
        lemma_split(b, pos, q1, m.data);
        assert(b.subrange(pos, pos + 4) == u32_bytes(m.chunk_size));
        assert(u32_at(b, pos) == m.chunk_size);
        assert(parse_ribbon_emitter_chunk(b, pos) == Ok::<(RibbonEmitterChunkModel, int), FormatError>((m, pos + e.len()))) by {
            reveal(parse_ribbon_emitter_chunk);
        }
    }

    fn decode(src: &[u8], pos: usize) -> (r: Result<(RibbonEmitterChunk, usize), FormatError>) {
        proof {
            reveal(parse_ribbon_emitter_chunk);
        }
        let mut p: usize = pos;
        if src.len() - p < 4 {
            return Err(FormatError::OutOfBounds);
        }
        let chunk_size = read_u32(src, p);
        p = p + 4;
        if src.len() - p < chunk_size as usize {
            return Err(FormatError::OutOfBounds);
        }
        let data = slice_to_vec(&src[p..p + chunk_size as usize]);
        p = p + chunk_size as usize;
        let v = RibbonEmitterChunk { chunk_size, data };
        Ok((v, p))
    }

    fn encode(&self, out: &mut Vec<u8>) -> (r: Result<(), FormatError>) {
        proof {
            reveal(ribbon_emitter_chunk_bytes);
        }
        let ghost start = out@;
        write_u32(out, self.chunk_size);
        let ghost mut acc = u32_bytes(self@.chunk_size);
        assert(out@ =~= start + acc);
        write_raw(out, &self.data);
        proof {
            acc = acc + self@.data;
        }
        assert(out@ =~= start + acc);
        assert(acc == ribbon_emitter_chunk_bytes(self@));
        Ok(())
    }

}

impl BytesTotalSize for RibbonEmitterChunk {
    open spec fn model_bytes(m: RibbonEmitterChunkModel) -> Seq<u8> {
        ribbon_emitter_chunk_bytes(m)
    }

    fn total_bytes_size(&self) -> (r: usize) {
        proof {
            reveal(ribbon_emitter_chunk_bytes);
        }
        let mut r: usize = 0;
        let ghost mut acc: Seq<u8> = Seq::empty();
        let k: usize = 4;
        proof {
            lemma_u32_bytes(self.chunk_size);
            lemma_sat_add(acc.len() as int, (u32_bytes(self@.chunk_size)).len() as int);
            acc = acc + u32_bytes(self@.chunk_size);
        }
        r = add_sat(r, k);
        let k: usize = self.data.len();
        proof {
            lemma_sat_add(acc.len() as int, (self@.data).len() as int);
            acc = acc + self@.data;
        }
        r = add_sat(r, k);
        assert(acc =~= ribbon_emitter_chunk_bytes(self@));
        r
    }
}

/// `m` with `chunk_size` set to the encoded length without the size field itself.
pub open spec fn ribbon_emitter_chunk_sized(m: RibbonEmitterChunkModel) -> RibbonEmitterChunkModel {
    RibbonEmitterChunkModel { chunk_size: (ribbon_emitter_chunk_bytes(m).len() - 4) as u32, ..m }
}

impl Chunk for RibbonEmitterChunk {
    open spec fn sized(m: RibbonEmitterChunkModel) -> RibbonEmitterChunkModel {
        ribbon_emitter_chunk_sized(m)
    }

    open spec fn chunk_size_of(m: RibbonEmitterChunkModel) -> u32 {
        m.chunk_size
    }

    proof fn lemma_sized_id(m: RibbonEmitterChunkModel) {
    }

    proof fn lemma_chunk_min_len(m: RibbonEmitterChunkModel) {
        reveal(ribbon_emitter_chunk_bytes);
        lemma_u32_bytes(m.chunk_size);
    }

    fn calculate_chunk_size(&mut self) {
        let n = self.total_bytes_size();
        self.chunk_size = (n - 4) as u32;
        proof {
            reveal(ribbon_emitter_chunk_bytes);
            lemma_u32_bytes(old(self).chunk_size);
            lemma_u32_bytes(self.chunk_size);
        }
    }
}

/// Event objects, carried as raw bytes.
#[derive(PartialEq, Debug)]
pub struct EventObjectChunk {
    pub chunk_size: u32,
    pub data: Vec<u8>,
}

/// The mathematical content of a `EventObjectChunk`.
pub struct EventObjectChunkModel {
    pub chunk_size: u32,
    pub data: Seq<u8>,
}

impl View for EventObjectChunk {
    type V = EventObjectChunkModel;

    open spec fn view(&self) -> EventObjectChunkModel {
        EventObjectChunkModel {
            chunk_size: self.chunk_size,
            data: self.data@,
        }
    }
}

/// The bytes that encoding a `EventObjectChunk` writes.
#[verifier::opaque]
pub open spec fn event_object_chunk_bytes(m: EventObjectChunkModel) -> Seq<u8> {
    u32_bytes(m.chunk_size)
    + m.data
}

pub open spec fn event_object_chunk_encodable(m: EventObjectChunkModel) -> bool {
    true
}

/// A `EventObjectChunk` that decoding its encoding gives back.
pub open spec fn event_object_chunk_wf(m: EventObjectChunkModel) -> bool {
    &&& m.chunk_size + 4 == event_object_chunk_bytes(m).len()
}

/// Decoding a `EventObjectChunk` at `pos`: its model and the position after it.
#[verifier::opaque]
pub open spec fn parse_event_object_chunk(b: Seq<u8>, pos: int) -> Result<(EventObjectChunkModel, int), FormatError> {
    if pos + 4 > b.len() {
        Err(FormatError::OutOfBounds)
    } else {
        if pos + 4 + u32_at(b, pos) as int > b.len() {
            Err(FormatError::OutOfBounds)
        } else {
            let m = EventObjectChunkModel {
                chunk_size: u32_at(b, pos),
                data: b.subrange(pos + 4, pos + 4 + u32_at(b, pos) as int),
            };
            Ok((m, pos + 4 + u32_at(b, pos) as int))
        }
    }
}

/// `m` with every declared size inside it recomputed from the content.
pub open spec fn event_object_chunk_resized(m: EventObjectChunkModel) -> EventObjectChunkModel {
    m
}

impl Record for EventObjectChunk {
    open spec fn parse(b: Seq<u8>, pos: int) -> Result<(EventObjectChunkModel, int), FormatError> {
        parse_event_object_chunk(b, pos)
    }

    open spec fn encodable(m: EventObjectChunkModel) -> bool {
        event_object_chunk_encodable(m)
    }

    open spec fn wf(m: EventObjectChunkModel) -> bool {
        event_object_chunk_wf(m)
    }

    open spec fn resized(m: EventObjectChunkModel) -> EventObjectChunkModel {
        event_object_chunk_resized(m)
    }

    fn calculate_sizes(&mut self) {
    }

    proof fn lemma_resized(m: EventObjectChunkModel) {
    }

    proof fn lemma_wf_encodable(m: EventObjectChunkModel) {
    }

    proof fn lemma_round_trip(m: EventObjectChunkModel, b: Seq<u8>, pos: int) {
        let e = event_object_chunk_bytes(m);
        let q1 = u32_bytes(m.chunk_size);
        let q2 = q1 + m.data;
        assert(q2 == e) by {
            reveal(event_object_chunk_bytes);
        }
        lemma_u32_bytes(m.chunk_size);
        lemma_split(b, pos, q1, m.data);
        assert(b.subrange(pos, pos + 4) == u32_bytes(m.chunk_size));
        assert(u32_at(b, pos) == m.chunk_size);
        assert(parse_event_object_chunk(b, pos) == Ok::<(EventObjectChunkModel, int), FormatError>((m, pos + e.len()))) by {
            reveal(parse_event_object_chunk);
        }
    }

    fn decode(src: &[u8], pos: usize) -> (r: Result<(EventObjectChunk, usize), FormatError>) {
        proof {
            reveal(parse_event_object_chunk);
        }
        let mut p: usize = pos;
        if src.len() - p < 4 {
            return Err(FormatError::OutOfBounds);
        }
        let chunk_size = read_u32(src, p);
        p = p + 4;
        if src.len() - p < chunk_size as usize {
            return Err(FormatError::OutOfBounds);
        }
        let data = slice_to_vec(&src[p..p + chunk_size as usize]);
        p = p + chunk_size as usize;
        let v = EventObjectChunk { chunk_size, data };
        Ok((v, p))
    }

    fn encode(&self, out: &mut Vec<u8>) -> (r: Result<(), FormatError>) {
        proof {
            reveal(event_object_chunk_bytes);
        }
        let ghost start = out@;
        write_u32(out, self.chunk_size);
        let ghost mut acc = u32_bytes(self@.chunk_size);
        assert(out@ =~= start + acc);
        write_raw(out, &self.data);
        proof {
            acc = acc + self@.data;
        }
        assert(out@ =~= start + acc);
        assert(acc == event_object_chunk_bytes(self@));
        Ok(())
    }

}

impl BytesTotalSize for EventObjectChunk {
    open spec fn model_bytes(m: EventObjectChunkModel) -> Seq<u8> {
        event_object_chunk_bytes(m)
    }

    fn total_bytes_size(&self) -> (r: usize) {
        proof {
            reveal(event_object_chunk_bytes);
        }
        let mut r: usize = 0;
        let ghost mut acc: Seq<u8> = Seq::empty();
        let k: usize = 4;
        proof {
            lemma_u32_bytes(self.chunk_size);
            lemma_sat_add(acc.len() as int, (u32_bytes(self@.chunk_size)).len() as int);
            acc = acc + u32_bytes(self@.chunk_size);
        }
        r = add_sat(r, k);
        let k: usize = self.data.len();
        proof {
            lemma_sat_add(acc.len() as int, (self@.data).len() as int);
            acc = acc + self@.data;
        }
        r = add_sat(r, k);
        assert(acc =~= event_object_chunk_bytes(self@));
        r
    }
}

/// `m` with `chunk_size` set to the encoded length without the size field itself.
pub open spec fn event_object_chunk_sized(m: EventObjectChunkModel) -> EventObjectChunkModel {
    EventObjectChunkModel { chunk_size: (event_object_chunk_bytes(m).len() - 4) as u32, ..m }
}

impl Chunk for EventObjectChunk {
    open spec fn sized(m: EventObjectChunkModel) -> EventObjectChunkModel {
        event_object_chunk_sized(m)
    }

    open spec fn chunk_size_of(m: EventObjectChunkModel) -> u32 {
        m.chunk_size
    }

    proof fn lemma_sized_id(m: EventObjectChunkModel) {
    }

    proof fn lemma_chunk_min_len(m: EventObjectChunkModel) {
        reveal(event_object_chunk_bytes);
        lemma_u32_bytes(m.chunk_size);
    }

    fn calculate_chunk_size(&mut self) {
        let n = self.total_bytes_size();
        self.chunk_size = (n - 4) as u32;
        proof {
            reveal(event_object_chunk_bytes);
            lemma_u32_bytes(old(self).chunk_size);
            lemma_u32_bytes(self.chunk_size);
        }
    }
}

/// Collision shapes, carried as raw bytes.
#[derive(PartialEq, Debug)]
pub struct CollisionShapeChunk {
    pub chunk_size: u32,
    pub data: Vec<u8>,
}

/// The mathematical content of a `CollisionShapeChunk`.
pub struct CollisionShapeChunkModel {
    pub chunk_size: u32,
    pub data: Seq<u8>,
}

impl View for CollisionShapeChunk {
    type V = CollisionShapeChunkModel;

    open spec fn view(&self) -> CollisionShapeChunkModel {
        CollisionShapeChunkModel {
            chunk_size: self.chunk_size,
            data: self.data@,
        }
    }
}

/// The bytes that encoding a `CollisionShapeChunk` writes.
#[verifier::opaque]
pub open spec fn collision_shape_chunk_bytes(m: CollisionShapeChunkModel) -> Seq<u8> {
    u32_bytes(m.chunk_size)
    + m.data
}

pub open spec fn collision_shape_chunk_encodable(m: CollisionShapeChunkModel) -> bool {
    true
}

/// A `CollisionShapeChunk` that decoding its encoding gives back.
pub open spec fn collision_shape_chunk_wf(m: CollisionShapeChunkModel) -> bool {
    &&& m.chunk_size + 4 == collision_shape_chunk_bytes(m).len()
}

/// Decoding a `CollisionShapeChunk` at `pos`: its model and the position after it.
#[verifier::opaque]
pub open spec fn parse_collision_shape_chunk(b: Seq<u8>, pos: int) -> Result<(CollisionShapeChunkModel, int), FormatError> {
    if pos + 4 > b.len() {
        Err(FormatError::OutOfBounds)
    } else {
        if pos + 4 + u32_at(b, pos) as int > b.len() {
            Err(FormatError::OutOfBounds)
        } else {
            let m = CollisionShapeChunkModel {
                chunk_size: u32_at(b, pos),
                data: b.subrange(pos + 4, pos + 4 + u32_at(b, pos) as int),
            };
            Ok((m, pos + 4 + u32_at(b, pos) as int))
        }
    }
}

/// `m` with every declared size inside it recomputed from the content.
pub open spec fn collision_shape_chunk_resized(m: CollisionShapeChunkModel) -> CollisionShapeChunkModel {
    m
}

impl Record for CollisionShapeChunk {
    open spec fn parse(b: Seq<u8>, pos: int) -> Result<(CollisionShapeChunkModel, int), FormatError> {
        parse_collision_shape_chunk(b, pos)
    }

    open spec fn encodable(m: CollisionShapeChunkModel) -> bool {
        collision_shape_chunk_encodable(m)
    }

    open spec fn wf(m: CollisionShapeChunkModel) -> bool {
        collision_shape_chunk_wf(m)
    }

    open spec fn resized(m: CollisionShapeChunkModel) -> CollisionShapeChunkModel {
        collision_shape_chunk_resized(m)
    }

    fn calculate_sizes(&mut self) {
    }

    proof fn lemma_resized(m: CollisionShapeChunkModel) {
    }

    proof fn lemma_wf_encodable(m: CollisionShapeChunkModel) {
    }

    proof fn lemma_round_trip(m: CollisionShapeChunkModel, b: Seq<u8>, pos: int) {
        let e = collision_shape_chunk_bytes(m);
        let q1 = u32_bytes(m.chunk_size);
        let q2 = q1 + m.data;
        assert(q2 == e) by {
            reveal(collision_shape_chunk_bytes);
        }
        lemma_u32_bytes(m.chunk_size);
        lemma_split(b, pos, q1, m.data);
        assert(b.subrange(pos, pos + 4) == u32_bytes(m.chunk_size));
        assert(u32_at(b, pos) == m.chunk_size);
        assert(parse_collision_shape_chunk(b, pos) == Ok::<(CollisionShapeChunkModel, int), FormatError>((m, pos + e.len()))) by {
            reveal(parse_collision_shape_chunk);
        }
    }

    fn decode(src: &[u8], pos: usize) -> (r: Result<(CollisionShapeChunk, usize), FormatError>) {
        proof {
            reveal(parse_collision_shape_chunk);
        }
        let mut p: usize = pos;
        if src.len() - p < 4 {
            return Err(FormatError::OutOfBounds);
        }
        let chunk_size = read_u32(src, p);
        p = p + 4;
        if src.len() - p < chunk_size as usize {
            return Err(FormatError::OutOfBounds);
        }
        let data = slice_to_vec(&src[p..p + chunk_size as usize]);
        p = p + chunk_size as usize;
        let v = CollisionShapeChunk { chunk_size, data };
        Ok((v, p))
    }

    fn encode(&self, out: &mut Vec<u8>) -> (r: Result<(), FormatError>) {
        proof {
            reveal(collision_shape_chunk_bytes);
        }
        let ghost start = out@;
        write_u32(out, self.chunk_size);
        let ghost mut acc = u32_bytes(self@.chunk_size);
        assert(out@ =~= start + acc);
        write_raw(out, &self.data);
        proof {
            acc = acc + self@.data;
        }
        assert(out@ =~= start + acc);
        assert(acc == collision_shape_chunk_bytes(self@));
        Ok(())
    }

}

impl BytesTotalSize for CollisionShapeChunk {
    open spec fn model_bytes(m: CollisionShapeChunkModel) -> Seq<u8> {
        collision_shape_chunk_bytes(m)
    }

    fn total_bytes_size(&self) -> (r: usize) {
        proof {
            reveal(collision_shape_chunk_bytes);
        }
        let mut r: usize = 0;
        let ghost mut acc: Seq<u8> = Seq::empty();
        let k: usize = 4;
        proof {
            lemma_u32_bytes(self.chunk_size);
            lemma_sat_add(acc.len() as int, (u32_bytes(self@.chunk_size)).len() as int);
            acc = acc + u32_bytes(self@.chunk_size);
        }
        r = add_sat(r, k);
        let k: usize = self.data.len();
        proof {
            lemma_sat_add(acc.len() as int, (self@.data).len() as int);
            acc = acc + self@.data;
        }
        r = add_sat(r, k);
        assert(acc =~= collision_shape_chunk_bytes(self@));
        r
    }
}

/// `m` with `chunk_size` set to the encoded length without the size field itself.
pub open spec fn collision_shape_chunk_sized(m: CollisionShapeChunkModel) -> CollisionShapeChunkModel {
    CollisionShapeChunkModel { chunk_size: (collision_shape_chunk_bytes(m).len() - 4) as u32, ..m }
}

impl Chunk for CollisionShapeChunk {
    open spec fn sized(m: CollisionShapeChunkModel) -> CollisionShapeChunkModel {
        collision_shape_chunk_sized(m)
    }

    open spec fn chunk_size_of(m: CollisionShapeChunkModel) -> u32 {
        m.chunk_size
    }

    proof fn lemma_sized_id(m: CollisionShapeChunkModel) {
    }

    proof fn lemma_chunk_min_len(m: CollisionShapeChunkModel) {
        reveal(collision_shape_chunk_bytes);
        lemma_u32_bytes(m.chunk_size);
    }

    fn calculate_chunk_size(&mut self) {
        let n = self.total_bytes_size();
        self.chunk_size = (n - 4) as u32;
        proof {
            reveal(collision_shape_chunk_bytes);
            lemma_u32_bytes(old(self).chunk_size);
            lemma_u32_bytes(self.chunk_size);
        }
    }
}

/// Materials, carried as raw bytes.
#[derive(PartialEq, Debug)]
pub struct MaterialChunk {
    pub chunk_size: u32,
    pub data: Vec<u8>,
}

/// The mathematical content of a `MaterialChunk`.
pub struct MaterialChunkModel {
    pub chunk_size: u32,
    pub data: Seq<u8>,
}

impl View for MaterialChunk {
    type V = MaterialChunkModel;

    open spec fn view(&self) -> MaterialChunkModel {
        MaterialChunkModel {
            chunk_size: self.chunk_size,
            data: self.data@,
        }
    }
}

/// The bytes that encoding a `MaterialChunk` writes.
#[verifier::opaque]
pub open spec fn material_chunk_bytes(m: MaterialChunkModel) -> Seq<u8> {
    u32_bytes(m.chunk_size)
    + m.data
}

pub open spec fn material_chunk_encodable(m: MaterialChunkModel) -> bool {
    true
}

/// A `MaterialChunk` that decoding its encoding gives back.
pub open spec fn material_chunk_wf(m: MaterialChunkModel) -> bool {
    &&& m.chunk_size + 4 == material_chunk_bytes(m).len()
}

/// Decoding a `MaterialChunk` at `pos`: its model and the position after it.
#[verifier::opaque]
pub open spec fn parse_material_chunk(b: Seq<u8>, pos: int) -> Result<(MaterialChunkModel, int), FormatError> {
    if pos + 4 > b.len() {
        Err(FormatError::OutOfBounds)
    } else {
        if pos + 4 + u32_at(b, pos) as int > b.len() {
            Err(FormatError::OutOfBounds)
        } else {
            let m = MaterialChunkModel {
                chunk_size: u32_at(b, pos),
                data: b.subrange(pos + 4, pos + 4 + u32_at(b, pos) as int),
            };
            Ok((m, pos + 4 + u32_at(b, pos) as int))
        }
    }
}

/// `m` with every declared size inside it recomputed from the content.
pub open spec fn material_chunk_resized(m: MaterialChunkModel) -> MaterialChunkModel {
    m
}

impl Record for MaterialChunk {
    open spec fn parse(b: Seq<u8>, pos: int) -> Result<(MaterialChunkModel, int), FormatError> {
        parse_material_chunk(b, pos)
    }

    open spec fn encodable(m: MaterialChunkModel) -> bool {
        material_chunk_encodable(m)
    }

    open spec fn wf(m: MaterialChunkModel) -> bool {
        material_chunk_wf(m)
    }

    open spec fn resized(m: MaterialChunkModel) -> MaterialChunkModel {
        material_chunk_resized(m)
    }

    fn calculate_sizes(&mut self) {
    }

    proof fn lemma_resized(m: MaterialChunkModel) {
    }

    proof fn lemma_wf_encodable(m: MaterialChunkModel) {
    }

    proof fn lemma_round_trip(m: MaterialChunkModel, b: Seq<u8>, pos: int) {
        let e = material_chunk_bytes(m);
        let q1 = u32_bytes(m.chunk_size);
        let q2 = q1 + m.data;
        assert(q2 == e) by {
            reveal(material_chunk_bytes);
        }
        lemma_u32_bytes(m.chunk_size);
        lemma_split(b, pos, q1, m.data);
        assert(b.subrange(pos, pos + 4) == u32_bytes(m.chunk_size));
        assert(u32_at(b, pos) == m.chunk_size);
        assert(parse_material_chunk(b, pos) == Ok::<(MaterialChunkModel, int), FormatError>((m, pos + e.len()))) by {
            reveal(parse_material_chunk);
        }
    }

    fn decode(src: &[u8], pos: usize) -> (r: Result<(MaterialChunk, usize), FormatError>) {
        proof {
            reveal(parse_material_chunk);
        }
        let mut p: usize = pos;
        if src.len() - p < 4 {
            return Err(FormatError::OutOfBounds);
        }
        let chunk_size = read_u32(src, p);
        p = p + 4;
        if src.len() - p < chunk_size as usize {
            return Err(FormatError::OutOfBounds);
        }
        let data = slice_to_vec(&src[p..p + chunk_size as usize]);
        p = p + chunk_size as usize;
        let v = MaterialChunk { chunk_size, data };
        Ok((v, p))
    }

    fn encode(&self, out: &mut Vec<u8>) -> (r: Result<(), FormatError>) {
        proof {
            reveal(material_chunk_bytes);
        }
        let ghost start = out@;
        write_u32(out, self.chunk_size);
        let ghost mut acc = u32_bytes(self@.chunk_size);
        assert(out@ =~= start + acc);
        write_raw(out, &self.data);
        proof {
            acc = acc + self@.data;
        }
        assert(out@ =~= start + acc);
        assert(acc == material_chunk_bytes(self@));
        Ok(())
    }

}

impl BytesTotalSize for MaterialChunk {
    open spec fn model_bytes(m: MaterialChunkModel) -> Seq<u8> {
        material_chunk_bytes(m)
    }

    fn total_bytes_size(&self) -> (r: usize) {
        proof {
            reveal(material_chunk_bytes);
        }
        let mut r: usize = 0;
        let ghost mut acc: Seq<u8> = Seq::empty();
        let k: usize = 4;
        proof {
            lemma_u32_bytes(self.chunk_size);
            lemma_sat_add(acc.len() as int, (u32_bytes(self@.chunk_size)).len() as int);
            acc = acc + u32_bytes(self@.chunk_size);
        }
        r = add_sat(r, k);
        let k: usize = self.data.len();
        proof {
            lemma_sat_add(acc.len() as int, (self@.data).len() as int);
            acc = acc + self@.data;
        }
        r = add_sat(r, k);
        assert(acc =~= material_chunk_bytes(self@));
        r
    }
}

/// `m` with `chunk_size` set to the encoded length without the size field itself.
pub open spec fn material_chunk_sized(m: MaterialChunkModel) -> MaterialChunkModel {
    MaterialChunkModel { chunk_size: (material_chunk_bytes(m).len() - 4) as u32, ..m }
}

impl Chunk for MaterialChunk {
    open spec fn sized(m: MaterialChunkModel) -> MaterialChunkModel {
        material_chunk_sized(m)
    }

    open spec fn chunk_size_of(m: MaterialChunkModel) -> u32 {
        m.chunk_size
    }

    proof fn lemma_sized_id(m: MaterialChunkModel) {
    }

    proof fn lemma_chunk_min_len(m: MaterialChunkModel) {
        reveal(material_chunk_bytes);
        lemma_u32_bytes(m.chunk_size);
    }

    fn calculate_chunk_size(&mut self) {
        let n = self.total_bytes_size();
        self.chunk_size = (n - 4) as u32;
        proof {
            reveal(material_chunk_bytes);
            lemma_u32_bytes(old(self).chunk_size);
            lemma_u32_bytes(self.chunk_size);
        }
    }
}

} // verus!
