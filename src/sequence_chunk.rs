//! Animation sequences.

use crate::codec::{
    Element, add_sat, lemma_sat_add, lemma_split, lemma_text_field_len, lemma_text_round_trip,
    lemma_u32_bytes, parse_text, read_text, read_u32, text_field, text_fits, text_ok, u32_at,
    u32_bytes, write_text, write_u32,
};
use crate::data_types::Extent;
use crate::error::FormatError;
use crate::record::{
    BytesTotalSize, Chunk, Record, lemma_parse_records_len, lemma_records_len_fixed,
    lemma_records_round_trip, lemma_records_wf_encodable, lemma_resized_seq, parse_records,
    read_records, records_bytes, records_encodable, records_size, records_wf, resize_records,
    resized_seq, views, write_records,
};
use vstd::arithmetic::div_mod::lemma_div_by_multiple;
use vstd::prelude::*;

verus! {

broadcast use vstd::seq::group_seq_axioms;

/// An animation sequence: 132 bytes on the wire. Float fields hold IEEE-754 bit patterns.
#[derive(PartialEq, Debug)]
pub struct Sequence {
    pub name: String,
    pub interval_start: u32,
    pub interval_end: u32,
    pub move_speed: u32,
    pub non_looping: u32,
    pub rarity: u32,
    pub unknown: u32,
    pub extent: Extent,
}

/// The mathematical content of a `Sequence`.
pub struct SequenceModel {
    pub name: Seq<char>,
    pub interval_start: u32,
    pub interval_end: u32,
    pub move_speed: u32,
    pub non_looping: u32,
    pub rarity: u32,
    pub unknown: u32,
    pub extent: Extent,
}

impl View for Sequence {
    type V = SequenceModel;

    open spec fn view(&self) -> SequenceModel {
        SequenceModel {
            name: self.name@,
            interval_start: self.interval_start,
            interval_end: self.interval_end,
            move_speed: self.move_speed,
            non_looping: self.non_looping,
            rarity: self.rarity,
            unknown: self.unknown,
            extent: self.extent,
        }
    }
}

/// The bytes that encoding a `Sequence` writes.
#[verifier::opaque]
pub open spec fn sequence_bytes(m: SequenceModel) -> Seq<u8> {
    text_field(m.name, 80)
    + u32_bytes(m.interval_start)
    + u32_bytes(m.interval_end)
    + u32_bytes(m.move_speed)
    + u32_bytes(m.non_looping)
    + u32_bytes(m.rarity)
    + u32_bytes(m.unknown)
    + m.extent.to_bytes()
}

pub open spec fn sequence_encodable(m: SequenceModel) -> bool {
    text_fits(m.name, 80)
}

/// A `Sequence` that decoding its encoding gives back.
pub open spec fn sequence_wf(m: SequenceModel) -> bool {
    &&& text_ok(m.name, 80)
}

/// Decoding a `Sequence` at `pos`: its model and the position after it.
#[verifier::opaque]
pub open spec fn parse_sequence(b: Seq<u8>, pos: int) -> Result<(SequenceModel, int), FormatError> {
    if pos + 132 > b.len() {
        Err(FormatError::OutOfBounds)
    } else {
        match parse_text(b, pos, 80) {
            Err(e) => Err(e),
            Ok(name) => {
                let m = SequenceModel {
                    name: name,
                    interval_start: u32_at(b, pos + 80),
                    interval_end: u32_at(b, pos + 84),
                    move_speed: u32_at(b, pos + 88),
                    non_looping: u32_at(b, pos + 92),
                    rarity: u32_at(b, pos + 96),
                    unknown: u32_at(b, pos + 100),
                    extent: Extent::parse_at(b, pos + 104),
                };
                Ok((m, pos + 132))
            },
        }
    }
}

/// Every `Sequence` takes 132 bytes on the wire.
pub proof fn lemma_sequence_len(m: SequenceModel)
    ensures
        sequence_bytes(m).len() == 132,
{
    reveal(sequence_bytes);
    lemma_text_field_len(m.name, 80);
    lemma_u32_bytes(m.interval_start);
    lemma_u32_bytes(m.interval_end);
    lemma_u32_bytes(m.move_speed);
    lemma_u32_bytes(m.non_looping);
    lemma_u32_bytes(m.rarity);
    lemma_u32_bytes(m.unknown);
    m.extent.lemma_codec(Seq::empty(), 0);
}

/// `m` with every declared size inside it recomputed from the content.
pub open spec fn sequence_resized(m: SequenceModel) -> SequenceModel {
    m
}

impl Record for Sequence {
    open spec fn parse(b: Seq<u8>, pos: int) -> Result<(SequenceModel, int), FormatError> {
        parse_sequence(b, pos)
    }

    open spec fn encodable(m: SequenceModel) -> bool {
        sequence_encodable(m)
    }

    open spec fn wf(m: SequenceModel) -> bool {
        sequence_wf(m)
    }

    open spec fn resized(m: SequenceModel) -> SequenceModel {
        sequence_resized(m)
    }

    fn calculate_sizes(&mut self) {
    }

    proof fn lemma_resized(m: SequenceModel) {
    }

    proof fn lemma_wf_encodable(m: SequenceModel) {
    }

    proof fn lemma_round_trip(m: SequenceModel, b: Seq<u8>, pos: int) {
        let e = sequence_bytes(m);
        let q1 = text_field(m.name, 80);
        let q2 = q1 + u32_bytes(m.interval_start);
        let q3 = q2 + u32_bytes(m.interval_end);
        let q4 = q3 + u32_bytes(m.move_speed);
        let q5 = q4 + u32_bytes(m.non_looping);
        let q6 = q5 + u32_bytes(m.rarity);
        let q7 = q6 + u32_bytes(m.unknown);
        let q8 = q7 + m.extent.to_bytes();
        assert(q8 == e) by {
            reveal(sequence_bytes);
        }
        lemma_text_field_len(m.name, 80);
        lemma_u32_bytes(m.interval_start);
        lemma_u32_bytes(m.interval_end);
        lemma_u32_bytes(m.move_speed);
        lemma_u32_bytes(m.non_looping);
        lemma_u32_bytes(m.rarity);
        lemma_u32_bytes(m.unknown);
        m.extent.lemma_codec(Seq::empty(), 0);
        lemma_split(b, pos, q7, m.extent.to_bytes());
        lemma_split(b, pos, q6, u32_bytes(m.unknown));
        lemma_split(b, pos, q5, u32_bytes(m.rarity));
        lemma_split(b, pos, q4, u32_bytes(m.non_looping));
        lemma_split(b, pos, q3, u32_bytes(m.move_speed));
        lemma_split(b, pos, q2, u32_bytes(m.interval_end));
        lemma_split(b, pos, q1, u32_bytes(m.interval_start));
        lemma_text_round_trip(m.name, 80, b, pos);
        assert(b.subrange(pos + q1.len(), pos + q1.len() + 4) == u32_bytes(m.interval_start));
        assert(u32_at(b, pos + q1.len()) == m.interval_start);
        assert(b.subrange(pos + q2.len(), pos + q2.len() + 4) == u32_bytes(m.interval_end));
        assert(u32_at(b, pos + q2.len()) == m.interval_end);
        assert(b.subrange(pos + q3.len(), pos + q3.len() + 4) == u32_bytes(m.move_speed));
        assert(u32_at(b, pos + q3.len()) == m.move_speed);
        assert(b.subrange(pos + q4.len(), pos + q4.len() + 4) == u32_bytes(m.non_looping));
        assert(u32_at(b, pos + q4.len()) == m.non_looping);
        assert(b.subrange(pos + q5.len(), pos + q5.len() + 4) == u32_bytes(m.rarity));
        assert(u32_at(b, pos + q5.len()) == m.rarity);
        assert(b.subrange(pos + q6.len(), pos + q6.len() + 4) == u32_bytes(m.unknown));
        assert(u32_at(b, pos + q6.len()) == m.unknown);
        assert(b.subrange(pos + q7.len(), pos + q7.len() + 28) == m.extent.to_bytes());
        m.extent.lemma_codec(b, pos + q7.len());
        assert(parse_sequence(b, pos) == Ok::<(SequenceModel, int), FormatError>((m, pos + e.len()))) by {
            reveal(parse_sequence);
        }
    }

    fn decode(src: &[u8], pos: usize) -> (r: Result<(Sequence, usize), FormatError>) {
        proof {
            reveal(parse_sequence);
        }
        let mut p: usize = pos;
        if src.len() - p < 132 {
            return Err(FormatError::OutOfBounds);
        }
        let name = match read_text(src, p, 80) {
            Ok(s) => s,
            Err(e) => {
                return Err(e);
            },
        };
        let interval_start = read_u32(src, p + 80);
        let interval_end = read_u32(src, p + 84);
        let move_speed = read_u32(src, p + 88);
        let non_looping = read_u32(src, p + 92);
        let rarity = read_u32(src, p + 96);
        let unknown = read_u32(src, p + 100);
        let extent = Extent::read_at(src, p + 104);
        p = p + 132;
        let v = Sequence {
            name,
            interval_start,
            interval_end,
            move_speed,
            non_looping,
            rarity,
            unknown,
            extent,
        };
        Ok((v, p))
    }

    fn encode(&self, out: &mut Vec<u8>) -> (r: Result<(), FormatError>) {
        proof {
            reveal(sequence_bytes);
        }
        let ghost start = out@;
        if let Err(e) = write_text(out, &self.name, 80) {
            return Err(e);
        }
        let ghost mut acc = text_field(self@.name, 80);
        assert(out@ =~= start + acc);
        write_u32(out, self.interval_start);
        proof {
            acc = acc + u32_bytes(self@.interval_start);
        }
        assert(out@ =~= start + acc);
        write_u32(out, self.interval_end);
        proof {
            acc = acc + u32_bytes(self@.interval_end);
        }
        assert(out@ =~= start + acc);
        write_u32(out, self.move_speed);
        proof {
            acc = acc + u32_bytes(self@.move_speed);
        }
        assert(out@ =~= start + acc);
        write_u32(out, self.non_looping);
        proof {
            acc = acc + u32_bytes(self@.non_looping);
        }
        assert(out@ =~= start + acc);
        write_u32(out, self.rarity);
        proof {
            acc = acc + u32_bytes(self@.rarity);
        }
        assert(out@ =~= start + acc);
        write_u32(out, self.unknown);
        proof {
            acc = acc + u32_bytes(self@.unknown);
        }
        assert(out@ =~= start + acc);
        self.extent.write_to(out);
        proof {
            acc = acc + self@.extent.to_bytes();
        }
        assert(out@ =~= start + acc);
        assert(acc == sequence_bytes(self@));
        Ok(())
    }

}

impl BytesTotalSize for Sequence {
    open spec fn model_bytes(m: SequenceModel) -> Seq<u8> {
        sequence_bytes(m)
    }

    fn total_bytes_size(&self) -> (r: usize) {
        proof {
            reveal(sequence_bytes);
        }
        let mut r: usize = 0;
        let ghost mut acc: Seq<u8> = Seq::empty();
        let k: usize = 80;
        proof {
            lemma_text_field_len(self.name@, 80);
            lemma_sat_add(acc.len() as int, (text_field(self@.name, 80)).len() as int);
            acc = acc + text_field(self@.name, 80);
        }
        r = add_sat(r, k);
        let k: usize = 4;
        proof {
            lemma_u32_bytes(self.interval_start);
            lemma_sat_add(acc.len() as int, (u32_bytes(self@.interval_start)).len() as int);
            acc = acc + u32_bytes(self@.interval_start);
        }
        r = add_sat(r, k);
        let k: usize = 4;
        proof {
            lemma_u32_bytes(self.interval_end);
            lemma_sat_add(acc.len() as int, (u32_bytes(self@.interval_end)).len() as int);
            acc = acc + u32_bytes(self@.interval_end);
        }
        r = add_sat(r, k);
        let k: usize = 4;
        proof {
            lemma_u32_bytes(self.move_speed);
            lemma_sat_add(acc.len() as int, (u32_bytes(self@.move_speed)).len() as int);
            acc = acc + u32_bytes(self@.move_speed);
        }
        r = add_sat(r, k);
        let k: usize = 4;
        proof {
            lemma_u32_bytes(self.non_looping);
            lemma_sat_add(acc.len() as int, (u32_bytes(self@.non_looping)).len() as int);
            acc = acc + u32_bytes(self@.non_looping);
        }
        r = add_sat(r, k);
        let k: usize = 4;
        proof {
            lemma_u32_bytes(self.rarity);
            lemma_sat_add(acc.len() as int, (u32_bytes(self@.rarity)).len() as int);
            acc = acc + u32_bytes(self@.rarity);
        }
        r = add_sat(r, k);
        let k: usize = 4;
        proof {
            lemma_u32_bytes(self.unknown);
            lemma_sat_add(acc.len() as int, (u32_bytes(self@.unknown)).len() as int);
            acc = acc + u32_bytes(self@.unknown);
        }
        r = add_sat(r, k);
        let k: usize = Extent::byte_width();
        proof {
            self.extent.lemma_codec(Seq::empty(), 0);
            lemma_sat_add(acc.len() as int, (self@.extent.to_bytes()).len() as int);
            acc = acc + self@.extent.to_bytes();
        }
        r = add_sat(r, k);
        assert(acc =~= sequence_bytes(self@));
        r
    }
}

/// Sequences: `chunk_size / 132` of them; remainder bytes are skipped.
#[derive(PartialEq, Debug)]
pub struct SequenceChunk {
    pub chunk_size: u32,
    pub data: Vec<Sequence>,
}

/// The mathematical content of a `SequenceChunk`.
pub struct SequenceChunkModel {
    pub chunk_size: u32,
    pub data: Seq<SequenceModel>,
}

impl View for SequenceChunk {
    type V = SequenceChunkModel;

    open spec fn view(&self) -> SequenceChunkModel {
        SequenceChunkModel {
            chunk_size: self.chunk_size,
            data: views(self.data@),
        }
    }
}

/// The bytes that encoding a `SequenceChunk` writes.
#[verifier::opaque]
pub open spec fn sequence_chunk_bytes(m: SequenceChunkModel) -> Seq<u8> {
    u32_bytes(m.chunk_size)
    + records_bytes::<Sequence>(m.data)
}

pub open spec fn sequence_chunk_encodable(m: SequenceChunkModel) -> bool {
    records_encodable::<Sequence>(m.data)
}

/// A `SequenceChunk` that decoding its encoding gives back.
pub open spec fn sequence_chunk_wf(m: SequenceChunkModel) -> bool {
    &&& records_wf::<Sequence>(m.data)
    &&& m.chunk_size + 4 == sequence_chunk_bytes(m).len()
}

/// Decoding a `SequenceChunk` at `pos`: its model and the position after it.
#[verifier::opaque]
pub open spec fn parse_sequence_chunk(b: Seq<u8>, pos: int) -> Result<(SequenceChunkModel, int), FormatError> {
    if pos + 4 > b.len() {
        Err(FormatError::OutOfBounds)
    } else {
        match parse_records::<Sequence>(b, pos + 4, (u32_at(b, pos) / 132) as nat) {
            Err(e) => Err(e),
            Ok((data, p_data)) => if pos + 4 + u32_at(b, pos) as int > b.len() {
                Err(FormatError::OutOfBounds)
            } else {
                let m = SequenceChunkModel {
                    chunk_size: u32_at(b, pos),
                    data: data,
                };
                Ok((m, pos + 4 + u32_at(b, pos) as int))
            },
        }
    }
}

/// Decoding reads `chunk_size / 132` records and skips the remainder: the
/// position after the chunk is `pos + 4 + chunk_size` whatever that remainder.
pub proof fn lemma_sequence_chunk_truncates(b: Seq<u8>, pos: int)
    ensures
        parse_sequence_chunk(b, pos) matches Ok((m, p)) ==> {
            &&& m.data.len() == m.chunk_size / 132
            &&& p == pos + 4 + m.chunk_size
        },
{
    reveal(parse_sequence_chunk);
    lemma_parse_records_len::<Sequence>(b, pos + 4, (u32_at(b, pos) / 132) as nat);
}

/// Recomputing `chunk_size` gives an exact multiple of the record width.
pub proof fn lemma_sequence_chunk_sized_multiple(m: SequenceChunkModel)
    requires
        sequence_chunk_bytes(m).len() <= u32::MAX,
    ensures
        sequence_chunk_sized(m).chunk_size == m.data.len() * 132,
{
    reveal(sequence_chunk_bytes);
    lemma_u32_bytes(m.chunk_size);
    assert forall|i: int| 0 <= i < m.data.len() implies (#[trigger] Sequence::model_bytes(m.data[i])).len()
        == 132 by {
        lemma_sequence_len(m.data[i]);
    }
    lemma_records_len_fixed::<Sequence>(m.data, 132);
}

/// `m` with every declared size inside it recomputed from the content.
pub open spec fn sequence_chunk_resized(m: SequenceChunkModel) -> SequenceChunkModel {
    SequenceChunkModel { data: resized_seq::<Sequence>(m.data), ..m }
}

impl Record for SequenceChunk {
    open spec fn parse(b: Seq<u8>, pos: int) -> Result<(SequenceChunkModel, int), FormatError> {
        parse_sequence_chunk(b, pos)
    }

    open spec fn encodable(m: SequenceChunkModel) -> bool {
        sequence_chunk_encodable(m)
    }

    open spec fn wf(m: SequenceChunkModel) -> bool {
        sequence_chunk_wf(m)
    }

    open spec fn resized(m: SequenceChunkModel) -> SequenceChunkModel {
        sequence_chunk_resized(m)
    }

    fn calculate_sizes(&mut self) {
        proof {
            reveal(sequence_chunk_bytes);
        }
        proof {
            lemma_resized_seq::<Sequence>(views(self.data@));
        }
        resize_records(&mut self.data);
    }

    proof fn lemma_resized(m: SequenceChunkModel) {
        reveal(sequence_chunk_bytes);
        lemma_resized_seq::<Sequence>(m.data);
    }

    proof fn lemma_wf_encodable(m: SequenceChunkModel) {
        lemma_records_wf_encodable::<Sequence>(m.data);
    }

    proof fn lemma_round_trip(m: SequenceChunkModel, b: Seq<u8>, pos: int) {
        let e = sequence_chunk_bytes(m);
        let q1 = u32_bytes(m.chunk_size);
        let q2 = q1 + records_bytes::<Sequence>(m.data);
        assert(q2 == e) by {
            reveal(sequence_chunk_bytes);
        }
        lemma_u32_bytes(m.chunk_size);
        lemma_split(b, pos, q1, records_bytes::<Sequence>(m.data));
        assert(b.subrange(pos, pos + 4) == u32_bytes(m.chunk_size));
        assert(u32_at(b, pos) == m.chunk_size);
        lemma_records_round_trip::<Sequence>(m.data, b, pos + q1.len());
        assert forall|i: int| 0 <= i < m.data.len() implies (#[trigger] Sequence::model_bytes(m.data[i])).len()
            == 132 by {
            lemma_sequence_len(m.data[i]);
        }
        lemma_records_len_fixed::<Sequence>(m.data, 132);
        lemma_div_by_multiple(m.data.len() as int, 132);
        assert(parse_sequence_chunk(b, pos) == Ok::<(SequenceChunkModel, int), FormatError>((m, pos + e.len()))) by {
            reveal(parse_sequence_chunk);
        }
    }

    fn decode(src: &[u8], pos: usize) -> (r: Result<(SequenceChunk, usize), FormatError>) {
        proof {
            reveal(parse_sequence_chunk);
        }
        let mut p: usize = pos;
        if src.len() - p < 4 {
            return Err(FormatError::OutOfBounds);
        }
        let chunk_size = read_u32(src, p);
        p = p + 4;
        let data = match read_records::<Sequence>(src, p, (chunk_size / 132) as usize) {
            Ok((v, _)) => v,
            Err(e) => {
                return Err(e);
            },
        };
        if src.len() - p < chunk_size as usize {
            return Err(FormatError::OutOfBounds);
        }
        p = p + chunk_size as usize;
        let v = SequenceChunk { chunk_size, data };
        Ok((v, p))
    }

    fn encode(&self, out: &mut Vec<u8>) -> (r: Result<(), FormatError>) {
        proof {
            reveal(sequence_chunk_bytes);
        }
        let ghost start = out@;
        write_u32(out, self.chunk_size);
        let ghost mut acc = u32_bytes(self@.chunk_size);
        assert(out@ =~= start + acc);
        if let Err(e) = write_records(out, &self.data) {
            return Err(e);
        }
        proof {
            acc = acc + records_bytes::<Sequence>(self@.data);
        }
        assert(out@ =~= start + acc);
        assert(acc == sequence_chunk_bytes(self@));
        Ok(())
    }

}

impl BytesTotalSize for SequenceChunk {
    open spec fn model_bytes(m: SequenceChunkModel) -> Seq<u8> {
        sequence_chunk_bytes(m)
    }

    fn total_bytes_size(&self) -> (r: usize) {
        proof {
            reveal(sequence_chunk_bytes);
        }
        let mut r: usize = 0;
        let ghost mut acc: Seq<u8> = Seq::empty();
        let k: usize = 4;
        proof {
            lemma_u32_bytes(self.chunk_size);
            lemma_sat_add(acc.len() as int, (u32_bytes(self@.chunk_size)).len() as int);
            acc = acc + u32_bytes(self@.chunk_size);
        }
        r = add_sat(r, k);
        let k: usize = records_size(&self.data);
        proof {
            lemma_sat_add(acc.len() as int, (records_bytes::<Sequence>(self@.data)).len() as int);
            acc = acc + records_bytes::<Sequence>(self@.data);
        }
        r = add_sat(r, k);
        assert(acc =~= sequence_chunk_bytes(self@));
        r
    }
}

/// `m` with `chunk_size` set to the encoded length without the size field itself.
pub open spec fn sequence_chunk_sized(m: SequenceChunkModel) -> SequenceChunkModel {
    SequenceChunkModel { chunk_size: (sequence_chunk_bytes(m).len() - 4) as u32, ..m }
}

impl Chunk for SequenceChunk {
    open spec fn sized(m: SequenceChunkModel) -> SequenceChunkModel {
        sequence_chunk_sized(m)
    }

    open spec fn chunk_size_of(m: SequenceChunkModel) -> u32 {
        m.chunk_size
    }

    proof fn lemma_sized_id(m: SequenceChunkModel) {
    }

    proof fn lemma_chunk_min_len(m: SequenceChunkModel) {
        reveal(sequence_chunk_bytes);
        lemma_u32_bytes(m.chunk_size);
    }

    fn calculate_chunk_size(&mut self) {
        let n = self.total_bytes_size();
        self.chunk_size = (n - 4) as u32;
        proof {
            reveal(sequence_chunk_bytes);
            lemma_u32_bytes(old(self).chunk_size);
            lemma_u32_bytes(self.chunk_size);
        }
    }
}

} // verus!
