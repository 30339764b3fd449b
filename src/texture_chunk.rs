//! Textures.

use crate::codec::{
    add_sat, lemma_sat_add, lemma_split, lemma_text_field_len, lemma_text_round_trip,
    lemma_u32_bytes, parse_text, read_text, read_u32, text_field, text_fits, text_ok, u32_at,
    u32_bytes, write_text, write_u32,
};
use crate::error::FormatError;
use crate::record::{
    BytesTotalSize, Chunk, Record, lemma_parse_records_len, lemma_records_len_fixed,
    lemma_records_round_trip, lemma_records_wf_encodable, lemma_resized_seq, parse_records,
    read_records, records_bytes, records_encodable, records_size, records_wf, resize_records,
    resized_seq, views, write_records,
};
use vstd::arithmetic::div_mod::lemma_div_by_multiple;
use vstd::prelude::*;

verus! {

broadcast use vstd::seq::group_seq_axioms;

/// A texture reference: 268 bytes on the wire.
#[derive(PartialEq, Debug)]
pub struct Texture {
    pub replaceable_id: u32,
    pub file_name: String,
    pub unknown: u32,
    pub flags: u32,
}

/// The mathematical content of a `Texture`.
pub struct TextureModel {
    pub replaceable_id: u32,
    pub file_name: Seq<char>,
    pub unknown: u32,
    pub flags: u32,
}

impl View for Texture {
    type V = TextureModel;

    open spec fn view(&self) -> TextureModel {
        TextureModel {
            replaceable_id: self.replaceable_id,
            file_name: self.file_name@,
            unknown: self.unknown,
            flags: self.flags,
        }
    }
}

/// The bytes that encoding a `Texture` writes.
#[verifier::opaque]
pub open spec fn texture_bytes(m: TextureModel) -> Seq<u8> {
    u32_bytes(m.replaceable_id)
    + text_field(m.file_name, 256)
    + u32_bytes(m.unknown)
    + u32_bytes(m.flags)
}

pub open spec fn texture_encodable(m: TextureModel) -> bool {
    text_fits(m.file_name, 256)
}

/// A `Texture` that decoding its encoding gives back.
pub open spec fn texture_wf(m: TextureModel) -> bool {
    &&& text_ok(m.file_name, 256)
}

/// Decoding a `Texture` at `pos`: its model and the position after it.
#[verifier::opaque]
pub open spec fn parse_texture(b: Seq<u8>, pos: int) -> Result<(TextureModel, int), FormatError> {
    if pos + 268 > b.len() {
        Err(FormatError::OutOfBounds)
    } else {
        match parse_text(b, pos + 4, 256) {
            Err(e) => Err(e),
            Ok(file_name) => {
                let m = TextureModel {
                    replaceable_id: u32_at(b, pos),
                    file_name: file_name,
                    unknown: u32_at(b, pos + 260),
                    flags: u32_at(b, pos + 264),
                };
                Ok((m, pos + 268))
            },
        }
    }
}

/// Every `Texture` takes 268 bytes on the wire.
pub proof fn lemma_texture_len(m: TextureModel)
    ensures
        texture_bytes(m).len() == 268,
{
    reveal(texture_bytes);
    lemma_u32_bytes(m.replaceable_id);
    lemma_text_field_len(m.file_name, 256);
    lemma_u32_bytes(m.unknown);
    lemma_u32_bytes(m.flags);
}

/// `m` with every declared size inside it recomputed from the content.
pub open spec fn texture_resized(m: TextureModel) -> TextureModel {
    m
}

impl Record for Texture {
    open spec fn parse(b: Seq<u8>, pos: int) -> Result<(TextureModel, int), FormatError> {
        parse_texture(b, pos)
    }

    open spec fn encodable(m: TextureModel) -> bool {
        texture_encodable(m)
    }

    open spec fn wf(m: TextureModel) -> bool {
        texture_wf(m)
    }

    open spec fn resized(m: TextureModel) -> TextureModel {
        texture_resized(m)
    }

    fn calculate_sizes(&mut self) {
    }

    proof fn lemma_resized(m: TextureModel) {
    }

    proof fn lemma_wf_encodable(m: TextureModel) {
    }

    proof fn lemma_round_trip(m: TextureModel, b: Seq<u8>, pos: int) {
        let e = texture_bytes(m);
        let q1 = u32_bytes(m.replaceable_id);
        let q2 = q1 + text_field(m.file_name, 256);
        let q3 = q2 + u32_bytes(m.unknown);
        let q4 = q3 + u32_bytes(m.flags);
        assert(q4 == e) by {
            reveal(texture_bytes);
        }
        lemma_u32_bytes(m.replaceable_id);
        lemma_text_field_len(m.file_name, 256);
        lemma_u32_bytes(m.unknown);
        lemma_u32_bytes(m.flags);
        lemma_split(b, pos, q3, u32_bytes(m.flags));
        lemma_split(b, pos, q2, u32_bytes(m.unknown));
        lemma_split(b, pos, q1, text_field(m.file_name, 256));
        assert(b.subrange(pos, pos + 4) == u32_bytes(m.replaceable_id));
        assert(u32_at(b, pos) == m.replaceable_id);
        lemma_text_round_trip(m.file_name, 256, b, pos + q1.len());
        assert(b.subrange(pos + q2.len(), pos + q2.len() + 4) == u32_bytes(m.unknown));
        assert(u32_at(b, pos + q2.len()) == m.unknown);
        assert(b.subrange(pos + q3.len(), pos + q3.len() + 4) == u32_bytes(m.flags));
        assert(u32_at(b, pos + q3.len()) == m.flags);
        assert(parse_texture(b, pos) == Ok::<(TextureModel, int), FormatError>((m, pos + e.len()))) by {
            reveal(parse_texture);
        }
    }

    fn decode(src: &[u8], pos: usize) -> (r: Result<(Texture, usize), FormatError>) {
        proof {
            reveal(parse_texture);
        }
        let mut p: usize = pos;
        if src.len() - p < 268 {
            return Err(FormatError::OutOfBounds);
        }
        let replaceable_id = read_u32(src, p);
        let file_name = match read_text(src, p + 4, 256) {
            Ok(s) => s,
            Err(e) => {
                return Err(e);
            },
        };
        let unknown = read_u32(src, p + 260);
        let flags = read_u32(src, p + 264);
        p = p + 268;
        let v = Texture { replaceable_id, file_name, unknown, flags };
        Ok((v, p))
    }

    fn encode(&self, out: &mut Vec<u8>) -> (r: Result<(), FormatError>) {
        proof {
            reveal(texture_bytes);
        }
        let ghost start = out@;
        write_u32(out, self.replaceable_id);
        let ghost mut acc = u32_bytes(self@.replaceable_id);
        assert(out@ =~= start + acc);
        if let Err(e) = write_text(out, &self.file_name, 256) {
            return Err(e);
        }
        proof {
            acc = acc + text_field(self@.file_name, 256);
        }
        assert(out@ =~= start + acc);
        write_u32(out, self.unknown);
        proof {
            acc = acc + u32_bytes(self@.unknown);
        }
        assert(out@ =~= start + acc);
        write_u32(out, self.flags);
        proof {
            acc = acc + u32_bytes(self@.flags);
        }
        assert(out@ =~= start + acc);
        assert(acc == texture_bytes(self@));
        Ok(())
    }

}

impl BytesTotalSize for Texture {
    open spec fn model_bytes(m: TextureModel) -> Seq<u8> {
        texture_bytes(m)
    }

    fn total_bytes_size(&self) -> (r: usize) {
        proof {
            reveal(texture_bytes);
        }
        let mut r: usize = 0;
        let ghost mut acc: Seq<u8> = Seq::empty();
        let k: usize = 4;
        proof {
            lemma_u32_bytes(self.replaceable_id);
            lemma_sat_add(acc.len() as int, (u32_bytes(self@.replaceable_id)).len() as int);
            acc = acc + u32_bytes(self@.replaceable_id);
        }
        r = add_sat(r, k);
        let k: usize = 256;
        proof {
            lemma_text_field_len(self.file_name@, 256);
            lemma_sat_add(acc.len() as int, (text_field(self@.file_name, 256)).len() as int);
            acc = acc + text_field(self@.file_name, 256);
        }
        r = add_sat(r, k);
        let k: usize = 4;
        proof {
            lemma_u32_bytes(self.unknown);
            lemma_sat_add(acc.len() as int, (u32_bytes(self@.unknown)).len() as int);
            acc = acc + u32_bytes(self@.unknown);
        }
        r = add_sat(r, k);
        let k: usize = 4;
        proof {
            lemma_u32_bytes(self.flags);
            lemma_sat_add(acc.len() as int, (u32_bytes(self@.flags)).len() as int);
            acc = acc + u32_bytes(self@.flags);
        }
        r = add_sat(r, k);
        assert(acc =~= texture_bytes(self@));
        r
    }
}

/// Textures: `chunk_size / 268` of them; remainder bytes are skipped.
#[derive(PartialEq, Debug)]
pub struct TextureChunk {
    pub chunk_size: u32,
    pub data: Vec<Texture>,
}

/// The mathematical content of a `TextureChunk`.
pub struct TextureChunkModel {
    pub chunk_size: u32,
    pub data: Seq<TextureModel>,
}

impl View for TextureChunk {
    type V = TextureChunkModel;

    open spec fn view(&self) -> TextureChunkModel {
        TextureChunkModel {
            chunk_size: self.chunk_size,
            data: views(self.data@),
        }
    }
}

/// The bytes that encoding a `TextureChunk` writes.
#[verifier::opaque]
pub open spec fn texture_chunk_bytes(m: TextureChunkModel) -> Seq<u8> {
    u32_bytes(m.chunk_size)
    + records_bytes::<Texture>(m.data)
}

pub open spec fn texture_chunk_encodable(m: TextureChunkModel) -> bool {
    records_encodable::<Texture>(m.data)
}

/// A `TextureChunk` that decoding its encoding gives back.
pub open spec fn texture_chunk_wf(m: TextureChunkModel) -> bool {
    &&& records_wf::<Texture>(m.data)
    &&& m.chunk_size + 4 == texture_chunk_bytes(m).len()
}

/// Decoding a `TextureChunk` at `pos`: its model and the position after it.
#[verifier::opaque]
pub open spec fn parse_texture_chunk(b: Seq<u8>, pos: int) -> Result<(TextureChunkModel, int), FormatError> {
    if pos + 4 > b.len() {
        Err(FormatError::OutOfBounds)
    } else {
        match parse_records::<Texture>(b, pos + 4, (u32_at(b, pos) / 268) as nat) {
            Err(e) => Err(e),
            Ok((data, p_data)) => if pos + 4 + u32_at(b, pos) as int > b.len() {
                Err(FormatError::OutOfBounds)
            } else {
                let m = TextureChunkModel {
                    chunk_size: u32_at(b, pos),
                    data: data,
                };
                Ok((m, pos + 4 + u32_at(b, pos) as int))
            },
        }
    }
}

/// Decoding reads `chunk_size / 268` records and skips the remainder: the
/// position after the chunk is `pos + 4 + chunk_size` whatever that remainder.
pub proof fn lemma_texture_chunk_truncates(b: Seq<u8>, pos: int)
    ensures
        parse_texture_chunk(b, pos) matches Ok((m, p)) ==> {
            &&& m.data.len() == m.chunk_size / 268
            &&& p == pos + 4 + m.chunk_size
        },
{
    reveal(parse_texture_chunk);
    lemma_parse_records_len::<Texture>(b, pos + 4, (u32_at(b, pos) / 268) as nat);
}

/// Recomputing `chunk_size` gives an exact multiple of the record width.
pub proof fn lemma_texture_chunk_sized_multiple(m: TextureChunkModel)
    requires
        texture_chunk_bytes(m).len() <= u32::MAX,
    ensures
        texture_chunk_sized(m).chunk_size == m.data.len() * 268,
{
    reveal(texture_chunk_bytes);
    lemma_u32_bytes(m.chunk_size);
    assert forall|i: int| 0 <= i < m.data.len() implies (#[trigger] Texture::model_bytes(m.data[i])).len()
        == 268 by {
        lemma_texture_len(m.data[i]);
    }
    lemma_records_len_fixed::<Texture>(m.data, 268);
}

/// `m` with every declared size inside it recomputed from the content.
pub open spec fn texture_chunk_resized(m: TextureChunkModel) -> TextureChunkModel {
    TextureChunkModel { data: resized_seq::<Texture>(m.data), ..m }
}

impl Record for TextureChunk {
    open spec fn parse(b: Seq<u8>, pos: int) -> Result<(TextureChunkModel, int), FormatError> {
        parse_texture_chunk(b, pos)
    }

    open spec fn encodable(m: TextureChunkModel) -> bool {
        texture_chunk_encodable(m)
    }

    open spec fn wf(m: TextureChunkModel) -> bool {
        texture_chunk_wf(m)
    }

    open spec fn resized(m: TextureChunkModel) -> TextureChunkModel {
        texture_chunk_resized(m)
    }

    fn calculate_sizes(&mut self) {
        proof {
            reveal(texture_chunk_bytes);
        }
        proof {
            lemma_resized_seq::<Texture>(views(self.data@));
        }
        resize_records(&mut self.data);
    }

    proof fn lemma_resized(m: TextureChunkModel) {
        reveal(texture_chunk_bytes);
        lemma_resized_seq::<Texture>(m.data);
    }

    proof fn lemma_wf_encodable(m: TextureChunkModel) {
        lemma_records_wf_encodable::<Texture>(m.data);
    }

    proof fn lemma_round_trip(m: TextureChunkModel, b: Seq<u8>, pos: int) {
        let e = texture_chunk_bytes(m);
        let q1 = u32_bytes(m.chunk_size);
        let q2 = q1 + records_bytes::<Texture>(m.data);
        assert(q2 == e) by {
            reveal(texture_chunk_bytes);
        }
        lemma_u32_bytes(m.chunk_size);
        lemma_split(b, pos, q1, records_bytes::<Texture>(m.data));
        assert(b.subrange(pos, pos + 4) == u32_bytes(m.chunk_size));
        assert(u32_at(b, pos) == m.chunk_size);
        lemma_records_round_trip::<Texture>(m.data, b, pos + q1.len());
        assert forall|i: int| 0 <= i < m.data.len() implies (#[trigger] Texture::model_bytes(m.data[i])).len()
            == 268 by {
            lemma_texture_len(m.data[i]);
        }
        lemma_records_len_fixed::<Texture>(m.data, 268);
        lemma_div_by_multiple(m.data.len() as int, 268);
        assert(parse_texture_chunk(b, pos) == Ok::<(TextureChunkModel, int), FormatError>((m, pos + e.len()))) by {
            reveal(parse_texture_chunk);
        }
    }

    fn decode(src: &[u8], pos: usize) -> (r: Result<(TextureChunk, usize), FormatError>) {
        proof {
            reveal(parse_texture_chunk);
        }
        let mut p: usize = pos;
        if src.len() - p < 4 {
            return Err(FormatError::OutOfBounds);
        }
        let chunk_size = read_u32(src, p);
        p = p + 4;
        let data = match read_records::<Texture>(src, p, (chunk_size / 268) as usize) {
            Ok((v, _)) => v,
            Err(e) => {
                return Err(e);
            },
        };
        if src.len() - p < chunk_size as usize {
            return Err(FormatError::OutOfBounds);
        }
        p = p + chunk_size as usize;
        let v = TextureChunk { chunk_size, data };
        Ok((v, p))
    }

    fn encode(&self, out: &mut Vec<u8>) -> (r: Result<(), FormatError>) {
        proof {
            reveal(texture_chunk_bytes);
        }
        let ghost start = out@;
        write_u32(out, self.chunk_size);
        let ghost mut acc = u32_bytes(self@.chunk_size);
        assert(out@ =~= start + acc);
        if let Err(e) = write_records(out, &self.data) {
            return Err(e);
        }
        proof {
            acc = acc + records_bytes::<Texture>(self@.data);
        }
        assert(out@ =~= start + acc);
        assert(acc == texture_chunk_bytes(self@));
        Ok(())
    }

}

impl BytesTotalSize for TextureChunk {
    open spec fn model_bytes(m: TextureChunkModel) -> Seq<u8> {
        texture_chunk_bytes(m)
    }

    fn total_bytes_size(&self) -> (r: usize) {
        proof {
            reveal(texture_chunk_bytes);
        }
        let mut r: usize = 0;
        let ghost mut acc: Seq<u8> = Seq::empty();
        let k: usize = 4;
        proof {
            lemma_u32_bytes(self.chunk_size);
            lemma_sat_add(acc.len() as int, (u32_bytes(self@.chunk_size)).len() as int);
            acc = acc + u32_bytes(self@.chunk_size);
        }
        r = add_sat(r, k);
        let k: usize = records_size(&self.data);
        proof {
            lemma_sat_add(acc.len() as int, (records_bytes::<Texture>(self@.data)).len() as int);
            acc = acc + records_bytes::<Texture>(self@.data);
        }
        r = add_sat(r, k);
        assert(acc =~= texture_chunk_bytes(self@));
        r
    }
}

/// `m` with `chunk_size` set to the encoded length without the size field itself.
pub open spec fn texture_chunk_sized(m: TextureChunkModel) -> TextureChunkModel {
    TextureChunkModel { chunk_size: (texture_chunk_bytes(m).len() - 4) as u32, ..m }
}

impl Chunk for TextureChunk {
    open spec fn sized(m: TextureChunkModel) -> TextureChunkModel {
        texture_chunk_sized(m)
    }

    open spec fn chunk_size_of(m: TextureChunkModel) -> u32 {
        m.chunk_size
    }

    proof fn lemma_sized_id(m: TextureChunkModel) {
    }

    proof fn lemma_chunk_min_len(m: TextureChunkModel) {
        reveal(texture_chunk_bytes);
        lemma_u32_bytes(m.chunk_size);
    }

    fn calculate_chunk_size(&mut self) {
        let n = self.total_bytes_size();
        self.chunk_size = (n - 4) as u32;
        proof {
            reveal(texture_chunk_bytes);
            lemma_u32_bytes(old(self).chunk_size);
            lemma_u32_bytes(self.chunk_size);
        }
    }
}

} // verus!
