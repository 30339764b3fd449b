//! Primitive codec: little-endian scalars, fixed-width text fields, and the
//! saturating arithmetic used by size accounting.

use crate::error::FormatError;
use scroll::ctx::StrCtx;
use scroll::Pread;
use vstd::bytes::*;
use vstd::prelude::*;
use vstd::utf8::*;

verus! {

broadcast use vstd::seq::group_seq_axioms;

/// `n` clamped to `usize::MAX`.
pub open spec fn sat(n: int) -> usize {
    if n < usize::MAX {
        n as usize
    } else {
        usize::MAX
    }
}

pub proof fn lemma_sat_add(x: int, y: int)
    requires
        x >= 0,
        y >= 0,
    ensures
        sat(sat(x) + sat(y)) == sat(x + y),
{
}

/// `a + b`, clamped to `usize::MAX`.
pub fn add_sat(a: usize, b: usize) -> (r: usize)
    ensures
        r == sat(a + b),
{
    if a > usize::MAX - b {
        usize::MAX
    } else {
        a + b
    }
}

/// The `u32` stored little-endian at `pos`.
pub open spec fn u32_at(b: Seq<u8>, pos: int) -> u32 {
    spec_u32_from_le_bytes(b.subrange(pos, pos + 4))
}

/// The `u16` stored little-endian at `pos`.
pub open spec fn u16_at(b: Seq<u8>, pos: int) -> u16 {
    spec_u16_from_le_bytes(b.subrange(pos, pos + 2))
}

pub open spec fn u32_bytes(v: u32) -> Seq<u8> {
    spec_u32_to_le_bytes(v)
}

pub open spec fn u16_bytes(v: u16) -> Seq<u8> {
    spec_u16_to_le_bytes(v)
}

pub proof fn lemma_u32_bytes(v: u32)
    ensures
        u32_bytes(v).len() == 4,
        forall|b: Seq<u8>, pos: int|
            0 <= pos && pos + 4 <= b.len() && #[trigger] b.subrange(pos, pos + 4) == u32_bytes(v)
                ==> u32_at(b, pos) == v,
{
    lemma_auto_spec_u32_to_from_le_bytes();
    assert forall|b: Seq<u8>, pos: int|
        0 <= pos && pos + 4 <= b.len() && #[trigger] b.subrange(pos, pos + 4) == u32_bytes(
            v,
        ) implies u32_at(b, pos) == v by {
        assert(spec_u32_to_le_bytes(v).len() == 4);
    }
}

pub proof fn lemma_u16_bytes(v: u16)
    ensures
        u16_bytes(v).len() == 2,
        forall|b: Seq<u8>, pos: int|
            0 <= pos && pos + 2 <= b.len() && #[trigger] b.subrange(pos, pos + 2) == u16_bytes(v)
                ==> u16_at(b, pos) == v,
{
    lemma_auto_spec_u16_to_from_le_bytes();
    assert forall|b: Seq<u8>, pos: int|
        0 <= pos && pos + 2 <= b.len() && #[trigger] b.subrange(pos, pos + 2) == u16_bytes(
            v,
        ) implies u16_at(b, pos) == v by {
        assert(spec_u16_to_le_bytes(v).len() == 2);
    }
}

pub fn read_u32(src: &[u8], pos: usize) -> (r: u32)
    requires
        pos + 4 <= src.len(),
    ensures
        r == u32_at(src@, pos as int),
{
    u32_from_le_bytes(&src[pos..pos + 4])
}

pub fn read_u16(src: &[u8], pos: usize) -> (r: u16)
    requires
        pos + 2 <= src.len(),
    ensures
        r == u16_at(src@, pos as int),
{
    u16_from_le_bytes(&src[pos..pos + 2])
}

pub fn write_u32(out: &mut Vec<u8>, v: u32)
    ensures
        final(out)@ == old(out)@ + u32_bytes(v),
{
    let mut b = u32_to_le_bytes(v);
    out.append(&mut b);
}

pub fn write_u16(out: &mut Vec<u8>, v: u16)
    ensures
        final(out)@ == old(out)@ + u16_bytes(v),
{
    let mut b = u16_to_le_bytes(v);
    out.append(&mut b);
}

/// Index of the first zero byte of `w` at or after `i`, or `w.len()`.
pub open spec fn nul_from(w: Seq<u8>, i: int) -> int
    decreases w.len() - i,
{
    if i >= w.len() {
        w.len() as int
    } else if w[i] == 0 {
        i
    } else {
        nul_from(w, i + 1)
    }
}

/// The bytes of a fixed-width field before its first NUL (all of them if none).
pub open spec fn text_bytes(w: Seq<u8>) -> Seq<u8> {
    w.take(nul_from(w, 0))
}

/// Decoding the fixed-width text field of `width` bytes at `pos`.
pub open spec fn parse_text(b: Seq<u8>, pos: int, width: int) -> Result<Seq<char>, FormatError> {
    if pos + width > b.len() {
        Err(FormatError::OutOfBounds)
    } else {
        let t = text_bytes(b.subrange(pos, pos + width));
        if valid_utf8(t) {
            Ok(decode_utf8(t))
        } else {
            Err(FormatError::InvalidText)
        }
    }
}

/// Whether `s` survives a trip through a field of `width` bytes: its UTF-8
/// bytes fit, and none of them is zero.
pub open spec fn text_ok(s: Seq<char>, width: int) -> bool {
    &&& encode_utf8(s).len() <= width
    &&& forall|i: int| 0 <= i < encode_utf8(s).len() ==> encode_utf8(s)[i] != 0
}

/// Whether `s` can be written to a field of `width` bytes.
pub open spec fn text_fits(s: Seq<char>, width: int) -> bool {
    encode_utf8(s).len() <= width
}

/// The field of `width` bytes that holds `s`: its UTF-8 bytes, then zeros.
pub open spec fn text_field(s: Seq<char>, width: nat) -> Seq<u8> {
    let e = encode_utf8(s);
    if e.len() <= width {
        e + Seq::new((width - e.len()) as nat, |i: int| 0u8)
    } else {
        e.take(width as int)
    }
}

pub proof fn lemma_text_field_len(s: Seq<char>, width: nat)
    ensures
        text_field(s, width).len() == width,
{
}

proof fn lemma_nul_from(w: Seq<u8>, i: int, k: int)
    requires
        0 <= i <= k <= w.len(),
        forall|j: int| i <= j < k ==> w[j] != 0,
        k == w.len() || w[k] == 0,
    ensures
        nul_from(w, i) == k,
    decreases k - i,
{
    if i < k {
        lemma_nul_from(w, i + 1, k);
    }
}

/// Writing `s` to a field of `width` bytes and reading the field back gives
/// `s`, when its UTF-8 bytes fit the field and hold no zero byte. Strings
/// whose bytes do not fit are refused by `write_text`.
pub proof fn lemma_text_round_trip(s: Seq<char>, width: nat, b: Seq<u8>, pos: int)
    requires
        encode_utf8(s).len() <= width,
        forall|i: int| 0 <= i < encode_utf8(s).len() ==> encode_utf8(s)[i] != 0,
        0 <= pos,
        pos + width <= b.len(),
        b.subrange(pos, pos + width) == text_field(s, width),
    ensures
        parse_text(b, pos, width as int) == Ok::<Seq<char>, FormatError>(s),
{
    let e = encode_utf8(s);
    let w = b.subrange(pos, pos + width);
    lemma_nul_from(w, 0, e.len() as int);
    assert(text_bytes(w) =~= e);
    encode_utf8_valid_utf8(s);
    encode_utf8_decode_utf8(s);
}

/// Relies on scroll's `&str` reader with `StrCtx::DelimiterUntil(0, n)`, `n` the
/// window's length: it takes the window's bytes before the first zero byte
/// (all of them if there is none) and returns them as text exactly when
/// `str::from_utf8` accepts them. On an empty window it fails.
#[verifier::external_body]
fn text_before_nul(window: &[u8]) -> (r: Option<String>)
    requires
        window@.len() > 0,
    ensures
        r is Some <==> valid_utf8(text_bytes(window@)),
        r matches Some(s) ==> encode_utf8(s@) == text_bytes(window@),
{
    window.pread_with::<&str>(0, StrCtx::DelimiterUntil(0, window.len())).ok().map(String::from)
}

/// Reads the fixed-width text field of `width` bytes at `pos`.
pub fn read_text(src: &[u8], pos: usize, width: usize) -> (r: Result<String, FormatError>)
    requires
        width > 0,
    ensures
        parse_text(src@, pos as int, width as int) == match r {
            Ok(s) => Ok(s@),
            Err(e) => Err(e),
        },
{
    if width > src.len() || pos > src.len() - width {
        return Err(FormatError::OutOfBounds);
    }
    let window = &src[pos..pos + width];
    match text_before_nul(window) {
        Some(s) => {
            proof {
                encode_utf8_decode_utf8(s@);
            }
            Ok(s)
        },
        None => Err(FormatError::InvalidText),
    }
}

/// Writes `s` as a fixed-width field of `width` bytes, zero-padded.
pub fn write_text(out: &mut Vec<u8>, s: &String, width: usize) -> (r: Result<(), FormatError>)
    ensures
        r is Ok <==> text_fits(s@, width as int),
        r is Ok ==> final(out)@ == old(out)@ + text_field(s@, width as nat),
        r is Err ==> r == Err::<(), FormatError>(FormatError::StringTooLong),
{
    let bytes = s.as_str().as_bytes();
    if bytes.len() > width {
        return Err(FormatError::StringTooLong);
    }
    let ghost start = out@;
    let mut i: usize = 0;
    while i < bytes.len()
        invariant
            i <= bytes@.len(),
            bytes@ == encode_utf8(s@),
            out@ == start + bytes@.take(i as int),
        decreases bytes@.len() - i,
    {
        out.push(bytes[i]);
        assert(bytes@.take(i + 1) == bytes@.take(i as int).push(bytes@[i as int]));
        i = i + 1;
    }
    assert(bytes@.take(i as int) == bytes@);
    let mut j: usize = bytes.len();
    while j < width
        invariant
            bytes@.len() <= j <= width,
            bytes@ == encode_utf8(s@),
            out@ == start + bytes@ + Seq::new((j - bytes@.len()) as nat, |k: int| 0u8),
        decreases width - j,
    {
        out.push(0u8);
        assert(Seq::new((j + 1 - bytes@.len()) as nat, |k: int| 0u8) == Seq::new(
            (j - bytes@.len()) as nat,
            |k: int| 0u8,
        ).push(0u8));
        j = j + 1;
    }
    Ok(())
}

/// Appends the bytes of `data`.
pub fn write_raw(out: &mut Vec<u8>, data: &Vec<u8>)
    ensures
        final(out)@ == old(out)@ + data@,
{
    let ghost start = out@;
    let mut i: usize = 0;
    while i < data.len()
        invariant
            i <= data@.len(),
            out@ == start + data@.take(i as int),
        decreases data@.len() - i,
    {
        out.push(data[i]);
        assert(data@.take(i + 1) == data@.take(i as int).push(data@[i as int]));
        i = i + 1;
    }
    assert(data@.take(i as int) == data@);
}

/// `b[pos..pos + n]` when the bytes at `pos` are `w` and `w[off..off + n]` lies inside `w`.
pub proof fn lemma_sub(b: Seq<u8>, pos: int, w: Seq<u8>, off: int, n: int)
    requires
        0 <= pos,
        pos + w.len() <= b.len(),
        b.subrange(pos, pos + w.len()) == w,
        0 <= off,
        0 <= n,
        off + n <= w.len(),
    ensures
        b.subrange(pos + off, pos + off + n) == w.subrange(off, off + n),
{
    assert forall|k: int| 0 <= k < n implies #[trigger] b.subrange(pos + off, pos + off + n)[k]
        == w.subrange(off, off + n)[k] by {
        assert(b.subrange(pos, pos + w.len())[off + k] == b[pos + off + k]);
    }
    assert(b.subrange(pos + off, pos + off + n) =~= w.subrange(off, off + n));
}

/// Splits the bytes at `pos` that hold `x + y` into those of `x` and of `y`.
pub proof fn lemma_split(b: Seq<u8>, pos: int, x: Seq<u8>, y: Seq<u8>)
    requires
        0 <= pos,
        pos + x.len() + y.len() <= b.len(),
        b.subrange(pos, pos + x.len() + y.len()) == x + y,
    ensures
        b.subrange(pos, pos + x.len()) == x,
        b.subrange(pos + x.len(), pos + x.len() + y.len()) == y,
{
    lemma_sub(b, pos, x + y, 0, x.len() as int);
    assert((x + y).subrange(0, x.len() as int) =~= x);
    lemma_sub(b, pos, x + y, x.len() as int, y.len() as int);
    assert((x + y).subrange(x.len() as int, (x.len() + y.len()) as int) =~= y);
}

/// Joins the bytes of `x` at `pos` and of `y` right after them.
pub proof fn lemma_join(b: Seq<u8>, pos: int, x: Seq<u8>, y: Seq<u8>)
    requires
        0 <= pos,
        pos + x.len() + y.len() <= b.len(),
        b.subrange(pos, pos + x.len()) == x,
        b.subrange(pos + x.len(), pos + x.len() + y.len()) == y,
    ensures
        b.subrange(pos, pos + x.len() + y.len()) == x + y,
{
    assert forall|k: int| 0 <= k < x.len() + y.len() implies #[trigger] b.subrange(
        pos,
        pos + x.len() + y.len(),
    )[k] == (x + y)[k] by {
        if k < x.len() {
            assert(b.subrange(pos, pos + x.len())[k] == b[pos + k]);
        } else {
            assert(b.subrange(pos + x.len(), pos + x.len() + y.len())[k - x.len()] == b[pos + k]);
        }
    }
    assert(b.subrange(pos, pos + x.len() + y.len()) =~= x + y);
}

/// A value with a fixed-width encoding, read and written without failure.
pub trait Element: Sized + Copy {
    /// Width of the encoding in bytes.
    spec fn width() -> nat;

    /// The value whose encoding starts at `pos`.
    spec fn parse_at(b: Seq<u8>, pos: int) -> Self;

    /// The encoding of `self`.
    spec fn to_bytes(self) -> Seq<u8>;

    fn byte_width() -> (r: usize)
        ensures
            r == Self::width(),
            0 < r <= 64,
    ;

    fn read_at(src: &[u8], pos: usize) -> (r: Self)
        requires
            pos + Self::width() <= src.len(),
        ensures
            r == Self::parse_at(src@, pos as int),
    ;

    fn write_to(&self, out: &mut Vec<u8>)
        ensures
            final(out)@ == old(out)@ + self.to_bytes(),
    ;

    proof fn lemma_width()
        ensures
            0 < Self::width() <= 64,
    ;

    /// The encoding has the declared width, and reading it back gives the value.
    proof fn lemma_codec(self, b: Seq<u8>, pos: int)
        ensures
            self.to_bytes().len() == Self::width(),
            0 < Self::width() <= 64,
            0 <= pos && pos + Self::width() <= b.len() && b.subrange(pos, pos + Self::width())
                == self.to_bytes() ==> Self::parse_at(b, pos) == self,
    ;
}

/// A float field or an integer field: four bytes, little-endian. Floats are
/// held as their IEEE-754 bit patterns.
impl Element for u32 {
    open spec fn width() -> nat {
        4
    }

    open spec fn parse_at(b: Seq<u8>, pos: int) -> u32 {
        u32_at(b, pos)
    }

    open spec fn to_bytes(self) -> Seq<u8> {
        u32_bytes(self)
    }

    fn byte_width() -> usize {
        4
    }

    fn read_at(src: &[u8], pos: usize) -> u32 {
        read_u32(src, pos)
    }

    fn write_to(&self, out: &mut Vec<u8>) {
        write_u32(out, *self)
    }

    proof fn lemma_width() {
    }

    proof fn lemma_codec(self, b: Seq<u8>, pos: int) {
        lemma_u32_bytes(self);
    }
}

} // verus!
