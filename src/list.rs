//! Runs of fixed-width elements: their encoding, decoding and size.

use crate::codec::{
    add_sat, lemma_sat_add, lemma_split, lemma_u32_bytes, read_u32, sat, u32_at, u32_bytes, write_u32,
    Element,
};
use crate::error::FormatError;
use vstd::arithmetic::div_mod::lemma_fundamental_div_mod;
use vstd::prelude::*;

verus! {

broadcast use vstd::seq::group_seq_axioms;

/// The encodings of the elements of `s`, one after another.
pub open spec fn elems_bytes<T: Element>(s: Seq<T>) -> Seq<u8>
    decreases s.len(),
{
    if s.len() == 0 {
        Seq::empty()
    } else {
        elems_bytes(s.drop_last()) + s.last().to_bytes()
    }
}

/// Decoding `n` elements from `pos` on, and the position after them.
pub open spec fn parse_elems<T: Element>(b: Seq<u8>, pos: int, n: nat) -> Result<
    (Seq<T>, int),
    FormatError,
> {
    if pos + n * T::width() > b.len() {
        Err(FormatError::OutOfBounds)
    } else {
        Ok((Seq::new(n, |i: int| T::parse_at(b, pos + i * T::width())), pos + n * T::width()))
    }
}

pub proof fn lemma_elems_len<T: Element>(s: Seq<T>)
    ensures
        elems_bytes(s).len() == s.len() * T::width(),
    decreases s.len(),
{
    if s.len() > 0 {
        lemma_elems_len(s.drop_last());
        s.last().lemma_codec(Seq::empty(), 0);
        assert((s.len() - 1) * T::width() + T::width() == s.len() * T::width())
            by (nonlinear_arith);
    }
}

pub proof fn lemma_elems_take<T: Element>(s: Seq<T>, i: int)
    requires
        0 <= i < s.len(),
    ensures
        elems_bytes(s.take(i + 1)) == elems_bytes(s.take(i)) + s[i].to_bytes(),
{
    assert(s.take(i + 1).drop_last() =~= s.take(i));
}

/// `n * w <= l` exactly when `n <= l / w`.
pub proof fn lemma_fits(n: int, w: int, l: int)
    requires
        n >= 0,
        w > 0,
        l >= 0,
    ensures
        (n * w <= l) <==> (n <= l / w),
{
    lemma_fundamental_div_mod(l, w);
    let q = l / w;
    let r = l % w;
    assert(l == w * q + r);
    assert(0 <= r < w);
    if n <= q {
        assert(n * w <= l) by (nonlinear_arith)
            requires
                n <= q,
                w > 0,
                l == w * q + r,
                r >= 0,
        ;
    } else {
        assert(n * w > l) by (nonlinear_arith)
            requires
                n >= q + 1,
                w > 0,
                l == w * q + r,
                r < w,
        ;
    }
}

/// Reads `n` elements from `pos` on.
pub fn read_elems<T: Element>(src: &[u8], pos: usize, n: usize) -> (r: Result<
    (Vec<T>, usize),
    FormatError,
>)
    requires
        pos <= src.len(),
    ensures
        parse_elems::<T>(src@, pos as int, n as nat) == match r {
            Ok((v, p)) => Ok((v@, p as int)),
            Err(e) => Err(e),
        },
{
    let w = T::byte_width();
    let room = src.len() - pos;
    proof {
        lemma_fits(n as int, w as int, room as int);
    }
    if n > room / w {
        return Err(FormatError::OutOfBounds);
    }
    let mut v: Vec<T> = Vec::new();
    let mut i: usize = 0;
    let mut p: usize = pos;
    while i < n
        invariant
            w == T::width(),
            w > 0,
            n * w <= room,
            room == src.len() - pos,
            pos <= src@.len(),
            i <= n,
            p == pos + i * w,
            v@ == Seq::new(i as nat, |j: int| T::parse_at(src@, pos + j * T::width())),
        decreases n - i,
    {
        assert((i + 1) * w <= n * w) by (nonlinear_arith)
            requires
                i < n,
                w > 0,
        ;
        assert((i + 1) * w == i * w + w) by (nonlinear_arith);
        let x = T::read_at(src, p);
        v.push(x);
        assert(v@ =~= Seq::new((i + 1) as nat, |j: int| T::parse_at(src@, pos + j * T::width())));
        p = p + w;
        i = i + 1;
    }
    Ok((v, p))
}

/// Writes the elements of `s`, one after another.
pub fn write_elems<T: Element>(out: &mut Vec<u8>, s: &Vec<T>)
    ensures
        final(out)@ == old(out)@ + elems_bytes(s@),
{
    let ghost start = out@;
    let mut i: usize = 0;
    while i < s.len()
        invariant
            i <= s@.len(),
            out@ == start + elems_bytes(s@.take(i as int)),
        decreases s@.len() - i,
    {
        proof {
            lemma_elems_take(s@, i as int);
        }
        s[i].write_to(out);
        i = i + 1;
    }
    assert(s@.take(i as int) =~= s@);
}

/// The encoded length of the elements of `s`, clamped to `usize::MAX`.
pub fn elems_size<T: Element>(s: &Vec<T>) -> (r: usize)
    ensures
        r == sat(elems_bytes(s@).len() as int),
{
    let w = T::byte_width();
    let mut r: usize = 0;
    let mut i: usize = 0;
    while i < s.len()
        invariant
            w == T::width(),
            i <= s@.len(),
            r == sat(elems_bytes(s@.take(i as int)).len() as int),
        decreases s@.len() - i,
    {
        proof {
            lemma_elems_take(s@, i as int);
            s@[i as int].lemma_codec(Seq::empty(), 0);
            lemma_sat_add(elems_bytes(s@.take(i as int)).len() as int, w as int);
        }
        r = add_sat(r, w);
        i = i + 1;
    }
    assert(s@.take(i as int) =~= s@);
    r
}

/// Decoding the encoding of `s` gives `s` back.
pub proof fn lemma_elems_round_trip<T: Element>(s: Seq<T>, b: Seq<u8>, pos: int)
    requires
        0 <= pos,
        pos + elems_bytes(s).len() <= b.len(),
        b.subrange(pos, pos + elems_bytes(s).len()) == elems_bytes(s),
    ensures
        parse_elems::<T>(b, pos, s.len()) == Ok::<(Seq<T>, int), FormatError>(
            (s, pos + elems_bytes(s).len()),
        ),
    decreases s.len(),
{
    lemma_elems_len(s);
    if s.len() > 0 {
        let w = T::width() as int;
        let s0 = s.drop_last();
        let e = elems_bytes(s);
        let e0 = elems_bytes(s0);
        let n0 = e0.len() as int;
        let x = s.last();
        lemma_elems_len(s0);
        x.lemma_codec(b, pos + n0);
        assert(e == e0 + x.to_bytes());
        crate::codec::lemma_sub(b, pos, e, 0, n0);
        assert(e.subrange(0, n0) =~= e0);
        assert(b.subrange(pos, pos + e0.len()) == e0);
        lemma_elems_round_trip(s0, b, pos);
        crate::codec::lemma_sub(b, pos, e, n0, w);
        assert(e.subrange(n0, n0 + w) =~= x.to_bytes());
        assert(T::parse_at(b, pos + n0) == x);
        assert(s0.len() * T::width() + T::width() == s.len() * T::width()) by (nonlinear_arith)
            requires
                s0.len() + 1 == s.len(),
        ;
        let got = Seq::new(s.len(), |i: int| T::parse_at(b, pos + i * T::width()));
        let got0 = Seq::new(s0.len(), |i: int| T::parse_at(b, pos + i * T::width()));
        assert(got0 == s0);
        assert forall|i: int| 0 <= i < s.len() implies got[i] == s[i] by {
            if i < s0.len() {
                assert(got0[i] == s0[i]);
            } else {
                assert(i * T::width() == n0);
            }
        }
        assert(got =~= s);
    } else {
        assert(Seq::new(0, |i: int| T::parse_at(b, pos + i * T::width())) =~= s);
    }
}

/// A tagged section: the tag, the element count, then the elements.
pub open spec fn tagged_elems_bytes<T: Element>(tag: u32, count: u32, s: Seq<T>) -> Seq<u8> {
    u32_bytes(tag) + u32_bytes(count) + elems_bytes(s)
}

/// Decoding a tagged section at `pos`: the tag must be `tag`; then the count
/// and that many elements.
pub open spec fn parse_tagged_elems<T: Element>(b: Seq<u8>, pos: int, tag: u32) -> Result<
    (u32, Seq<T>, int),
    FormatError,
> {
    if pos + 4 > b.len() {
        Err(FormatError::OutOfBounds)
    } else if u32_at(b, pos) != tag {
        Err(FormatError::TagMismatch { expected: tag, found: u32_at(b, pos) })
    } else if pos + 8 > b.len() {
        Err(FormatError::OutOfBounds)
    } else {
        match parse_elems::<T>(b, pos + 8, u32_at(b, pos + 4) as nat) {
            Err(e) => Err(e),
            Ok((s, p)) => Ok((u32_at(b, pos + 4), s, p)),
        }
    }
}

/// Reads a tagged section.
pub fn read_tagged_elems<T: Element>(src: &[u8], pos: usize, tag: u32) -> (r: Result<
    (u32, Vec<T>, usize),
    FormatError,
>)
    requires
        pos <= src.len(),
    ensures
        parse_tagged_elems::<T>(src@, pos as int, tag) == match r {
            Ok((c, v, p)) => Ok((c, v@, p as int)),
            Err(e) => Err(e),
        },
        r matches Ok((_, _, p)) ==> pos < p <= src.len(),
{
    if src.len() - pos < 4 {
        return Err(FormatError::OutOfBounds);
    }
    let found = read_u32(src, pos);
    if found != tag {
        return Err(FormatError::TagMismatch { expected: tag, found });
    }
    if src.len() - pos < 8 {
        return Err(FormatError::OutOfBounds);
    }
    let count = read_u32(src, pos + 4);
    match read_elems::<T>(src, pos + 8, count as usize) {
        Ok((v, p)) => {
            proof {
                lemma_elems_len(v@);
                T::lemma_width();
                assert(p == pos + 8 + v@.len() * T::width());
            }
            Ok((count, v, p))
        },
        Err(e) => Err(e),
    }
}

/// Writes a tagged section.
pub fn write_tagged_elems<T: Element>(out: &mut Vec<u8>, tag: u32, count: u32, s: &Vec<T>)
    ensures
        final(out)@ == old(out)@ + tagged_elems_bytes(tag, count, s@),
{
    let ghost start = out@;
    write_u32(out, tag);
    write_u32(out, count);
    write_elems(out, s);
    assert(out@ =~= start + tagged_elems_bytes(tag, count, s@));
}

/// The encoded length of a tagged section, clamped to `usize::MAX`; it does
/// not depend on the tag or the count.
pub fn tagged_elems_size<T: Element>(s: &Vec<T>) -> (r: usize)
    ensures
        forall|tag: u32, count: u32| r == sat(#[trigger] tagged_elems_bytes(tag, count, s@).len() as int),
{
    let k = elems_size(s);
    proof {
        assert forall|tag: u32, count: u32| #[trigger] tagged_elems_bytes(tag, count, s@).len() == 8
            + elems_bytes(s@).len() by {
            lemma_u32_bytes(tag);
            lemma_u32_bytes(count);
        }
        lemma_sat_add(8, elems_bytes(s@).len() as int);
    }
    add_sat(8, k)
}

/// Decoding the encoding of a tagged section whose count matches gives it back.
pub proof fn lemma_tagged_elems_round_trip<T: Element>(
    tag: u32,
    count: u32,
    s: Seq<T>,
    b: Seq<u8>,
    pos: int,
)
    requires
        count == s.len(),
        0 <= pos,
        pos + tagged_elems_bytes(tag, count, s).len() <= b.len(),
        b.subrange(pos, pos + tagged_elems_bytes(tag, count, s).len()) == tagged_elems_bytes(tag, count, s),
    ensures
        parse_tagged_elems::<T>(b, pos, tag) == Ok::<(u32, Seq<T>, int), FormatError>(
            (count, s, pos + tagged_elems_bytes(tag, count, s).len()),
        ),
        tagged_elems_bytes(tag, count, s).len() >= 8,
{
    lemma_u32_bytes(tag);
    lemma_u32_bytes(count);
    let x = u32_bytes(tag);
    let y = u32_bytes(count);
    lemma_split(b, pos, x + y, elems_bytes(s));
    lemma_split(b, pos, x, y);
    assert(b.subrange(pos, pos + 4) == x);
    assert(b.subrange(pos + 4, pos + 8) == y);
    lemma_elems_round_trip(s, b, pos + 8);
}

} // verus!

