//! Variable-length records whose decoding can fail, and the two ways a chunk
//! repeats them: a known count, or until the declared sizes reach a limit.

use crate::codec::{add_sat, lemma_sat_add, sat};
use crate::error::FormatError;
use vstd::prelude::*;

verus! {

broadcast use vstd::seq::group_seq_axioms;

/// A decoder's result, with the value replaced by its model and the position as an integer.
pub open spec fn lift<T: View>(r: Result<(T, usize), FormatError>) -> Result<(T::V, int), FormatError> {
    match r {
        Ok((v, p)) => Ok((v@, p as int)),
        Err(e) => Err(e),
    }
}

/// The model of an optional value.
pub open spec fn opt_model<T: View>(o: Option<T>) -> Option<T::V> {
    match o {
        Some(x) => Some(x@),
        None => None,
    }
}

/// The models of the values of `s`.
pub open spec fn views<T: View>(s: Seq<T>) -> Seq<T::V> {
    s.map_values(|x: T| x@)
}

/// A value of the format whose encoding can be measured without writing it.
pub trait BytesTotalSize: View {
    /// The bytes that encoding writes.
    spec fn model_bytes(m: Self::V) -> Seq<u8>;

    /// The length of the encoding, clamped to `usize::MAX`.
    fn total_bytes_size(&self) -> (r: usize)
        ensures
            r == sat(Self::model_bytes(self@).len() as int),
    ;
}

/// A record of the format: decoded from a byte buffer at a position, encoded
/// by appending to a buffer, and measured by the length of its encoding.
pub trait Record: Sized + BytesTotalSize {
    /// Decoding at `pos`: the record's model and the position after it, or the error.
    spec fn parse(b: Seq<u8>, pos: int) -> Result<(Self::V, int), FormatError>;

    /// Whether encoding succeeds: every text field fits its width.
    spec fn encodable(m: Self::V) -> bool;

    /// Whether decoding the encoding gives `m` back: declared sizes and counts
    /// match the content, text fits its field without zero bytes, and
    /// keyframes carry tangents as their interpolation type says.
    spec fn wf(m: Self::V) -> bool;

    /// `m` with every declared size inside it recomputed from the content.
    spec fn resized(m: Self::V) -> Self::V;

    /// Recomputes every declared size inside the record, innermost first.
    fn calculate_sizes(&mut self)
        requires
            Self::model_bytes(old(self)@).len() <= u32::MAX,
        ensures
            final(self)@ == Self::resized(old(self)@),
    ;

    /// Recomputing sizes changes neither the encoded length nor whether the
    /// record can be encoded, and leaves a well-formed record as it is.
    proof fn lemma_resized(m: Self::V)
        ensures
            Self::model_bytes(Self::resized(m)).len() == Self::model_bytes(m).len(),
            Self::encodable(Self::resized(m)) == Self::encodable(m),
            Self::wf(m) ==> Self::resized(m) == m,
    ;

    /// A well-formed record can be encoded.
    proof fn lemma_wf_encodable(m: Self::V)
        requires
            Self::wf(m),
        ensures
            Self::encodable(m),
    ;

    /// Decoding the encoding of a well-formed record gives it back.
    proof fn lemma_round_trip(m: Self::V, b: Seq<u8>, pos: int)
        requires
            Self::wf(m),
            0 <= pos,
            pos + Self::model_bytes(m).len() <= b.len(),
            b.subrange(pos, pos + Self::model_bytes(m).len()) == Self::model_bytes(m),
        ensures
            Self::parse(b, pos) == Ok::<(Self::V, int), FormatError>(
                (m, pos + Self::model_bytes(m).len()),
            ),
            Self::model_bytes(m).len() > 0,
    ;

    fn decode(src: &[u8], pos: usize) -> (r: Result<(Self, usize), FormatError>)
        requires
            pos <= src.len(),
        ensures
            Self::parse(src@, pos as int) == lift(r),
            r matches Ok((_, p)) ==> pos < p <= src.len(),
    ;

    fn encode(&self, out: &mut Vec<u8>) -> (r: Result<(), FormatError>)
        ensures
            r is Ok <==> Self::encodable(self@),
            r is Ok ==> final(out)@ == old(out)@ + Self::model_bytes(self@),
            r is Err ==> r == Err::<(), FormatError>(FormatError::StringTooLong),
    ;
}

/// A record that declares its own length, which the enclosing chunk sums to
/// know when its run of records ends.
pub trait Inclusive: Record {
    spec fn declared(m: Self::V) -> int;

    fn declared_size(&self) -> (r: u64)
        ensures
            r == Self::declared(self@),
    ;

    /// A well-formed record declares its encoded length.
    proof fn lemma_declared(m: Self::V)
        requires
            Self::wf(m),
        ensures
            Self::declared(m) == Self::model_bytes(m).len(),
    ;
}

/// A top-level chunk: a record that starts with its own `chunk_size` field.
pub trait Chunk: Record {
    /// `m` with `chunk_size` set to the encoded length without the size field itself.
    spec fn sized(m: Self::V) -> Self::V;

    spec fn chunk_size_of(m: Self::V) -> u32;

    /// Recomputing the size of a well-formed chunk changes nothing.
    proof fn lemma_sized_id(m: Self::V)
        requires
            Self::wf(m),
        ensures
            Self::sized(m) == m,
    ;

    /// The encoding starts with the four bytes of `chunk_size`.
    proof fn lemma_chunk_min_len(m: Self::V)
        ensures
            Self::model_bytes(m).len() >= 4,
    ;

    /// Sets `chunk_size` to the encoded length without the size field itself.
    fn calculate_chunk_size(&mut self)
        requires
            4 <= Self::model_bytes(old(self)@).len() <= u32::MAX,
        ensures
            final(self)@ == Self::sized(old(self)@),
            Self::chunk_size_of(final(self)@) + 4 == Self::model_bytes(final(self)@).len(),
            Self::model_bytes(final(self)@).len() == Self::model_bytes(old(self)@).len(),
            Self::encodable(final(self)@) == Self::encodable(old(self)@),
    ;
}

pub open spec fn records_bytes<T: Record>(s: Seq<T::V>) -> Seq<u8>
    decreases s.len(),
{
    if s.len() == 0 {
        Seq::empty()
    } else {
        records_bytes::<T>(s.drop_last()) + T::model_bytes(s.last())
    }
}

pub open spec fn records_encodable<T: Record>(s: Seq<T::V>) -> bool {
    forall|i: int| 0 <= i < s.len() ==> T::encodable(#[trigger] s[i])
}

/// Decoding `n` records one after another from `pos` on.
pub open spec fn parse_records<T: Record>(b: Seq<u8>, pos: int, n: nat) -> Result<
    (Seq<T::V>, int),
    FormatError,
>
    decreases n,
{
    if n == 0 {
        Ok((Seq::empty(), pos))
    } else {
        match T::parse(b, pos) {
            Err(e) => Err(e),
            Ok((v, p)) => match parse_records::<T>(b, p, (n - 1) as nat) {
                Err(e) => Err(e),
                Ok((s, q)) => Ok((seq![v] + s, q)),
            },
        }
    }
}

/// Decoding records from `pos` on while the sum of their declared sizes,
/// starting from `total`, stays below `limit`. The check comes after each
/// record, so a record that overshoots the limit is still read whole.
pub open spec fn parse_inclusive<T: Inclusive>(b: Seq<u8>, pos: int, total: int, limit: int) -> Result<
    (Seq<T::V>, int),
    FormatError,
>
    decreases b.len() - pos,
{
    if total >= limit {
        Ok((Seq::empty(), pos))
    } else {
        match T::parse(b, pos) {
            Err(e) => Err(e),
            Ok((v, p)) => if p <= pos || p > b.len() {
                Err(FormatError::OutOfBounds)
            } else {
                match parse_inclusive::<T>(b, p, total + T::declared(v), limit) {
                    Err(e) => Err(e),
                    Ok((s, q)) => Ok((seq![v] + s, q)),
                }
            },
        }
    }
}

/// Decoding `n` records yields `n` of them.
pub proof fn lemma_parse_records_len<T: Record>(b: Seq<u8>, pos: int, n: nat)
    ensures
        parse_records::<T>(b, pos, n) matches Ok((s, _)) ==> s.len() == n,
    decreases n,
{
    if n > 0 {
        if let Ok((v, p)) = T::parse(b, pos) {
            lemma_parse_records_len::<T>(b, p, (n - 1) as nat);
        }
    }
}

/// Records whose encodings all have `w` bytes take `w` bytes each.
pub proof fn lemma_records_len_fixed<T: Record>(s: Seq<T::V>, w: nat)
    requires
        forall|i: int| 0 <= i < s.len() ==> (#[trigger] T::model_bytes(s[i])).len() == w,
    ensures
        records_bytes::<T>(s).len() == s.len() * w,
    decreases s.len(),
{
    if s.len() > 0 {
        let s0 = s.drop_last();
        assert forall|i: int| 0 <= i < s0.len() implies (#[trigger] T::model_bytes(s0[i])).len() == w by {
            assert(s0[i] == s[i]);
        }
        lemma_records_len_fixed::<T>(s0, w);
        assert(T::model_bytes(s[s.len() - 1]).len() == w);
        assert(s0.len() * w + w == s.len() * w) by (nonlinear_arith)
            requires
                s0.len() + 1 == s.len(),
        ;
    }
}

pub open spec fn records_wf<T: Record>(s: Seq<T::V>) -> bool {
    forall|i: int| 0 <= i < s.len() ==> T::wf(#[trigger] s[i])
}

pub proof fn lemma_records_wf_encodable<T: Record>(s: Seq<T::V>)
    requires
        records_wf::<T>(s),
    ensures
        records_encodable::<T>(s),
{
    assert forall|i: int| 0 <= i < s.len() implies T::encodable(#[trigger] s[i]) by {
        T::lemma_wf_encodable(s[i]);
    }
}

/// The records of `s`, each with its sizes recomputed.
pub open spec fn resized_seq<T: Record>(s: Seq<T::V>) -> Seq<T::V> {
    s.map_values(|m: T::V| T::resized(m))
}

/// A record of a run takes no more bytes than the run.
pub proof fn lemma_records_elem_len<T: Record>(s: Seq<T::V>, i: int)
    requires
        0 <= i < s.len(),
    ensures
        T::model_bytes(s[i]).len() <= records_bytes::<T>(s).len(),
    decreases s.len(),
{
    if i < s.len() - 1 {
        lemma_records_elem_len::<T>(s.drop_last(), i);
        assert(s.drop_last()[i] == s[i]);
    }
}

/// Recomputing the sizes of a run of records keeps its length and whether it
/// can be encoded, and leaves a well-formed run as it is.
pub proof fn lemma_resized_seq<T: Record>(s: Seq<T::V>)
    ensures
        records_bytes::<T>(resized_seq::<T>(s)).len() == records_bytes::<T>(s).len(),
        records_encodable::<T>(resized_seq::<T>(s)) == records_encodable::<T>(s),
        records_wf::<T>(s) ==> resized_seq::<T>(s) == s,
    decreases s.len(),
{
    let r = resized_seq::<T>(s);
    if records_encodable::<T>(s) {
        assert forall|i: int| 0 <= i < r.len() implies T::encodable(#[trigger] r[i]) by {
            T::lemma_resized(s[i]);
        }
    }
    if records_encodable::<T>(r) {
        assert forall|i: int| 0 <= i < s.len() implies T::encodable(#[trigger] s[i]) by {
            T::lemma_resized(s[i]);
            assert(T::encodable(r[i]));
        }
    }
    if s.len() > 0 {
        lemma_resized_seq::<T>(s.drop_last());
        assert(resized_seq::<T>(s.drop_last()) =~= r.drop_last());
        T::lemma_resized(s.last());
    }
    if records_wf::<T>(s) {
        assert forall|i: int| 0 <= i < s.len() implies r[i] == s[i] by {
            T::lemma_resized(s[i]);
        }
        assert(r =~= s);
    }
}

/// Recomputes the sizes of every record of `v`.
pub fn resize_records<T: Record>(v: &mut Vec<T>)
    requires
        records_bytes::<T>(views(old(v)@)).len() <= u32::MAX,
    ensures
        views(final(v)@) == resized_seq::<T>(views(old(v)@)),
{
    let ghost s = views(v@);
    let n = v.len();
    let mut i: usize = 0;
    while i < n
        invariant
            n == s.len(),
            i <= n,
            v@.len() == n,
            records_bytes::<T>(s).len() <= u32::MAX,
            views(v@) == s.subrange(i as int, n as int) + resized_seq::<T>(s.take(i as int)),
        decreases n - i,
    {
        assert(views(v@)[0] == s[i as int]);
        assert(views(v@)[0] == v@[0]@);
        let ghost before = v@;
        let mut x = v.remove(0);
        proof {
            lemma_records_elem_len::<T>(s, i as int);
        }
        x.calculate_sizes();
        let ghost xr = x@;
        v.push(x);
        proof {
            let a = s.subrange(i as int, n as int);
            let r0 = resized_seq::<T>(s.take(i as int));
            assert(views(v@) =~= views(before.remove(0)).push(xr));
            assert(views(before.remove(0)) =~= views(before).subrange(1, n as int));
            assert(views(before).subrange(1, n as int) =~= s.subrange(i + 1, n as int) + r0);
            assert(resized_seq::<T>(s.take(i + 1)) =~= r0.push(T::resized(s[i as int])));
            assert(views(v@) =~= s.subrange(i + 1, n as int) + resized_seq::<T>(s.take(i + 1)));
        }
        i = i + 1;
    }
    assert(s.subrange(n as int, n as int) + resized_seq::<T>(s.take(n as int)) =~= resized_seq::<T>(s));
}

/// The encoding of a run of records is the first one's, then the rest's.
pub proof fn lemma_records_bytes_first<T: Record>(s: Seq<T::V>)
    requires
        s.len() > 0,
    ensures
        records_bytes::<T>(s) == T::model_bytes(s[0]) + records_bytes::<T>(s.drop_first()),
    decreases s.len(),
{
    if s.len() > 1 {
        lemma_records_bytes_first::<T>(s.drop_last());
        assert(s.drop_last().drop_first() =~= s.drop_first().drop_last());
        assert(s.drop_first().last() == s.last());
        assert(s.drop_last()[0] == s[0]);
    } else {
        assert(s.drop_last() =~= Seq::<T::V>::empty());
        assert(s.drop_first() =~= Seq::<T::V>::empty());
    }
}

/// Decoding the encoding of `n` well-formed records gives them back.
pub proof fn lemma_records_round_trip<T: Record>(s: Seq<T::V>, b: Seq<u8>, pos: int)
    requires
        records_wf::<T>(s),
        0 <= pos,
        pos + records_bytes::<T>(s).len() <= b.len(),
        b.subrange(pos, pos + records_bytes::<T>(s).len()) == records_bytes::<T>(s),
    ensures
        parse_records::<T>(b, pos, s.len()) == Ok::<(Seq<T::V>, int), FormatError>(
            (s, pos + records_bytes::<T>(s).len()),
        ),
    decreases s.len(),
{
    if s.len() == 0 {
        assert(s =~= Seq::<T::V>::empty());
    } else {
        lemma_records_bytes_first::<T>(s);
        let x = T::model_bytes(s[0]);
        let rest = s.drop_first();
        crate::codec::lemma_split(b, pos, x, records_bytes::<T>(rest));
        T::lemma_round_trip(s[0], b, pos);
        assert(records_wf::<T>(rest)) by {
            assert forall|i: int| 0 <= i < rest.len() implies T::wf(#[trigger] rest[i]) by {
                assert(rest[i] == s[i + 1]);
            }
        }
        lemma_records_round_trip::<T>(rest, b, pos + x.len());
        assert(seq![s[0]] + rest =~= s);
    }
}

/// Decoding well-formed records while their declared sizes, from `total`,
/// stay below `total` plus their encoded length gives them all back.
pub proof fn lemma_inclusive_round_trip<T: Inclusive>(
    s: Seq<T::V>,
    b: Seq<u8>,
    pos: int,
    total: int,
)
    requires
        records_wf::<T>(s),
        0 <= pos,
        pos + records_bytes::<T>(s).len() <= b.len(),
        b.subrange(pos, pos + records_bytes::<T>(s).len()) == records_bytes::<T>(s),
    ensures
        parse_inclusive::<T>(b, pos, total, total + records_bytes::<T>(s).len()) == Ok::<
            (Seq<T::V>, int),
            FormatError,
        >((s, pos + records_bytes::<T>(s).len())),
    decreases s.len(),
{
    if s.len() == 0 {
        assert(s =~= Seq::<T::V>::empty());
    } else {
        lemma_records_bytes_first::<T>(s);
        let x = T::model_bytes(s[0]);
        let rest = s.drop_first();
        crate::codec::lemma_split(b, pos, x, records_bytes::<T>(rest));
        T::lemma_round_trip(s[0], b, pos);
        T::lemma_declared(s[0]);
        assert(records_wf::<T>(rest)) by {
            assert forall|i: int| 0 <= i < rest.len() implies T::wf(#[trigger] rest[i]) by {
                assert(rest[i] == s[i + 1]);
            }
        }
        lemma_inclusive_round_trip::<T>(rest, b, pos + x.len(), total + x.len());
        assert(seq![s[0]] + rest =~= s);
    }
}

proof fn lemma_views_push<T: View>(s: Seq<T>, x: T)
    ensures
        views(s.push(x)) == views(s).push(x@),
{
    assert(views(s.push(x)) =~= views(s).push(x@));
}

proof fn lemma_records_take<T: Record>(s: Seq<T::V>, i: int)
    requires
        0 <= i < s.len(),
    ensures
        records_bytes::<T>(s.take(i + 1)) == records_bytes::<T>(s.take(i)) + T::model_bytes(s[i]),
{
    assert(s.take(i + 1).drop_last() =~= s.take(i));
}

/// Reads `n` records one after another.
pub fn read_records<T: Record>(src: &[u8], pos: usize, n: usize) -> (r: Result<
    (Vec<T>, usize),
    FormatError,
>)
    requires
        pos <= src.len(),
    ensures
        parse_records::<T>(src@, pos as int, n as nat) == match r {
            Ok((v, p)) => Ok((views(v@), p as int)),
            Err(e) => Err(e),
        },
        r matches Ok((v, p)) ==> pos <= p <= src.len() && v@.len() == n,
{
    let mut data: Vec<T> = Vec::new();
    let mut i: usize = 0;
    let mut p: usize = pos;
    while i < n
        invariant
            i <= n,
            pos <= p <= src.len(),
            data@.len() == i,
            parse_records::<T>(src@, pos as int, n as nat) == match parse_records::<T>(
                src@,
                p as int,
                (n - i) as nat,
            ) {
                Ok((s, q)) => Ok((views(data@) + s, q)),
                Err(e) => Err(e),
            },
        decreases n - i,
    {
        match T::decode(src, p) {
            Err(e) => {
                return Err(e);
            },
            Ok((x, q)) => {
                proof {
                    lemma_views_push(data@, x);
                    match parse_records::<T>(src@, q as int, (n - i - 1) as nat) {
                        Ok((s, q2)) => {
                            assert(views(data@) + (seq![x@] + s) =~= views(data@).push(x@) + s);
                        },
                        Err(e) => {},
                    }
                }
                data.push(x);
                p = q;
                i = i + 1;
            },
        }
    }
    assert(views(data@) + Seq::<T::V>::empty() =~= views(data@));
    Ok((data, p))
}

/// Reads records while the sum of their declared sizes stays below `limit`.
pub fn read_inclusive<T: Inclusive>(src: &[u8], pos: usize, limit: u32) -> (r: Result<
    (Vec<T>, usize),
    FormatError,
>)
    requires
        pos <= src.len(),
    ensures
        parse_inclusive::<T>(src@, pos as int, 0, limit as int) == match r {
            Ok((v, p)) => Ok((views(v@), p as int)),
            Err(e) => Err(e),
        },
        r matches Ok((v, p)) ==> pos <= p <= src.len(),
{
    let mut data: Vec<T> = Vec::new();
    let mut total: u64 = 0;
    let mut p: usize = pos;
    while total < limit as u64
        invariant
            pos <= p <= src.len(),
            total <= u32::MAX,
            parse_inclusive::<T>(src@, pos as int, 0, limit as int) == match parse_inclusive::<T>(
                src@,
                p as int,
                total as int,
                limit as int,
            ) {
                Ok((s, q)) => Ok((views(data@) + s, q)),
                Err(e) => Err(e),
            },
        decreases src.len() - p,
    {
        match T::decode(src, p) {
            Err(e) => {
                return Err(e);
            },
            Ok((x, q)) => {
                let d = x.declared_size();
                let ghost next = total + T::declared(x@);
                proof {
                    lemma_views_push(data@, x);
                    match parse_inclusive::<T>(src@, q as int, next, limit as int) {
                        Ok((s, q2)) => {
                            assert(views(data@) + (seq![x@] + s) =~= views(data@).push(x@) + s);
                        },
                        Err(e) => {},
                    }
                }
                data.push(x);
                p = q;
                if d >= limit as u64 - total {
                    proof {
                        assert(parse_inclusive::<T>(src@, p as int, next, limit as int) == Ok::<
                            (Seq<T::V>, int),
                            FormatError,
                        >((Seq::empty(), p as int)));
                        assert(views(data@) + Seq::<T::V>::empty() =~= views(data@));
                    }
                    return Ok((data, p));
                }
                total = total + d;
            },
        }
    }
    assert(views(data@) + Seq::<T::V>::empty() =~= views(data@));
    Ok((data, p))
}

/// Writes the records of `s` one after another.
pub fn write_records<T: Record>(out: &mut Vec<u8>, s: &Vec<T>) -> (r: Result<(), FormatError>)
    ensures
        r is Ok <==> records_encodable::<T>(views(s@)),
        r is Ok ==> final(out)@ == old(out)@ + records_bytes::<T>(views(s@)),
        r is Err ==> r == Err::<(), FormatError>(FormatError::StringTooLong),
{
    let ghost start = out@;
    let mut i: usize = 0;
    while i < s.len()
        invariant
            i <= s@.len(),
            forall|j: int| 0 <= j < i ==> T::encodable(#[trigger] views(s@)[j]),
            out@ == start + records_bytes::<T>(views(s@).take(i as int)),
        decreases s@.len() - i,
    {
        proof {
            lemma_records_take::<T>(views(s@), i as int);
        }
        match s[i].encode(out) {
            Err(e) => {
                return Err(e);
            },
            Ok(()) => {},
        }
        i = i + 1;
    }
    assert(views(s@).take(i as int) =~= views(s@));
    Ok(())
}

/// The encoded length of the records of `s`, clamped to `usize::MAX`.
pub fn records_size<T: Record>(s: &Vec<T>) -> (r: usize)
    ensures
        r == sat(records_bytes::<T>(views(s@)).len() as int),
{
    let mut r: usize = 0;
    let mut i: usize = 0;
    while i < s.len()
        invariant
            i <= s@.len(),
            r == sat(records_bytes::<T>(views(s@).take(i as int)).len() as int),
        decreases s@.len() - i,
    {
        let k = s[i].total_bytes_size();
        proof {
            lemma_records_take::<T>(views(s@), i as int);
            lemma_sat_add(
                records_bytes::<T>(views(s@).take(i as int)).len() as int,
                T::model_bytes(views(s@)[i as int]).len() as int,
            );
        }
        r = add_sat(r, k);
        i = i + 1;
    }
    assert(views(s@).take(i as int) =~= views(s@));
    r
}

} // verus!
