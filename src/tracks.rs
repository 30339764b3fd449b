//! Animation curves: `Transform<T>` holds a count, an interpolation type, a
//! global-sequence id and `count` keyframes (`Track<T>`). Every keyframe
//! carries two tangents exactly when the interpolation type is above 1.

use crate::codec::{
    add_sat, lemma_sat_add, lemma_sub, lemma_u32_bytes, read_u32, sat, u32_at, u32_bytes, write_u32,
    Element,
};
use crate::error::FormatError;
use crate::list::lemma_fits;
use crate::record::BytesTotalSize;
use vstd::prelude::*;

verus! {

broadcast use vstd::seq::group_seq_axioms;

#[derive(PartialEq, Debug, Clone, Copy)]
pub struct Track<T> {
    pub time: u32,
    pub value: T,
    pub in_tan: Option<T>,
    pub out_tan: Option<T>,
}

#[derive(PartialEq, Debug, Clone)]
pub struct Transform<T> {
    pub number_of_tracks: u32,
    pub interpolation_type: u32,
    pub global_sequence_id: u32,
    pub data: Vec<Track<T>>,
}

/// The mathematical content of a `Transform`.
pub struct TransformModel<T> {
    pub number_of_tracks: u32,
    pub interpolation_type: u32,
    pub global_sequence_id: u32,
    pub data: Seq<Track<T>>,
}

impl<T> View for Transform<T> {
    type V = TransformModel<T>;

    open spec fn view(&self) -> TransformModel<T> {
        TransformModel {
            number_of_tracks: self.number_of_tracks,
            interpolation_type: self.interpolation_type,
            global_sequence_id: self.global_sequence_id,
            data: self.data@,
        }
    }
}

/// Whether keyframes of this interpolation type carry tangents.
pub open spec fn has_tangents(interpolation_type: u32) -> bool {
    interpolation_type > 1
}

/// Encoded width of one keyframe.
pub open spec fn track_width<T: Element>(interpolation_type: u32) -> nat {
    if has_tangents(interpolation_type) {
        4 + 3 * T::width()
    } else {
        4 + T::width()
    }
}

/// The keyframe stored at `pos`.
pub open spec fn parse_track<T: Element>(b: Seq<u8>, pos: int, interpolation_type: u32) -> Track<
    T,
> {
    Track {
        time: u32_at(b, pos),
        value: T::parse_at(b, pos + 4),
        in_tan: if has_tangents(interpolation_type) {
            Some(T::parse_at(b, pos + 4 + T::width()))
        } else {
            None
        },
        out_tan: if has_tangents(interpolation_type) {
            Some(T::parse_at(b, pos + 4 + 2 * T::width()))
        } else {
            None
        },
    }
}

pub open spec fn opt_bytes<T: Element>(o: Option<T>) -> Seq<u8> {
    match o {
        Some(x) => x.to_bytes(),
        None => Seq::empty(),
    }
}

pub open spec fn track_bytes<T: Element>(t: Track<T>) -> Seq<u8> {
    u32_bytes(t.time) + t.value.to_bytes() + opt_bytes(t.in_tan) + opt_bytes(t.out_tan)
}

pub open spec fn tracks_bytes<T: Element>(s: Seq<Track<T>>) -> Seq<u8>
    decreases s.len(),
{
    if s.len() == 0 {
        Seq::empty()
    } else {
        tracks_bytes(s.drop_last()) + track_bytes(s.last())
    }
}

/// Decoding a `Transform` at `pos`: its model and the position after it.
#[verifier::opaque]
pub open spec fn parse_transform<T: Element>(b: Seq<u8>, pos: int) -> Result<
    (TransformModel<T>, int),
    FormatError,
> {
    if pos + 12 > b.len() {
        Err(FormatError::OutOfBounds)
    } else {
        let n = u32_at(b, pos);
        let it = u32_at(b, pos + 4);
        let tw = track_width::<T>(it);
        if pos + 12 + n * tw > b.len() {
            Err(FormatError::OutOfBounds)
        } else {
            Ok(
                (
                    TransformModel {
                        number_of_tracks: n,
                        interpolation_type: it,
                        global_sequence_id: u32_at(b, pos + 8),
                        data: Seq::new(n as nat, |i: int| parse_track::<T>(b, pos + 12 + i * tw, it)),
                    },
                    pos + 12 + n * tw,
                ),
            )
        }
    }
}

pub open spec fn transform_bytes<T: Element>(m: TransformModel<T>) -> Seq<u8> {
    u32_bytes(m.number_of_tracks) + u32_bytes(m.interpolation_type) + u32_bytes(
        m.global_sequence_id,
    ) + tracks_bytes(m.data)
}

/// A transform that decoding can produce: the count matches the keyframes,
/// and tangents are present exactly as the interpolation type says.
pub open spec fn transform_wf<T: Element>(m: TransformModel<T>) -> bool {
    &&& m.number_of_tracks == m.data.len()
    &&& forall|i: int|
        0 <= i < m.data.len() ==> {
            &&& (#[trigger] m.data[i]).in_tan is Some == has_tangents(m.interpolation_type)
            &&& m.data[i].out_tan is Some == has_tangents(m.interpolation_type)
        }
}

proof fn lemma_tracks_take<T: Element>(s: Seq<Track<T>>, i: int)
    requires
        0 <= i < s.len(),
    ensures
        tracks_bytes(s.take(i + 1)) == tracks_bytes(s.take(i)) + track_bytes(s[i]),
{
    assert(s.take(i + 1).drop_last() =~= s.take(i));
}

/// Encoded length and decoding of one keyframe of a well-formed transform.
proof fn lemma_track<T: Element>(t: Track<T>, it: u32, b: Seq<u8>, pos: int)
    requires
        t.in_tan is Some == has_tangents(it),
        t.out_tan is Some == has_tangents(it),
    ensures
        track_bytes(t).len() == track_width::<T>(it),
        0 <= pos && pos + track_width::<T>(it) <= b.len() && b.subrange(
            pos,
            pos + track_width::<T>(it),
        ) == track_bytes(t) ==> parse_track::<T>(b, pos, it) == t,
{
    let w = T::width() as int;
    lemma_u32_bytes(t.time);
    t.value.lemma_codec(b, pos + 4);
    let e = track_bytes(t);
    if has_tangents(it) {
        t.in_tan.unwrap().lemma_codec(b, pos + 4 + w);
        t.out_tan.unwrap().lemma_codec(b, pos + 4 + 2 * w);
    }
    if 0 <= pos && pos + track_width::<T>(it) <= b.len() && b.subrange(pos, pos + track_width::<T>(it))
        == e {
        lemma_sub(b, pos, e, 0, 4);
        assert(e.subrange(0, 4) =~= u32_bytes(t.time));
        lemma_sub(b, pos, e, 4, w);
        assert(e.subrange(4, 4 + w) =~= t.value.to_bytes());
        if has_tangents(it) {
            lemma_sub(b, pos, e, 4 + w, w);
            assert(e.subrange(4 + w, 4 + 2 * w) =~= t.in_tan.unwrap().to_bytes());
            lemma_sub(b, pos, e, 4 + 2 * w, w);
            assert(e.subrange(4 + 2 * w, 4 + 3 * w) =~= t.out_tan.unwrap().to_bytes());
        }
    }
}

proof fn lemma_tracks_len<T: Element>(s: Seq<Track<T>>, it: u32)
    requires
        forall|i: int|
            0 <= i < s.len() ==> {
                &&& (#[trigger] s[i]).in_tan is Some == has_tangents(it)
                &&& s[i].out_tan is Some == has_tangents(it)
            },
    ensures
        tracks_bytes(s).len() == s.len() * track_width::<T>(it),
    decreases s.len(),
{
    if s.len() > 0 {
        let s0 = s.drop_last();
        assert forall|i: int| 0 <= i < s0.len() implies {
            &&& (#[trigger] s0[i]).in_tan is Some == has_tangents(it)
            &&& s0[i].out_tan is Some == has_tangents(it)
        } by {
            assert(s0[i] == s[i]);
        }
        lemma_tracks_len(s0, it);
        lemma_track(s.last(), it, Seq::empty(), 0);
        let tw = track_width::<T>(it);
        assert(s0.len() * tw + tw == s.len() * tw) by (nonlinear_arith)
            requires
                s0.len() + 1 == s.len(),
        ;
    }
}

proof fn lemma_tracks_round_trip<T: Element>(s: Seq<Track<T>>, it: u32, b: Seq<u8>, pos: int)
    requires
        forall|i: int|
            0 <= i < s.len() ==> {
                &&& (#[trigger] s[i]).in_tan is Some == has_tangents(it)
                &&& s[i].out_tan is Some == has_tangents(it)
            },
        0 <= pos,
        pos + tracks_bytes(s).len() <= b.len(),
        b.subrange(pos, pos + tracks_bytes(s).len()) == tracks_bytes(s),
    ensures
        Seq::new(s.len(), |i: int| parse_track::<T>(b, pos + i * track_width::<T>(it), it)) == s,
    decreases s.len(),
{
    let tw = track_width::<T>(it) as int;
    lemma_tracks_len(s, it);
    if s.len() > 0 {
        let s0 = s.drop_last();
        assert forall|i: int| 0 <= i < s0.len() implies {
            &&& (#[trigger] s0[i]).in_tan is Some == has_tangents(it)
            &&& s0[i].out_tan is Some == has_tangents(it)
        } by {
            assert(s0[i] == s[i]);
        }
        let e = tracks_bytes(s);
        let e0 = tracks_bytes(s0);
        let n0 = e0.len() as int;
        let x = s.last();
        lemma_tracks_len(s0, it);
        lemma_track(x, it, b, pos + n0);
        lemma_sub(b, pos, e, 0, n0);
        assert(e.subrange(0, n0) =~= e0);
        lemma_tracks_round_trip(s0, it, b, pos);
        lemma_sub(b, pos, e, n0, tw);
        assert(e.subrange(n0, n0 + tw) =~= track_bytes(x));
        let got = Seq::new(s.len(), |i: int| parse_track::<T>(b, pos + i * tw, it));
        let got0 = Seq::new(s0.len(), |i: int| parse_track::<T>(b, pos + i * tw, it));
        assert(got0 == s0);
        assert forall|i: int| 0 <= i < s.len() implies got[i] == s[i] by {
            if i < s0.len() {
                assert(got0[i] == s0[i]);
            } else {
                assert(i * tw == n0);
            }
        }
        assert(got =~= s);
    } else {
        assert(Seq::new(s.len(), |i: int| parse_track::<T>(b, pos + i * tw, it)) =~= s);
    }
}

/// Decoding the encoding of a well-formed transform gives it back.
pub proof fn lemma_transform_round_trip<T: Element>(m: TransformModel<T>, b: Seq<u8>, pos: int)
    requires
        transform_wf(m),
        0 <= pos,
        pos + transform_bytes(m).len() <= b.len(),
        b.subrange(pos, pos + transform_bytes(m).len()) == transform_bytes(m),
    ensures
        parse_transform::<T>(b, pos) == Ok::<(TransformModel<T>, int), FormatError>(
            (m, pos + transform_bytes(m).len()),
        ),
{
    reveal(parse_transform);
    let e = transform_bytes(m);
    let t = tracks_bytes(m.data);
    let it = m.interpolation_type;
    lemma_u32_bytes(m.number_of_tracks);
    lemma_u32_bytes(it);
    lemma_u32_bytes(m.global_sequence_id);
    lemma_tracks_len(m.data, it);
    lemma_sub(b, pos, e, 0, 4);
    assert(e.subrange(0, 4) =~= u32_bytes(m.number_of_tracks));
    lemma_sub(b, pos, e, 4, 4);
    assert(e.subrange(4, 8) =~= u32_bytes(it));
    lemma_sub(b, pos, e, 8, 4);
    assert(e.subrange(8, 12) =~= u32_bytes(m.global_sequence_id));
    lemma_sub(b, pos, e, 12, t.len() as int);
    assert(e.subrange(12, 12 + t.len() as int) =~= t);
    lemma_tracks_round_trip(m.data, it, b, pos + 12);
}

/// The model of an optional transform.
pub open spec fn opt_view<T>(o: Option<Transform<T>>) -> Option<TransformModel<T>> {
    match o {
        Some(t) => Some(t@),
        None => None,
    }
}

/// An optional sub-block: its tag then the transform, or nothing.
pub open spec fn opt_block_bytes<T: Element>(tag: u32, o: Option<TransformModel<T>>) -> Seq<u8> {
    match o {
        Some(t) => u32_bytes(tag) + transform_bytes(t),
        None => Seq::empty(),
    }
}

/// Decoding an optional sub-block that is present gives its tag, then its transform.
pub proof fn lemma_opt_block_round_trip<T: Element>(
    tag: u32,
    o: Option<TransformModel<T>>,
    b: Seq<u8>,
    q: int,
)
    requires
        o matches Some(t) ==> transform_wf(t),
        0 <= q,
        q + opt_block_bytes(tag, o).len() <= b.len(),
        b.subrange(q, q + opt_block_bytes(tag, o).len()) == opt_block_bytes(tag, o),
    ensures
        o is None ==> opt_block_bytes(tag, o).len() == 0,
        o matches Some(t) ==> {
            &&& opt_block_bytes(tag, o).len() >= 16
            &&& u32_at(b, q) == tag
            &&& parse_transform::<T>(b, q + 4) == Ok::<(TransformModel<T>, int), FormatError>(
                (t, q + opt_block_bytes(tag, o).len()),
            )
        },
{
    if let Some(t) = o {
        lemma_u32_bytes(tag);
        lemma_u32_bytes(t.number_of_tracks);
        lemma_u32_bytes(t.interpolation_type);
        lemma_u32_bytes(t.global_sequence_id);
        crate::codec::lemma_split(b, q, u32_bytes(tag), transform_bytes(t));
        lemma_transform_round_trip(t, b, q + 4);
    }
}

/// Writes an optional sub-block: its tag then the transform, if present.
pub fn write_opt_block<T: Element>(out: &mut Vec<u8>, tag: u32, o: &Option<Transform<T>>)
    ensures
        final(out)@ == old(out)@ + opt_block_bytes(tag, opt_view(*o)),
{
    match o {
        Some(t) => {
            let ghost start = out@;
            write_u32(out, tag);
            t.encode(out);
            assert(out@ =~= start + opt_block_bytes(tag, opt_view(*o)));
        },
        None => {
            assert(out@ =~= old(out)@ + opt_block_bytes(tag, opt_view(*o)));
        },
    }
}

/// The encoded length of an optional sub-block, clamped to `usize::MAX`.
pub fn opt_block_size<T: Element>(o: &Option<Transform<T>>) -> (r: usize)
    ensures
        r == sat(opt_block_bytes(0, opt_view(*o)).len() as int),
        forall|tag: u32| #[trigger] opt_block_bytes(tag, opt_view(*o)).len() == opt_block_bytes(
            0,
            opt_view(*o),
        ).len(),
{
    proof {
        assert forall|tag: u32| #[trigger] opt_block_bytes(tag, opt_view(*o)).len() == opt_block_bytes(
            0,
            opt_view(*o),
        ).len() by {
            lemma_u32_bytes(tag);
            lemma_u32_bytes(0);
        }
    }
    match o {
        Some(t) => {
            let k = t.total_bytes_size();
            proof {
                lemma_u32_bytes(0);
                lemma_sat_add(4, transform_bytes(t@).len() as int);
            }
            add_sat(4, k)
        },
        None => 0,
    }
}

impl<T: Element> Transform<T> {
    pub fn decode(src: &[u8], pos: usize) -> (r: Result<(Transform<T>, usize), FormatError>)
        requires
            pos <= src.len(),
        ensures
            parse_transform::<T>(src@, pos as int) == match r {
                Ok((v, p)) => Ok((v@, p as int)),
                Err(e) => Err(e),
            },
            r matches Ok((_, p)) ==> pos + 12 <= p <= src.len(),
    {
        proof {
            reveal(parse_transform);
        }
        if src.len() - pos < 12 {
            return Err(FormatError::OutOfBounds);
        }
        let number_of_tracks = read_u32(src, pos);
        let interpolation_type = read_u32(src, pos + 4);
        let global_sequence_id = read_u32(src, pos + 8);
        let w = T::byte_width();
        let tangents = interpolation_type > 1;
        let tw: usize = if tangents {
            4 + 3 * w
        } else {
            4 + w
        };
        let n = number_of_tracks as usize;
        let start = pos + 12;
        let room = src.len() - start;
        proof {
            lemma_fits(n as int, tw as int, room as int);
        }
        if n > room / tw {
            return Err(FormatError::OutOfBounds);
        }
        let ghost it = interpolation_type;
        let mut data: Vec<Track<T>> = Vec::new();
        let mut i: usize = 0;
        let mut p: usize = start;
        while i < n
            invariant
                w == T::width(),
                w <= 64,
                tw == track_width::<T>(it),
                tangents == has_tangents(it),
                n * tw <= room,
                room == src.len() - start,
                start <= src.len(),
                i <= n,
                p == start + i * tw,
                data@ == Seq::new(i as nat, |j: int| parse_track::<T>(src@, start + j * tw, it)),
            decreases n - i,
        {
            assert((i + 1) * tw <= n * tw) by (nonlinear_arith)
                requires
                    i < n,
                    tw > 0,
            ;
            assert((i + 1) * tw == i * tw + tw) by (nonlinear_arith);
            let time = read_u32(src, p);
            let value = T::read_at(src, p + 4);
            let (in_tan, out_tan) = if tangents {
                (Some(T::read_at(src, p + 4 + w)), Some(T::read_at(src, p + 4 + 2 * w)))
            } else {
                (None, None)
            };
            data.push(Track { time, value, in_tan, out_tan });
            assert(data@ =~= Seq::new(
                (i + 1) as nat,
                |j: int| parse_track::<T>(src@, start + j * tw, it),
            ));
            p = p + tw;
            i = i + 1;
        }
        Ok((Transform { number_of_tracks, interpolation_type, global_sequence_id, data }, p))
    }

    pub fn encode(&self, out: &mut Vec<u8>)
        ensures
            final(out)@ == old(out)@ + transform_bytes(self@),
    {
        let ghost start = out@;
        write_u32(out, self.number_of_tracks);
        write_u32(out, self.interpolation_type);
        write_u32(out, self.global_sequence_id);
        let ghost head = out@;
        let mut i: usize = 0;
        while i < self.data.len()
            invariant
                i <= self.data@.len(),
                out@ == head + tracks_bytes(self.data@.take(i as int)),
            decreases self.data@.len() - i,
        {
            proof {
                lemma_tracks_take(self.data@, i as int);
            }
            let t = &self.data[i];
            write_u32(out, t.time);
            t.value.write_to(out);
            match t.in_tan {
                Some(x) => x.write_to(out),
                None => {},
            }
            match t.out_tan {
                Some(x) => x.write_to(out),
                None => {},
            }
            i = i + 1;
        }
        assert(self.data@.take(i as int) =~= self.data@);
    }

}

impl<T: Element> BytesTotalSize for Transform<T> {
    open spec fn model_bytes(m: TransformModel<T>) -> Seq<u8> {
        transform_bytes(m)
    }

    fn total_bytes_size(&self) -> (r: usize) {
        let w = T::byte_width();
        let mut r: usize = 12;
        let mut i: usize = 0;
        while i < self.data.len()
            invariant
                w == T::width(),
                w <= 64,
                i <= self.data@.len(),
                r == sat(12 + tracks_bytes(self.data@.take(i as int)).len() as int),
            decreases self.data@.len() - i,
        {
            let t = &self.data[i];
            proof {
                lemma_tracks_take(self.data@, i as int);
                lemma_u32_bytes(t.time);
                t.value.lemma_codec(Seq::empty(), 0);
                if t.in_tan is Some {
                    t.in_tan.unwrap().lemma_codec(Seq::empty(), 0);
                }
                if t.out_tan is Some {
                    t.out_tan.unwrap().lemma_codec(Seq::empty(), 0);
                }
            }
            let mut k: usize = 4 + w;
            if t.in_tan.is_some() {
                k = k + w;
            }
            if t.out_tan.is_some() {
                k = k + w;
            }
            proof {
                lemma_sat_add(12 + tracks_bytes(self.data@.take(i as int)).len() as int, k as int);
            }
            r = add_sat(r, k);
            i = i + 1;
        }
        assert(self.data@.take(i as int) =~= self.data@);
        proof {
            lemma_u32_bytes(self.number_of_tracks);
            lemma_u32_bytes(self.interpolation_type);
            lemma_u32_bytes(self.global_sequence_id);
        }
        r
    }
}

} // verus!
