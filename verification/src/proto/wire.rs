//! Length-prefixed parts: the building blocks of all messages.

use crate::le;
use crate::proto::{Part, ProtoError};
use vstd::prelude::*;

verus! {

broadcast use le::group_le;

/// What reading the start of a byte stream comes to.
#[derive(Debug)]
pub enum Read<T> {
    /// A value, and how many bytes it took.
    Done(T, usize),
    /// The bytes end too early: this many must follow before anything else can
    /// be decided.
    More(usize),
    /// The bytes are refused.
    Fail(ProtoError),
}

/// What reading the start of a byte sequence comes to.
#[verifier::ext_equal]
pub enum Parsed<V> {
    Done(V, nat),
    More(nat),
    Fail(ProtoError),
}

/// Whether a reader's outcome is what the bytes call for.
pub open spec fn reads<T: View>(r: Read<T>, p: Parsed<T::V>) -> bool {
    match r {
        Read::Done(v, n) => p == Parsed::Done(v@, n as nat),
        Read::More(n) => p == Parsed::<T::V>::More(n as nat),
        Read::Fail(e) => p == Parsed::<T::V>::Fail(e),
    }
}

/// The length prefix that bytes get.
pub open spec fn prefix(len: nat) -> Seq<u8> {
    le::le32(len as int % 0x1_0000_0000)
}

/// Bytes behind their length.
pub open spec fn part_bytes(data: Seq<u8>) -> Seq<u8> {
    prefix(data.len()) + data
}

/// The part at the start of `s`.
pub open spec fn parse_part(s: Seq<u8>, part: Part) -> Parsed<Seq<u8>> {
    if s.len() < 4 {
        Parsed::More((4 - s.len()) as nat)
    } else {
        let n = le::le32_value(s.subrange(0, 4));
        if n > part.limit() {
            Parsed::Fail(ProtoError::TooLarge(part, n as u32))
        } else if s.len() < 4 + n {
            Parsed::More((4 + n - s.len()) as nat)
        } else {
            Parsed::Done(s.subrange(4, 4 + n), (4 + n) as nat)
        }
    }
}

/// The audio that a part of these bytes stands for: an empty one for none.
pub open spec fn audio_of(data: Seq<u8>) -> Option<Seq<u8>> {
    if data.len() == 0 {
        None
    } else {
        Some(data)
    }
}

/// The bytes that stand for audio: none for no audio.
pub open spec fn audio_data(audio: Option<Seq<u8>>) -> Seq<u8> {
    match audio {
        Some(data) => data,
        None => Seq::empty(),
    }
}

/// Where a part lies in a slice.
pub(crate) enum Span {
    Done(usize, usize),
    More(usize),
    Fail(ProtoError),
}

/// Finds the part that starts at `at`.
pub(crate) fn find_part(s: &[u8], at: usize, part: Part) -> (r: Span)
    requires
        at <= s@.len(),
    ensures
        match r {
            Span::Done(from, to) => at <= from <= to <= s@.len() && parse_part(
                s@.skip(at as int),
                part,
            ) == Parsed::Done(s@.subrange(from as int, to as int), (to - at) as nat),
            Span::More(n) => parse_part(s@.skip(at as int), part) == Parsed::<Seq<u8>>::More(
                n as nat,
            ),
            Span::Fail(e) => parse_part(s@.skip(at as int), part) == Parsed::<Seq<u8>>::Fail(e),
        },
{
    let left: usize = s.len() - at;
    if left < 4 {
        return Span::More(4 - left);
    }
    let n = le::get_u32(s, at);
    assert(s@.skip(at as int).subrange(0, 4) =~= s@.subrange(at as int, at + 4));
    if n > part.max_len() {
        return Span::Fail(ProtoError::TooLarge(part, n));
    }
    let n: usize = n as usize;
    if left - 4 < n {
        return Span::More(n - (left - 4));
    }
    assert(s@.skip(at as int).subrange(4, 4 + n) =~= s@.subrange(at + 4, at + 4 + n));
    Span::Done(at + 4, at + 4 + n)
}

/// Appends bytes behind their length, of which only the low 32 bits are kept.
pub(crate) fn put_part(out: &mut Vec<u8>, data: &[u8])
    ensures
        final(out)@ == old(out)@ + part_bytes(data@),
{
    let n: u32 = ((data.len() as u64) % 0x1_0000_0000) as u32;
    le::put_u32(out, n);
    le::put_slice(out, data);
    assert(out@ =~= old(out)@ + part_bytes(data@));
}

/// Reading a part gives back the bytes that were written, whatever follows.
pub proof fn part_reads_back(data: Seq<u8>, part: Part, rest: Seq<u8>)
    requires
        data.len() <= part.limit(),
    ensures
        parse_part(part_bytes(data) + rest, part) == Parsed::Done(data, part_bytes(data).len()),
        part_bytes(data).len() == 4 + data.len(),
{
    let s = part_bytes(data) + rest;
    assert(s.subrange(0, 4) =~= prefix(data.len()));
    le::le32_reads_back(data.len() as int);
    assert(s.subrange(4, 4 + data.len() as int) =~= data);
}

/// The bytes that a part was read from are those it is written as.
pub proof fn part_writes_back(s: Seq<u8>, part: Part)
    ensures
        match parse_part(s, part) {
            Parsed::Done(data, n) => n <= s.len() && data.len() <= part.limit() && part_bytes(data)
                == s.take(n as int),
            _ => true,
        },
{
    if let Parsed::Done(data, n) = parse_part(s, part) {
        le::le32_writes_back(s.subrange(0, 4));
        assert(part_bytes(data) =~= s.take(n as int));
    }
}

/// What more bytes do to the outcome of reading.
pub open spec fn extends<V>(before: Parsed<V>, len: nat, more: nat, after: Parsed<V>) -> bool {
    match before {
        Parsed::Done(v, n) => n <= len && after == before,
        Parsed::Fail(e) => after == before,
        Parsed::More(n) => {
            &&& n > 0
            &&& more < n ==> after == Parsed::<V>::More((n - more) as nat)
            &&& more == n ==> match after {
                Parsed::Done(v, used) => used == len + more,
                _ => true,
            }
        },
    }
}

/// Reading a part decides nothing too early and asks for nothing beyond it: an
/// outcome stands whatever follows, fewer bytes than asked for are asked for
/// again, and a value that the bytes asked for complete ends with them.
pub proof fn part_is_exact(s: Seq<u8>, t: Seq<u8>, part: Part)
    ensures
        extends(parse_part(s, part), s.len(), t.len(), parse_part(s + t, part)),
{
    if s.len() >= 4 {
        assert((s + t).subrange(0, 4) =~= s.subrange(0, 4));
        if let Parsed::Done(data, n) = parse_part(s, part) {
            assert((s + t).subrange(4, n as int) =~= s.subrange(4, n as int));
        }
    } else if t.len() == 4 - s.len() {
    }
}

/// A part is its length, as four bytes with the lowest first, and then its
/// bytes as they are.
pub proof fn part_layout(data: Seq<u8>)
    requires
        data.len() < 0x1_0000_0000,
    ensures
        ({
            let b = part_bytes(data);
            &&& b.len() == 4 + data.len()
            &&& b[0] + 256 * b[1] + 65536 * b[2] + 16777216 * b[3] == data.len()
            &&& b.subrange(4, b.len() as int) == data
        }),
{
    let b = part_bytes(data);
    le::le32_spells(data.len() as int);
    assert(b.subrange(4, b.len() as int) =~= data);
}

/// A part whose length is announced as `n` is refused if and only if `n` is
/// over the limit, naming the part and the length; it is asked for until all of
/// it is there; and then it is the `n` bytes behind the length.
pub proof fn part_is_what_is_announced(s: Seq<u8>, part: Part, n: int)
    requires
        s.len() >= 4,
        n == s[0] + 256 * s[1] + 65536 * s[2] + 16777216 * s[3],
    ensures
        match parse_part(s, part) {
            Parsed::Fail(e) => n > part.limit() && e == ProtoError::TooLarge(part, n as u32),
            Parsed::More(m) => n <= part.limit() && m > 0 && s.len() + m == 4 + n,
            Parsed::Done(data, used) => n <= part.limit() && used == 4 + n && used <= s.len() && data
                == s.subrange(4, 4 + n),
        },
{
    assert(s.subrange(0, 4) =~= seq![s[0], s[1], s[2], s[3]]);
    le::bytes_spell(s[0], s[1], s[2], s[3]);
}

/// Until its length is there, a part is asked for byte for byte of it.
pub proof fn length_comes_first(s: Seq<u8>, part: Part)
    requires
        s.len() < 4,
    ensures
        parse_part(s, part) matches Parsed::More(m) && s.len() + m == 4,
{
}

/// Audio travels as its bytes, and no audio as none; bytes arrive as audio, and
/// none as no audio.
pub proof fn audio_travels(audio: Option<Seq<u8>>, data: Seq<u8>)
    ensures
        audio matches Some(a) ==> audio_data(audio) == a,
        audio is None ==> audio_data(audio).len() == 0,
        audio_of(data) matches Some(a) ==> a == data && data.len() > 0,
        audio_of(data) is None ==> data.len() == 0,
{
}

} // verus!
