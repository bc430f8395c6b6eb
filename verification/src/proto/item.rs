//! A JSON part followed by an audio part: the body of a request and of each
//! element of a batch.

use crate::buffer;
use crate::proto::wire;
use crate::proto::wire::Span;
use crate::proto::{BatchItem, BatchItemView, Part, ProtoError};
use bytes::Bytes;
use vstd::prelude::*;

verus! {

/// The bytes of an item. Empty audio is written like no audio.
pub open spec fn item_bytes(item: BatchItemView) -> Seq<u8> {
    wire::part_bytes(item.json) + wire::part_bytes(wire::audio_data(item.audio))
}

/// The item with empty audio taken for none.
pub open spec fn canonical(item: BatchItemView) -> BatchItemView {
    BatchItemView { json: item.json, audio: wire::audio_of(wire::audio_data(item.audio)) }
}

/// The item at the start of `s`.
pub open spec fn parse_item(s: Seq<u8>, json: Part, audio: Part) -> wire::Parsed<BatchItemView> {
    match wire::parse_part(s, json) {
        wire::Parsed::More(n) => wire::Parsed::More(n),
        wire::Parsed::Fail(e) => wire::Parsed::Fail(e),
        wire::Parsed::Done(json_data, n) => match wire::parse_part(s.skip(n as int), audio) {
            wire::Parsed::More(m) => wire::Parsed::More(m),
            wire::Parsed::Fail(e) => wire::Parsed::Fail(e),
            wire::Parsed::Done(audio_data, m) => wire::Parsed::Done(
                BatchItemView { json: json_data, audio: wire::audio_of(audio_data) },
                n + m,
            ),
        },
    }
}

/// Whether an item is within the limits of a reader.
pub open spec fn fits(item: BatchItemView, json: Part, audio: Part) -> bool {
    item.json.len() <= json.limit() && wire::audio_data(item.audio).len() <= audio.limit()
}

/// Where an item lies in a slice.
pub(crate) struct ItemSpan {
    pub json: (usize, usize),
    pub audio: (usize, usize),
}

/// Where an item lies, or why it cannot be had.
pub(crate) enum Found {
    Done(ItemSpan),
    More(usize),
    Fail(ProtoError),
}

impl ItemSpan {
    /// Whether the span lies within `s`.
    pub(crate) open spec fn within(self, s: Seq<u8>) -> bool {
        self.json.0 <= self.json.1 <= s.len() && self.audio.0 <= self.audio.1 <= s.len()
    }

    /// The item that lies there.
    pub(crate) open spec fn item(self, s: Seq<u8>) -> BatchItemView {
        BatchItemView {
            json: s.subrange(self.json.0 as int, self.json.1 as int),
            audio: wire::audio_of(s.subrange(self.audio.0 as int, self.audio.1 as int)),
        }
    }

    /// Copies the item out.
    pub(crate) fn copy(&self, s: &[u8]) -> (item: BatchItem)
        requires
            self.within(s@),
        ensures
            item@ == self.item(s@),
    {
        let json = Bytes::copy_from_slice(
            vstd::slice::slice_subrange(s, self.json.0, self.json.1),
        );
        let audio = if self.audio.0 == self.audio.1 {
            None
        } else {
            Some(
                Bytes::copy_from_slice(
                    vstd::slice::slice_subrange(s, self.audio.0, self.audio.1),
                ),
            )
        };
        BatchItem { json, audio }
    }
}

/// Finds the item that starts at `at`.
pub(crate) fn find_item(s: &[u8], at: usize, json: Part, audio: Part) -> (r: Found)
    requires
        at <= s@.len(),
    ensures
        match r {
            Found::Done(span) => at <= span.audio.1 && span.within(s@) && parse_item(
                s@.skip(at as int),
                json,
                audio,
            ) == wire::Parsed::Done(span.item(s@), (span.audio.1 - at) as nat),
            Found::More(n) => parse_item(s@.skip(at as int), json, audio)
                == wire::Parsed::<BatchItemView>::More(n as nat),
            Found::Fail(e) => parse_item(s@.skip(at as int), json, audio)
                == wire::Parsed::<BatchItemView>::Fail(e),
        },
{
    let (json_from, json_to) = match wire::find_part(s, at, json) {
        Span::Done(from, to) => (from, to),
        Span::More(n) => return Found::More(n),
        Span::Fail(e) => return Found::Fail(e),
    };
    assert(s@.skip(at as int).skip(json_to - at) =~= s@.skip(json_to as int));
    match wire::find_part(s, json_to, audio) {
        Span::Done(from, to) => Found::Done(
            ItemSpan { json: (json_from, json_to), audio: (from, to) },
        ),
        Span::More(n) => Found::More(n),
        Span::Fail(e) => Found::Fail(e),
    }
}

/// Appends an item.
pub(crate) fn put_item(out: &mut Vec<u8>, json: &Bytes, audio: &Option<Bytes>)
    ensures
        final(out)@ == old(out)@ + item_bytes(
            BatchItemView { json: buffer::bytes_of(*json), audio: buffer::opt_bytes(*audio) },
        ),
{
    wire::put_part(out, buffer::as_slice(json));
    match audio {
        Some(data) => wire::put_part(out, buffer::as_slice(data)),
        None => wire::put_part(out, &[]),
    }
    assert(out@ =~= old(out)@ + item_bytes(
        BatchItemView { json: buffer::bytes_of(*json), audio: buffer::opt_bytes(*audio) },
    ));
}

/// Reading an item gives back what was written, whatever follows.
pub proof fn item_reads_back(item: BatchItemView, json: Part, audio: Part, rest: Seq<u8>)
    requires
        fits(item, json, audio),
    ensures
        parse_item(item_bytes(item) + rest, json, audio) == wire::Parsed::Done(
            canonical(item),
            item_bytes(item).len(),
        ),
{
    let a = wire::part_bytes(item.json);
    let b = wire::part_bytes(wire::audio_data(item.audio));
    let s = item_bytes(item) + rest;
    assert(s =~= a + (b + rest));
    wire::part_reads_back(item.json, json, b + rest);
    assert(s.skip(a.len() as int) =~= b + rest);
    wire::part_reads_back(wire::audio_data(item.audio), audio, rest);
}

/// The bytes that an item was read from are those it is written as.
pub proof fn item_writes_back(s: Seq<u8>, json: Part, audio: Part)
    ensures
        match parse_item(s, json, audio) {
            wire::Parsed::Done(item, n) => n <= s.len() && fits(item, json, audio) && canonical(item)
                == item && item_bytes(item) == s.take(n as int),
            _ => true,
        },
{
    wire::part_writes_back(s, json);
    if let wire::Parsed::Done(json_data, n) = wire::parse_part(s, json) {
        wire::part_writes_back(s.skip(n as int), audio);
        if let wire::Parsed::Done(audio_data, m) = wire::parse_part(s.skip(n as int), audio) {
            let item = BatchItemView { json: json_data, audio: wire::audio_of(audio_data) };
            assert(wire::audio_data(item.audio) =~= audio_data);
            assert(item_bytes(item) =~= s.take((n + m) as int));
        }
    }
}

/// Reading an item decides nothing too early and asks for nothing beyond it.
pub proof fn item_is_exact(s: Seq<u8>, t: Seq<u8>, json: Part, audio: Part)
    ensures
        wire::extends(parse_item(s, json, audio), s.len(), t.len(), parse_item(s + t, json, audio)),
{
    wire::part_is_exact(s, t, json);
    match wire::parse_part(s, json) {
        wire::Parsed::Done(json_data, n) => {
            assert((s + t).skip(n as int) =~= s.skip(n as int) + t);
            wire::part_is_exact(s.skip(n as int), t, audio);
        },
        wire::Parsed::More(n) => {
            if t.len() == n {
                if let wire::Parsed::Done(json_data, used) = wire::parse_part(s + t, json) {
                    assert((s + t).skip(used as int) =~= Seq::<u8>::empty());
                }
            }
        },
        wire::Parsed::Fail(e) => {},
    }
}

/// An item is its JSON and then its audio, each as a part; no audio is an empty
/// part.
pub proof fn item_layout(item: BatchItemView)
    ensures
        match item.audio {
            Some(a) => item_bytes(item) == wire::part_bytes(item.json) + wire::part_bytes(a),
            None => item_bytes(item) == wire::part_bytes(item.json) + wire::part_bytes(
                Seq::empty(),
            ),
        },
{
}

/// Taking empty audio for none changes nothing else.
pub proof fn canonical_keeps_item(item: BatchItemView)
    ensures
        canonical(item).json == item.json,
        match item.audio {
            Some(a) => canonical(item).audio == if a.len() > 0 {
                Some(a)
            } else {
                None
            },
            None => canonical(item).audio is None,
        },
{
}

/// An item is within the limits if and only if each of its parts is.
pub proof fn fitting_is_by_part(item: BatchItemView, json: Part, audio: Part)
    ensures
        fits(item, json, audio) <==> item.json.len() <= json.limit() && (item.audio matches Some(a)
            ==> a.len() <= audio.limit()),
{
}

/// An item is refused if and only if one of its parts is, and for that reason:
/// the JSON, or, once the JSON is there, the audio.
pub proof fn item_is_refused_by_part(s: Seq<u8>, json: Part, audio: Part)
    ensures
        match wire::parse_part(s, json) {
            wire::Parsed::Fail(e) => parse_item(s, json, audio) == wire::Parsed::<
                BatchItemView,
            >::Fail(e),
            wire::Parsed::More(_) => parse_item(s, json, audio) is More,
            wire::Parsed::Done(_, n) => match wire::parse_part(s.skip(n as int), audio) {
                wire::Parsed::Fail(e) => parse_item(s, json, audio) == wire::Parsed::<
                    BatchItemView,
                >::Fail(e),
                wire::Parsed::More(_) => parse_item(s, json, audio) is More,
                wire::Parsed::Done(_, m) => parse_item(s, json, audio) is Done,
            },
        },
{
}

} // verus!
