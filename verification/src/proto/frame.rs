//! A byte followed by a payload: responses and the frames of a stream.

use crate::buffer;
use crate::proto::wire;
use crate::proto::wire::{Read, Span};
use crate::proto::{Part, ProtoError, Response, ResponseView, StreamFrame, StreamFrameView};
use bytes::Bytes;
use vstd::prelude::*;

verus! {

/// The bytes of a tag with its payload.
pub open spec fn tagged_bytes(tag: u8, payload: Seq<u8>) -> Seq<u8> {
    seq![tag] + wire::part_bytes(payload)
}

/// The tag and the payload at the start of `s`.
pub open spec fn parse_tagged(s: Seq<u8>, part: Part) -> wire::Parsed<(u8, Seq<u8>)> {
    if s.len() < 1 {
        wire::Parsed::More(1)
    } else {
        match wire::parse_part(s.skip(1), part) {
            wire::Parsed::More(n) => wire::Parsed::More(n),
            wire::Parsed::Fail(e) => wire::Parsed::Fail(e),
            wire::Parsed::Done(payload, n) => wire::Parsed::Done((s[0], payload), 1 + n),
        }
    }
}

/// The bytes of a response.
pub open spec fn response_bytes(resp: ResponseView) -> Seq<u8> {
    tagged_bytes(resp.status, resp.payload)
}

/// The response at the start of `s`, as `part` limits it.
pub open spec fn parse_response_as(s: Seq<u8>, part: Part) -> wire::Parsed<ResponseView> {
    match parse_tagged(s, part) {
        wire::Parsed::More(n) => wire::Parsed::More(n),
        wire::Parsed::Fail(e) => wire::Parsed::Fail(e),
        wire::Parsed::Done(t, n) => wire::Parsed::Done(
            ResponseView { status: t.0, payload: t.1 },
            n,
        ),
    }
}

/// The response at the start of `s`.
pub open spec fn parse_response(s: Seq<u8>) -> wire::Parsed<ResponseView> {
    parse_response_as(s, Part::Response)
}

/// The bytes of a frame.
pub open spec fn frame_bytes(frame: StreamFrameView) -> Seq<u8> {
    tagged_bytes(frame.kind, frame.payload)
}

/// The frame at the start of `s`.
pub open spec fn parse_frame(s: Seq<u8>) -> wire::Parsed<StreamFrameView> {
    match parse_tagged(s, Part::Stream) {
        wire::Parsed::More(n) => wire::Parsed::More(n),
        wire::Parsed::Fail(e) => wire::Parsed::Fail(e),
        wire::Parsed::Done(t, n) => wire::Parsed::Done(
            StreamFrameView { kind: t.0, payload: t.1 },
            n,
        ),
    }
}

/// Where a tag's payload lies in a slice.
pub(crate) enum Tagged {
    Done(u8, usize, usize),
    More(usize),
    Fail(ProtoError),
}

/// Finds the tag and the payload that start at `at`.
pub(crate) fn find_tagged(s: &[u8], at: usize, part: Part) -> (r: Tagged)
    requires
        at <= s@.len(),
    ensures
        match r {
            Tagged::Done(tag, from, to) => at <= from <= to <= s@.len() && parse_tagged(
                s@.skip(at as int),
                part,
            ) == wire::Parsed::Done((tag, s@.subrange(from as int, to as int)), (to - at) as nat),
            Tagged::More(n) => parse_tagged(s@.skip(at as int), part) == wire::Parsed::<
                (u8, Seq<u8>),
            >::More(n as nat),
            Tagged::Fail(e) => parse_tagged(s@.skip(at as int), part) == wire::Parsed::<
                (u8, Seq<u8>),
            >::Fail(e),
        },
{
    if s.len() - at < 1 {
        return Tagged::More(1);
    }
    assert(s@.skip(at as int).skip(1) =~= s@.skip(at + 1));
    match wire::find_part(s, at + 1, part) {
        Span::Done(from, to) => Tagged::Done(s[at], from, to),
        Span::More(n) => Tagged::More(n),
        Span::Fail(e) => Tagged::Fail(e),
    }
}

/// Appends a tag with its payload.
pub(crate) fn put_tagged(out: &mut Vec<u8>, tag: u8, payload: &Bytes)
    ensures
        final(out)@ == old(out)@ + tagged_bytes(tag, buffer::bytes_of(*payload)),
{
    out.push(tag);
    wire::put_part(out, buffer::as_slice(payload));
    assert(out@ =~= old(out)@ + tagged_bytes(tag, buffer::bytes_of(*payload)));
}

/// Writes a response.
pub fn write_response(resp: &Response) -> (out: Vec<u8>)
    ensures
        out@ == response_bytes(resp@),
{
    let mut out: Vec<u8> = Vec::new();
    put_tagged(&mut out, resp.status, &resp.payload);
    assert(out@ =~= response_bytes(resp@));
    out
}

/// Reads a response.
pub fn read_response(input: &[u8]) -> (r: Read<Response>)
    ensures
        wire::reads(r, parse_response(input@)),
{
    assert(input@.skip(0) =~= input@);
    match find_tagged(input, 0, Part::Response) {
        Tagged::More(n) => Read::More(n),
        Tagged::Fail(e) => Read::Fail(e),
        Tagged::Done(status, from, to) => {
            let payload = Bytes::copy_from_slice(vstd::slice::slice_subrange(input, from, to));
            Read::Done(Response { status, payload }, to)
        },
    }
}

/// Writes a frame.
pub fn write_stream_frame(frame: &StreamFrame) -> (out: Vec<u8>)
    ensures
        out@ == frame_bytes(frame@),
{
    let mut out: Vec<u8> = Vec::new();
    put_tagged(&mut out, frame.kind, &frame.payload);
    assert(out@ =~= frame_bytes(frame@));
    out
}

/// Reads a frame.
pub fn read_stream_frame(input: &[u8]) -> (r: Read<StreamFrame>)
    ensures
        wire::reads(r, parse_frame(input@)),
{
    assert(input@.skip(0) =~= input@);
    match find_tagged(input, 0, Part::Stream) {
        Tagged::More(n) => Read::More(n),
        Tagged::Fail(e) => Read::Fail(e),
        Tagged::Done(kind, from, to) => {
            let payload = Bytes::copy_from_slice(vstd::slice::slice_subrange(input, from, to));
            Read::Done(StreamFrame { kind, payload }, to)
        },
    }
}

/// Reading a tag and a payload gives back what was written, whatever follows.
pub proof fn tagged_reads_back(tag: u8, payload: Seq<u8>, part: Part, rest: Seq<u8>)
    requires
        payload.len() <= part.limit(),
    ensures
        parse_tagged(tagged_bytes(tag, payload) + rest, part) == wire::Parsed::Done(
            (tag, payload),
            tagged_bytes(tag, payload).len(),
        ),
{
    let s = tagged_bytes(tag, payload) + rest;
    assert(s.skip(1) =~= wire::part_bytes(payload) + rest);
    wire::part_reads_back(payload, part, rest);
}

/// The bytes that a tag and a payload were read from are those they are
/// written as.
pub proof fn tagged_writes_back(s: Seq<u8>, part: Part)
    ensures
        match parse_tagged(s, part) {
            wire::Parsed::Done(t, n) => n <= s.len() && t.1.len() <= part.limit() && tagged_bytes(
                t.0,
                t.1,
            ) == s.take(n as int),
            _ => true,
        },
{
    if s.len() >= 1 {
        wire::part_writes_back(s.skip(1), part);
        if let wire::Parsed::Done(t, n) = parse_tagged(s, part) {
            assert(tagged_bytes(t.0, t.1) =~= s.take(n as int));
        }
    }
}

/// Reading a tag and a payload decides nothing too early and asks for nothing
/// beyond them.
pub proof fn tagged_is_exact(s: Seq<u8>, t: Seq<u8>, part: Part)
    ensures
        wire::extends(parse_tagged(s, part), s.len(), t.len(), parse_tagged(s + t, part)),
{
    if s.len() >= 1 {
        assert((s + t).skip(1) =~= s.skip(1) + t);
        wire::part_is_exact(s.skip(1), t, part);
    } else if t.len() == 1 {
        assert((s + t).skip(1) =~= Seq::<u8>::empty());
    }
}

/// Reading a response gives back the response that was written, whatever
/// follows; and the bytes that a response was read from are those it is
/// written as.
pub proof fn response_round_trip(resp: ResponseView, rest: Seq<u8>, s: Seq<u8>)
    ensures
        resp.payload.len() <= Part::Response.limit() ==> parse_response(
            response_bytes(resp) + rest,
        ) == wire::Parsed::Done(resp, response_bytes(resp).len()),
        match parse_response(s) {
            wire::Parsed::Done(r, n) => n <= s.len() && response_bytes(r) == s.take(n as int),
            _ => true,
        },
{
    if resp.payload.len() <= Part::Response.limit() {
        tagged_reads_back(resp.status, resp.payload, Part::Response, rest);
    }
    tagged_writes_back(s, Part::Response);
}

/// Reading a frame gives back the frame that was written, whatever follows;
/// and the bytes that a frame was read from are those it is written as.
pub proof fn frame_round_trip(frame: StreamFrameView, rest: Seq<u8>, s: Seq<u8>)
    ensures
        frame.payload.len() <= Part::Stream.limit() ==> parse_frame(frame_bytes(frame) + rest)
            == wire::Parsed::Done(frame, frame_bytes(frame).len()),
        match parse_frame(s) {
            wire::Parsed::Done(f, n) => n <= s.len() && frame_bytes(f) == s.take(n as int),
            _ => true,
        },
{
    if frame.payload.len() <= Part::Stream.limit() {
        tagged_reads_back(frame.kind, frame.payload, Part::Stream, rest);
    }
    tagged_writes_back(s, Part::Stream);
}

/// Reading a response or a frame decides nothing too early and asks for nothing
/// beyond it.
pub proof fn frames_are_exact(s: Seq<u8>, t: Seq<u8>)
    ensures
        wire::extends(parse_response(s), s.len(), t.len(), parse_response(s + t)),
        wire::extends(parse_frame(s), s.len(), t.len(), parse_frame(s + t)),
{
    tagged_is_exact(s, t, Part::Response);
    tagged_is_exact(s, t, Part::Stream);
}

/// A response is its status and then its payload as a part; a frame is its kind
/// and then its payload as a part.
pub proof fn frame_layout(resp: ResponseView, frame: StreamFrameView)
    ensures
        response_bytes(resp)[0] == resp.status,
        response_bytes(resp).skip(1) == wire::part_bytes(resp.payload),
        frame_bytes(frame)[0] == frame.kind,
        frame_bytes(frame).skip(1) == wire::part_bytes(frame.payload),
{
    assert(response_bytes(resp).skip(1) =~= wire::part_bytes(resp.payload));
    assert(frame_bytes(frame).skip(1) =~= wire::part_bytes(frame.payload));
}

/// Responses and frames are refused if and only if their payload is, and for
/// that reason.
pub proof fn frames_are_refused_by_part(s: Seq<u8>)
    requires
        s.len() >= 1,
    ensures
        match (parse_response(s), wire::parse_part(s.skip(1), Part::Response)) {
            (wire::Parsed::Done(r, n), wire::Parsed::Done(data, m)) => r.status == s[0] && r.payload
                == data && n == m + 1,
            (wire::Parsed::More(n), wire::Parsed::More(m)) => n == m,
            (wire::Parsed::Fail(a), wire::Parsed::Fail(b)) => a == b,
            _ => false,
        },
        match (parse_frame(s), wire::parse_part(s.skip(1), Part::Stream)) {
            (wire::Parsed::Done(f, n), wire::Parsed::Done(data, m)) => f.kind == s[0] && f.payload
                == data && n == m + 1,
            (wire::Parsed::More(n), wire::Parsed::More(m)) => n == m,
            (wire::Parsed::Fail(a), wire::Parsed::Fail(b)) => a == b,
            _ => false,
        },
{
}

/// A response that was written is read, whatever follows it, with its own
/// status and payload, and nothing more is taken.
pub proof fn written_responses_are_read(
    resp: Response,
    out: Vec<u8>,
    rest: Seq<u8>,
    input: &[u8],
    r: Read<Response>,
)
    requires
        call_ensures(write_response, (&resp,), out),
        input@ == out@ + rest,
        call_ensures(read_response, (input,), r),
        buffer::bytes_of(resp.payload).len() <= 512 * 1024 * 1024,
    ensures
        r matches Read::Done(back, n) && n == out@.len() && back.status == resp.status
            && buffer::bytes_of(back.payload) == buffer::bytes_of(resp.payload),
{
    response_round_trip(resp@, rest, Seq::empty());
}

/// A frame that was written is read, whatever follows it, with its own kind and
/// payload, and nothing more is taken.
pub proof fn written_frames_are_read(
    frame: StreamFrame,
    out: Vec<u8>,
    rest: Seq<u8>,
    input: &[u8],
    r: Read<StreamFrame>,
)
    requires
        call_ensures(write_stream_frame, (&frame,), out),
        input@ == out@ + rest,
        call_ensures(read_stream_frame, (input,), r),
        buffer::bytes_of(frame.payload).len() <= 512 * 1024 * 1024,
    ensures
        r matches Read::Done(back, n) && n == out@.len() && back.kind == frame.kind
            && buffer::bytes_of(back.payload) == buffer::bytes_of(frame.payload),
{
    frame_round_trip(frame@, rest, Seq::empty());
}

} // verus!
