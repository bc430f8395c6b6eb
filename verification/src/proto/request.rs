//! Requests: a version, an op, a JSON part and an audio part.

use crate::buffer;
use crate::proto::item;
use crate::proto::item::Found;
use crate::proto::wire;
use crate::proto::wire::Read;
use crate::proto::{BatchItemView, Part, ProtoError, Request, RequestView, PROTO_VERSION};
use vstd::prelude::*;

verus! {

/// The item that makes up a request's body.
pub open spec fn body(req: RequestView) -> BatchItemView {
    BatchItemView { json: req.json, audio: req.audio }
}

/// The bytes of a request.
pub open spec fn request_bytes(req: RequestView) -> Seq<u8> {
    seq![PROTO_VERSION, req.op] + item::item_bytes(body(req))
}

/// The op that stands behind the version at the start of `s`.
pub open spec fn parse_op(s: Seq<u8>) -> wire::Parsed<u8> {
    if s.len() < 1 {
        wire::Parsed::More(1)
    } else if s[0] != PROTO_VERSION {
        wire::Parsed::Fail(ProtoError::Version(s[0]))
    } else if s.len() < 2 {
        wire::Parsed::More(1)
    } else {
        wire::Parsed::Done(s[1], 2)
    }
}

/// The body of a request with a known op at the start of `s`.
pub open spec fn parse_request_body(s: Seq<u8>, op: u8) -> wire::Parsed<RequestView> {
    match item::parse_item(s, Part::Json, Part::Audio) {
        wire::Parsed::More(n) => wire::Parsed::More(n),
        wire::Parsed::Fail(e) => wire::Parsed::Fail(e),
        wire::Parsed::Done(it, n) => wire::Parsed::Done(
            RequestView { op, json: it.json, audio: it.audio },
            n,
        ),
    }
}

/// The request at the start of `s`.
pub open spec fn parse_request(s: Seq<u8>) -> wire::Parsed<RequestView> {
    match parse_op(s) {
        wire::Parsed::More(n) => wire::Parsed::More(n),
        wire::Parsed::Fail(e) => wire::Parsed::Fail(e),
        wire::Parsed::Done(op, n) => match parse_request_body(s.skip(n as int), op) {
            wire::Parsed::More(m) => wire::Parsed::More(m),
            wire::Parsed::Fail(e) => wire::Parsed::Fail(e),
            wire::Parsed::Done(req, m) => wire::Parsed::Done(req, n + m),
        },
    }
}

/// Whether a request is within the limits of a reader.
pub open spec fn fits(req: RequestView) -> bool {
    item::fits(body(req), Part::Json, Part::Audio)
}

/// The request with empty audio taken for none.
pub open spec fn canonical(req: RequestView) -> RequestView {
    let it = item::canonical(body(req));
    RequestView { op: req.op, json: it.json, audio: it.audio }
}

/// Writes a request.
pub fn write_request(req: &Request) -> (out: Vec<u8>)
    ensures
        out@ == request_bytes(req@),
{
    let mut out: Vec<u8> = Vec::new();
    out.push(PROTO_VERSION);
    out.push(req.op);
    item::put_item(&mut out, &req.json, &req.audio);
    assert(out@ =~= request_bytes(req@));
    out
}

/// Reads just the version and the op, so that the reader can choose by op how
/// to read on.
pub fn read_op(input: &[u8]) -> (r: Read<u8>)
    ensures
        wire::reads(r, parse_op(input@)),
{
    if input.len() < 1 {
        return Read::More(1);
    }
    if input[0] != PROTO_VERSION {
        return Read::Fail(ProtoError::Version(input[0]));
    }
    if input.len() < 2 {
        return Read::More(1);
    }
    Read::Done(input[1], 2)
}

/// Reads the body of a single request, given the op already read.
pub fn read_request_body(input: &[u8], op: u8) -> (r: Read<Request>)
    ensures
        wire::reads(r, parse_request_body(input@, op)),
{
    assert(input@.skip(0) =~= input@);
    match item::find_item(input, 0, Part::Json, Part::Audio) {
        Found::More(n) => Read::More(n),
        Found::Fail(e) => Read::Fail(e),
        Found::Done(span) => {
            let it = span.copy(input);
            Read::Done(Request { op, json: it.json, audio: it.audio }, span.audio.1)
        },
    }
}

/// Reads a request.
pub fn read_request(input: &[u8]) -> (r: Read<Request>)
    ensures
        wire::reads(r, parse_request(input@)),
{
    match read_op(input) {
        Read::More(n) => Read::More(n),
        Read::Fail(e) => Read::Fail(e),
        Read::Done(op, n) => {
            let rest = vstd::slice::slice_subrange(input, n, input.len());
            assert(rest@ =~= input@.skip(n as int));
            proof {
                item::item_writes_back(rest@, Part::Json, Part::Audio);
            }
            match read_request_body(rest, op) {
                Read::More(m) => Read::More(m),
                Read::Fail(e) => Read::Fail(e),
                Read::Done(req, m) => Read::Done(req, n + m),
            }
        },
    }
}

/// Reading a request gives back the request that was written, whatever
/// follows. Empty audio comes back as none.
pub proof fn request_reads_back(req: RequestView, rest: Seq<u8>)
    requires
        fits(req),
    ensures
        parse_request(request_bytes(req) + rest) == wire::Parsed::Done(
            canonical(req),
            request_bytes(req).len(),
        ),
{
    let s = request_bytes(req) + rest;
    assert(s.skip(2) =~= item::item_bytes(body(req)) + rest);
    item::item_reads_back(body(req), Part::Json, Part::Audio, rest);
}

/// The bytes that a request was read from are those it is written as.
pub proof fn request_writes_back(s: Seq<u8>)
    ensures
        match parse_request(s) {
            wire::Parsed::Done(req, n) => n <= s.len() && fits(req) && canonical(req) == req
                && request_bytes(req) == s.take(n as int),
            _ => true,
        },
{
    if let wire::Parsed::Done(op, n) = parse_op(s) {
        item::item_writes_back(s.skip(2), Part::Json, Part::Audio);
        if let wire::Parsed::Done(req, m) = parse_request(s) {
            assert(request_bytes(req) =~= s.take(m as int));
        }
    }
}

/// Reading a request decides nothing too early and asks for nothing beyond it.
pub proof fn request_is_exact(s: Seq<u8>, t: Seq<u8>)
    ensures
        wire::extends(parse_request(s), s.len(), t.len(), parse_request(s + t)),
{
    if let wire::Parsed::Done(op, n) = parse_op(s) {
        assert((s + t).skip(2) =~= s.skip(2) + t);
        item::item_is_exact(s.skip(2), t, Part::Json, Part::Audio);
    }
}

/// A request is the version, the op, its JSON and its audio, in this order.
pub proof fn request_layout(req: RequestView)
    ensures
        ({
            let b = request_bytes(req);
            &&& b.len() >= 2
            &&& b[0] == 1
            &&& b[1] == req.op
            &&& match req.audio {
                Some(a) => b.skip(2) == wire::part_bytes(req.json) + wire::part_bytes(a),
                None => b.skip(2) == wire::part_bytes(req.json) + wire::part_bytes(Seq::empty()),
            }
        }),
{
    assert(request_bytes(req).skip(2) =~= item::item_bytes(body(req)));
}

/// Reading a request that was written gives back its op, its JSON and its
/// audio, where empty audio counts as none. This goes for every request whose
/// JSON and audio are within the limits.
pub proof fn request_fields_read_back(req: RequestView, rest: Seq<u8>)
    requires
        req.json.len() <= 1024 * 1024,
        req.audio matches Some(a) ==> a.len() <= 256 * 1024 * 1024,
    ensures
        parse_request(request_bytes(req) + rest) matches wire::Parsed::Done(back, n) && n
            == request_bytes(req).len() && back.op == req.op && back.json == req.json && back.audio
            == match req.audio {
            Some(a) => if a.len() > 0 {
                Some(a)
            } else {
                None
            },
            None => None,
        },
{
    request_reads_back(req, rest);
}

/// A peer of another version is refused at its first byte, and no other is
/// refused for its version.
pub proof fn versions_are_told_apart(s: Seq<u8>)
    requires
        s.len() >= 1,
    ensures
        s[0] != 1 ==> parse_request(s) == wire::Parsed::<RequestView>::Fail(
            ProtoError::Version(s[0]),
        ) && parse_op(s) == wire::Parsed::<u8>::Fail(ProtoError::Version(s[0])),
        s[0] == 1 ==> !(parse_op(s) is Fail) && (s.len() >= 2 ==> parse_op(s)
            == wire::Parsed::Done(s[1], 2)),
        s[0] == 1 && s.len() >= 2 ==> match (parse_request(s), parse_request_body(s.skip(2), s[1])) {
            (wire::Parsed::Done(a, n), wire::Parsed::Done(b, m)) => a == b && n == m + 2,
            (wire::Parsed::More(n), wire::Parsed::More(m)) => n == m,
            (wire::Parsed::Fail(a), wire::Parsed::Fail(b)) => a == b,
            _ => false,
        },
{
}

/// The body of a request is read like that of an item of a batch, with the op
/// that is known.
pub proof fn body_has_the_op(s: Seq<u8>, op: u8)
    ensures
        match (parse_request_body(s, op), item::parse_item(s, Part::Json, Part::Audio)) {
            (wire::Parsed::Done(req, n), wire::Parsed::Done(it, m)) => n == m && req.op == op
                && req.json == it.json && req.audio == it.audio,
            (wire::Parsed::More(n), wire::Parsed::More(m)) => n == m,
            (wire::Parsed::Fail(a), wire::Parsed::Fail(b)) => a == b,
            _ => false,
        },
{
}

/// A request that was written is read, whatever follows it, with its own op,
/// JSON and audio, where empty audio counts as none, and nothing more is taken.
pub proof fn written_requests_are_read(
    req: Request,
    out: Vec<u8>,
    rest: Seq<u8>,
    input: &[u8],
    r: Read<Request>,
)
    requires
        call_ensures(write_request, (&req,), out),
        input@ == out@ + rest,
        call_ensures(read_request, (input,), r),
        buffer::bytes_of(req.json).len() <= 1024 * 1024,
        req.audio matches Some(a) ==> buffer::bytes_of(a).len() <= 256 * 1024 * 1024,
    ensures
        r matches Read::Done(back, n) && n == out@.len() && back.op == req.op && buffer::bytes_of(
            back.json,
        ) == buffer::bytes_of(req.json) && (back.audio is Some <==> req.audio is Some
            && buffer::bytes_of(req.audio->0).len() > 0) && (back.audio is Some
            ==> buffer::bytes_of(back.audio->0) == buffer::bytes_of(req.audio->0)),
{
    request_fields_read_back(req@, rest);
}

} // verus!
