//! The payloads of header and error frames.

use crate::buffer;
use crate::le;
use crate::proto::{
    ProtoError, StreamFrame, StreamFrameView, KIND_CHUNK, KIND_END, KIND_ERROR, KIND_HEADER,
    ST_UNKNOWN,
};
use crate::sample;
use crate::text;
use bytes::Bytes;
use vstd::prelude::*;
use vstd::utf8::*;

verus! {

broadcast use le::group_le;

/// The payload of an error frame.
pub open spec fn error_bytes(status: u8, msg: Seq<char>) -> Seq<u8> {
    seq![status] + encode_utf8(msg)
}

/// What an error frame's payload says: nothing known for an empty one.
pub open spec fn error_of(payload: Seq<u8>) -> (u8, Seq<char>) {
    if payload.len() == 0 {
        (ST_UNKNOWN, Seq::empty())
    } else {
        (payload[0], text::readable(payload.skip(1)))
    }
}

/// Builds the payload of a header frame.
pub fn header_payload(sample_rate: u32) -> (b: Bytes)
    ensures
        buffer::bytes_of(b) == le::le32(sample_rate as int),
{
    let mut v: Vec<u8> = Vec::new();
    le::put_u32(&mut v, sample_rate);
    assert(v@ =~= le::le32(sample_rate as int));
    Bytes::copy_from_slice(v.as_slice())
}

/// Reads the sample rate out of a header frame's payload.
pub fn parse_header_payload(payload: &[u8]) -> (r: Result<u32, ProtoError>)
    ensures
        match r {
            Ok(rate) => payload@.len() == 4 && rate == le::le32_value(payload@),
            Err(e) => payload@.len() != 4 && e == ProtoError::HeaderLength(payload.len()),
        },
{
    if payload.len() != 4 {
        return Err(ProtoError::HeaderLength(payload.len()));
    }
    assert(payload@.subrange(0, 4) =~= payload@);
    Ok(le::get_u32(payload, 0))
}

/// Builds the payload of an error frame.
pub fn error_payload(status: u8, msg: &str) -> (b: Bytes)
    ensures
        buffer::bytes_of(b) == error_bytes(status, msg@),
{
    let mut v: Vec<u8> = Vec::new();
    v.push(status);
    le::put_slice(&mut v, msg.as_bytes());
    assert(v@ =~= error_bytes(status, msg@));
    buffer::from_vec(v)
}

/// Reads the status and the message out of an error frame's payload. Bytes
/// that are not UTF-8 are replaced.
pub fn parse_error_payload(payload: &[u8]) -> (r: (u8, String))
    ensures
        (r.0, r.1@) == error_of(payload@),
{
    if payload.len() == 0 {
        return (ST_UNKNOWN, String::new());
    }
    let rest = vstd::slice::slice_subrange(payload, 1, payload.len());
    assert(rest@ =~= payload@.skip(1));
    (payload[0], text::utf8_lossy(rest))
}

/// The frame that announces a sample rate.
pub open spec fn header_frame_view(rate: u32) -> StreamFrameView {
    StreamFrameView { kind: KIND_HEADER, payload: le::le32(rate as int) }
}

/// The frame that carries samples.
pub open spec fn chunk_frame_view(samples: Seq<u32>) -> StreamFrameView {
    StreamFrameView { kind: KIND_CHUNK, payload: sample::sample_bytes(samples) }
}

/// The frame that ends a stream well.
pub open spec fn end_frame_view() -> StreamFrameView {
    StreamFrameView { kind: KIND_END, payload: Seq::empty() }
}

/// The error frame for a status and a message.
pub open spec fn error_frame_view(status: u8, msg: Seq<char>) -> StreamFrameView {
    StreamFrameView { kind: KIND_ERROR, payload: error_bytes(status, msg) }
}

/// Builds an error frame.
pub fn error_frame(status: u8, msg: &str) -> (f: StreamFrame)
    ensures
        f@ == error_frame_view(status, msg@),
{
    StreamFrame { kind: KIND_ERROR, payload: error_payload(status, msg) }
}

/// A sample rate can be read back out of the payload that carries it.
pub proof fn header_payload_reads_back(sample_rate: u32)
    ensures
        le::le32(sample_rate as int).len() == 4,
        le::le32_value(le::le32(sample_rate as int)) == sample_rate,
{
    le::le32_reads_back(sample_rate as int);
}

/// Reading an error payload gives back the status and the message that were
/// written.
pub proof fn error_payload_reads_back(status: u8, msg: Seq<char>)
    ensures
        error_of(error_bytes(status, msg)) == (status, msg),
{
    assert(error_bytes(status, msg).skip(1) =~= encode_utf8(msg));
    text::readable_reads_back(msg);
}

/// What the payloads of frames are: a sample rate as four bytes with the lowest
/// first, the patterns of samples, nothing, or a status and the bytes of a
/// message. Each has a kind of its own.
pub proof fn payloads_of_frames(rate: u32, samples: Seq<u32>, status: u8, msg: Seq<char>)
    ensures
        header_frame_view(rate).kind == 0,
        ({
            let p = header_frame_view(rate).payload;
            p.len() == 4 && p[0] + 256 * p[1] + 65536 * p[2] + 16777216 * p[3] == rate
        }),
        chunk_frame_view(samples).kind == 1,
        chunk_frame_view(samples).payload == sample::sample_bytes(samples),
        end_frame_view().kind == 2,
        end_frame_view().payload.len() == 0,
        error_frame_view(status, msg).kind == 3,
        error_frame_view(status, msg).payload[0] == status,
        error_frame_view(status, msg).payload.skip(1) == encode_utf8(msg),
{
    le::le32_spells(rate as int);
    assert(error_bytes(status, msg).skip(1) =~= encode_utf8(msg));
}

/// An error frame without a payload says nothing; any other says its first byte
/// and the text behind it, which is that text if it is UTF-8.
pub proof fn errors_say_their_bytes(payload: Seq<u8>)
    ensures
        payload.len() == 0 ==> error_of(payload).0 == 5 && error_of(payload).1.len() == 0,
        payload.len() > 0 ==> error_of(payload).0 == payload[0] && (if valid_utf8(payload.skip(1)) {
            encode_utf8(error_of(payload).1) == payload.skip(1)
        } else {
            error_of(payload).1 == text::lossy_text(payload.skip(1))
        }),
{
    if payload.len() > 0 && valid_utf8(payload.skip(1)) {
        decode_utf8_encode_utf8(payload.skip(1));
    }
}

} // verus!
