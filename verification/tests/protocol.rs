//! The wire protocol, message by message.

use bytes::Bytes;
use mii_sound::proto::batch::{
    read_batch_request_body, read_batch_response, write_batch_request, write_batch_response,
};
use mii_sound::proto::frame::{
    read_response, read_stream_frame, write_response, write_stream_frame,
};
use mii_sound::proto::payload::{
    error_frame, error_payload, header_payload, parse_error_payload, parse_header_payload,
};
use mii_sound::proto::request::{read_op, read_request, read_request_body, write_request};
use mii_sound::proto::token::{read_token, write_token};
use mii_sound::proto::wire::Read;
use mii_sound::proto::{
    default_cfg, default_steps, BatchItem, Part, ProtoError, Request, Response, StreamFrame,
    KIND_CHUNK, KIND_ERROR, MAX_AUDIO, MAX_BATCH, MAX_JSON, MAX_PAYLOAD, MAX_TOKEN, OP_TTS,
    OP_TTS_BATCH, ST_GENERATION_FAILED, ST_OK, ST_UNKNOWN,
};

fn done<T>(r: Read<T>) -> (T, usize) {
    match r {
        Read::Done(v, n) => (v, n),
        Read::More(n) => panic!("{n} more bytes wanted"),
        Read::Fail(e) => panic!("{e:?}"),
    }
}

fn wanted<T>(r: Read<T>) -> usize {
    match r {
        Read::More(n) => n,
        Read::Done(_, n) => panic!("done after {n} bytes"),
        Read::Fail(e) => panic!("{e:?}"),
    }
}

fn refused<T>(r: Read<T>) -> ProtoError {
    match r {
        Read::Fail(e) => e,
        Read::Done(_, n) => panic!("done after {n} bytes"),
        Read::More(n) => panic!("{n} more bytes wanted"),
    }
}

fn length(n: u32) -> [u8; 4] {
    n.to_le_bytes()
}

#[test]
fn requests_without_flags_have_defaults() {
    assert_eq!(f32::from_bits(default_cfg()), 2.0);
    assert_eq!(default_steps(), 10);
}

#[test]
fn a_token_reads_back() {
    let bytes = write_token("s\u{e9}cret").unwrap();
    assert_eq!(bytes, b"\x07\0\0\0s\xc3\xa9cret");
    let (token, n) = done(read_token(&bytes));
    assert_eq!(token, "s\u{e9}cret");
    assert_eq!(n, bytes.len());
}

#[test]
fn an_empty_token_is_a_token() {
    let bytes = write_token("").unwrap();
    assert_eq!(bytes, [0, 0, 0, 0]);
    assert_eq!(done(read_token(&bytes)), (String::new(), 4));
}

#[test]
fn a_token_may_have_so_many_bytes_and_no_more() {
    let longest = "x".repeat(MAX_TOKEN as usize);
    let bytes = write_token(&longest).unwrap();
    assert_eq!(done(read_token(&bytes)).0, longest);
    let longer = "x".repeat(MAX_TOKEN as usize + 1);
    let e = write_token(&longer).unwrap_err();
    assert_eq!(e, ProtoError::TokenTooLong);
    assert_eq!(e.message(), "token too long");
    let e = refused(read_token(&length(MAX_TOKEN + 1)));
    assert_eq!(e, ProtoError::TooLarge(Part::Token, MAX_TOKEN + 1));
    assert_eq!(e.message(), "token frame too large");
}

#[test]
fn a_token_is_utf8() {
    let e = refused(read_token(b"\x03\0\0\0a\xffb"));
    assert_eq!(e, ProtoError::TokenNotUtf8(1, Some(1)));
    let reason = std::str::from_utf8(b"a\xffb").unwrap_err();
    assert_eq!(e.message(), format!("token not utf-8: {reason}"));
    let e = refused(read_token(b"\x02\0\0\0a\xc3"));
    assert_eq!(e, ProtoError::TokenNotUtf8(1, None));
    let reason = std::str::from_utf8(b"a\xc3").unwrap_err();
    assert_eq!(e.message(), format!("token not utf-8: {reason}"));
}

#[test]
fn a_request_reads_back() {
    let req = Request {
        op: OP_TTS,
        json: Bytes::from_static(b"{}"),
        audio: Some(Bytes::from_static(b"RIFF")),
    };
    let mut bytes = write_request(&req);
    assert_eq!(bytes, b"\x01\x01\x02\0\0\0{}\x04\0\0\0RIFF");
    let n = bytes.len();
    bytes.extend_from_slice(b"what follows");
    let (back, used) = done(read_request(&bytes));
    assert_eq!(used, n);
    assert_eq!(back.op, OP_TTS);
    assert_eq!(&back.json[..], b"{}");
    assert_eq!(back.audio.as_deref(), Some(&b"RIFF"[..]));
}

#[test]
fn no_audio_and_empty_audio_look_the_same() {
    let without = Request { op: OP_TTS, json: Bytes::from_static(b"{}"), audio: None };
    let empty = Request { op: OP_TTS, json: Bytes::from_static(b"{}"), audio: Some(Bytes::new()) };
    assert_eq!(write_request(&without), write_request(&empty));
    let (back, _) = done(read_request(&write_request(&empty)));
    assert!(back.audio.is_none());
}

#[test]
fn a_request_is_asked_for_piece_by_piece() {
    let req = Request {
        op: OP_TTS,
        json: Bytes::from_static(b"{\"text\":\"hi\"}"),
        audio: Some(Bytes::from_static(b"abc")),
    };
    let bytes = write_request(&req);
    let mut have = 0;
    let mut asked = Vec::new();
    let used = loop {
        match read_request(&bytes[..have]) {
            Read::More(n) => {
                assert!(n > 0);
                asked.push(n);
                have += n;
            }
            Read::Done(_, used) => break used,
            Read::Fail(e) => panic!("{e:?}"),
        }
    };
    assert_eq!(used, bytes.len());
    assert_eq!(have, bytes.len());
    assert_eq!(asked, [1, 1, 4, 13, 4, 3]);
}

#[test]
fn another_version_is_refused_before_anything_else() {
    let e = refused(read_request(&[7]));
    assert_eq!(e, ProtoError::Version(7));
    assert_eq!(e.message(), "unsupported protocol version 7");
    assert_eq!(refused(read_op(&[0])), ProtoError::Version(0));
    assert_eq!(wanted(read_op(&[1])), 1);
    assert_eq!(done(read_op(&[1, 9])), (9, 2));
}

#[test]
fn a_request_has_limits() {
    let e = refused(read_request_body(&length(MAX_JSON + 1), OP_TTS));
    assert_eq!(e, ProtoError::TooLarge(Part::Json, MAX_JSON + 1));
    assert_eq!(e.message(), "json frame too large: 1048577");
    assert_eq!(wanted(read_request_body(&length(MAX_JSON), OP_TTS)), MAX_JSON as usize);
    let mut bytes = length(0).to_vec();
    bytes.extend_from_slice(&length(MAX_AUDIO + 1));
    let e = refused(read_request_body(&bytes, OP_TTS));
    assert_eq!(e, ProtoError::TooLarge(Part::Audio, MAX_AUDIO + 1));
    assert_eq!(e.message(), "audio frame too large: 268435457");
}

#[test]
fn a_response_reads_back() {
    let resp = Response { status: ST_OK, payload: Bytes::from_static(b"wav") };
    let bytes = write_response(&resp);
    assert_eq!(bytes, b"\0\x03\0\0\0wav");
    let (back, n) = done(read_response(&bytes));
    assert_eq!((back.status, &back.payload[..], n), (ST_OK, &b"wav"[..], 8));
    assert_eq!(wanted(read_response(b"")), 1);
    assert_eq!(wanted(read_response(b"\0\x03\0")), 2);
    assert_eq!(wanted(read_response(b"\0\x03\0\0\0w")), 2);
}

#[test]
fn a_response_has_a_limit() {
    let mut bytes = vec![ST_OK];
    bytes.extend_from_slice(&length(MAX_PAYLOAD + 1));
    let e = refused(read_response(&bytes));
    assert_eq!(e, ProtoError::TooLarge(Part::Response, MAX_PAYLOAD + 1));
    assert_eq!(e.message(), "response payload too large: 536870913");
}

#[test]
fn a_frame_reads_back() {
    let frame = StreamFrame { kind: KIND_CHUNK, payload: Bytes::from_static(&[1, 2, 3, 4]) };
    let bytes = write_stream_frame(&frame);
    assert_eq!(bytes, [1, 4, 0, 0, 0, 1, 2, 3, 4]);
    let (back, n) = done(read_stream_frame(&bytes));
    assert_eq!((back.kind, &back.payload[..], n), (KIND_CHUNK, &[1, 2, 3, 4][..], 9));
}

#[test]
fn a_frame_has_a_limit() {
    let mut bytes = vec![KIND_CHUNK];
    bytes.extend_from_slice(&length(u32::MAX));
    let e = refused(read_stream_frame(&bytes));
    assert_eq!(e, ProtoError::TooLarge(Part::Stream, u32::MAX));
    assert_eq!(e.message(), "stream frame too large: 4294967295");
}

#[test]
fn a_sample_rate_reads_back() {
    let payload = header_payload(44100);
    assert_eq!(&payload[..], [0x44, 0xac, 0, 0]);
    assert_eq!(parse_header_payload(&payload), Ok(44100));
    let e = parse_header_payload(&[1, 2, 3]).unwrap_err();
    assert_eq!(e, ProtoError::HeaderLength(3));
    assert_eq!(e.message(), "invalid header frame payload length: 3");
}

#[test]
fn an_error_reads_back() {
    let payload = error_payload(ST_GENERATION_FAILED, "out of m\u{e9}mory");
    assert_eq!(payload[0], 3);
    assert_eq!(
        parse_error_payload(&payload),
        (ST_GENERATION_FAILED, "out of m\u{e9}mory".to_string())
    );
    assert_eq!(parse_error_payload(&[]), (ST_UNKNOWN, String::new()));
    assert_eq!(parse_error_payload(b"\x02a\xffb"), (2, "a\u{fffd}b".to_string()));
    let frame = error_frame(4, "no");
    assert_eq!((frame.kind, &frame.payload[..]), (KIND_ERROR, &b"\x04no"[..]));
}

fn item(json: &'static [u8], audio: Option<&'static [u8]>) -> BatchItem {
    BatchItem { json: Bytes::from_static(json), audio: audio.map(Bytes::from_static) }
}

#[test]
fn a_batch_request_reads_back_in_order() {
    let items = [item(b"{1}", None), item(b"{}", Some(b"wav")), item(b"", Some(b""))];
    let mut bytes = write_batch_request(&items).unwrap();
    assert_eq!(
        bytes,
        b"\x01\x04\x03\0\0\0\x03\0\0\0{1}\0\0\0\0\x02\0\0\0{}\x03\0\0\0wav\0\0\0\0\0\0\0\0"
    );
    let n = bytes.len();
    bytes.push(99);
    assert_eq!(done(read_op(&bytes)), (OP_TTS_BATCH, 2));
    let (back, used) = done(read_batch_request_body(&bytes[2..]));
    assert_eq!(used, n - 2);
    assert_eq!(back.len(), 3);
    assert_eq!((&back[0].json[..], back[0].audio.is_none()), (&b"{1}"[..], true));
    assert_eq!(&back[1].json[..], b"{}");
    assert_eq!(back[1].audio.as_deref(), Some(&b"wav"[..]));
    assert!(back[2].json.is_empty() && back[2].audio.is_none());
}

#[test]
fn a_batch_request_is_asked_for_piece_by_piece() {
    let bytes = write_batch_request(&[item(b"{}", None), item(b"{}", Some(b"x"))]).unwrap();
    let body = &bytes[2..];
    let mut have = 0;
    let used = loop {
        match read_batch_request_body(&body[..have]) {
            Read::More(n) => have += n,
            Read::Done(items, used) => {
                assert_eq!(items.len(), 2);
                break used;
            }
            Read::Fail(e) => panic!("{e:?}"),
        }
    };
    assert_eq!((have, used), (body.len(), body.len()));
}

#[test]
fn a_batch_has_limits() {
    let many: Vec<BatchItem> = (0..=MAX_BATCH).map(|_| item(b"", None)).collect();
    let e = write_batch_request(&many).unwrap_err();
    assert_eq!(e, ProtoError::BatchTooLarge(1025));
    assert_eq!(e.message(), "batch too large: 1025");
    assert!(write_batch_request(&many[..1024]).is_ok());
    let e = refused(read_batch_request_body(&length(MAX_BATCH + 1)));
    assert_eq!(e, ProtoError::BatchFrameTooLarge(1025));
    assert_eq!(e.message(), "batch frame too large: 1025");
    let e = refused(read_batch_response(&length(MAX_BATCH + 1)));
    assert_eq!(e, ProtoError::BatchResponseTooLarge(1025));
    assert_eq!(e.message(), "batch response too large: 1025");
    let mut bytes = length(1).to_vec();
    bytes.extend_from_slice(&length(MAX_JSON + 1));
    let e = refused(read_batch_request_body(&bytes));
    assert_eq!(e.message(), "batch json frame too large: 1048577");
    let mut bytes = length(1).to_vec();
    bytes.extend_from_slice(&length(0));
    bytes.extend_from_slice(&length(MAX_AUDIO + 1));
    let e = refused(read_batch_request_body(&bytes));
    assert_eq!(e.message(), "batch audio frame too large: 268435457");
    let mut bytes = length(1).to_vec();
    bytes.push(0);
    bytes.extend_from_slice(&length(MAX_PAYLOAD + 1));
    let e = refused(read_batch_response(&bytes));
    assert_eq!(e.message(), "batch response payload too large: 536870913");
}

#[test]
fn a_batch_response_reads_back_in_order() {
    let responses = [
        Response { status: 0, payload: Bytes::from_static(b"one") },
        Response { status: 3, payload: Bytes::new() },
    ];
    let bytes = write_batch_response(&responses);
    assert_eq!(bytes, b"\x02\0\0\0\0\x03\0\0\0one\x03\0\0\0\0");
    let (back, used) = done(read_batch_response(&bytes));
    assert_eq!(used, bytes.len());
    assert_eq!(back.len(), 2);
    assert_eq!((back[0].status, &back[0].payload[..]), (0, &b"one"[..]));
    assert_eq!((back[1].status, back[1].payload.len()), (3, 0));
    assert_eq!(wanted(read_batch_response(&bytes[..4])), 1);
    assert_eq!(done(read_batch_response(&[0, 0, 0, 0])).1, 4);
}
