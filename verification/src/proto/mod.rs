//! The wire protocol that client, broker and worker share.
//!
//! ```text
//! request:  u8 version | u8 op | u32 json_len | json | u32 audio_len | audio
//! response: u8 status  | u32 payload_len | payload
//! frame:    u8 kind    | u32 payload_len | payload
//! token:    u32 token_len | token
//! ```
//!
//! All lengths are little-endian. Over TCP the client sends a token before its
//! request.

pub mod batch;
pub mod frame;
pub mod item;
pub mod payload;
pub mod request;
pub mod token;
pub mod wire;

use crate::buffer;
use crate::text;
use bytes::Bytes;
use vstd::prelude::*;

verus! {

pub const PROTO_VERSION: u8 = 1;

pub const OP_TTS: u8 = 1;

pub const OP_STATUS: u8 = 2;

pub const OP_TTS_STREAM: u8 = 3;

/// Worker-only op: independent TTS items, dispatched as one batched forward
/// pass. After `version | op` comes
///
/// ```text
/// u32 count | count times: u32 json_len | json | u32 audio_len | audio
/// ```
///
/// and the worker answers
///
/// ```text
/// u32 count | count times: u8 status | u32 payload_len | payload
/// ```
///
/// with the items in the same order.
pub const OP_TTS_BATCH: u8 = 4;

pub const ST_OK: u8 = 0;

pub const ST_MODEL_MISSING: u8 = 2;

pub const ST_GENERATION_FAILED: u8 = 3;

pub const ST_BAD_REQUEST: u8 = 4;

pub const ST_UNKNOWN: u8 = 5;

/// Payload: the sample rate, four bytes.
pub const KIND_HEADER: u8 = 0;

/// Payload: single-precision samples, four bytes each.
pub const KIND_CHUNK: u8 = 1;

/// Payload: nothing. Ends a stream.
pub const KIND_END: u8 = 2;

/// Payload: a status byte and a message. Ends a stream.
pub const KIND_ERROR: u8 = 3;

pub const MAX_JSON: u32 = 1048576;

pub const MAX_AUDIO: u32 = 268435456;

pub const MAX_PAYLOAD: u32 = 536870912;

pub const MAX_TOKEN: u32 = 4096;

pub const MAX_BATCH: u32 = 1024;

/// What a length prefix announces.
#[derive(Debug, Clone, Copy, PartialEq, Eq, Structural)]
pub enum Part {
    Token,
    Json,
    Audio,
    BatchJson,
    BatchAudio,
    Response,
    BatchResponse,
    Stream,
}

impl Part {
    /// The most bytes that a part may have.
    pub open spec fn limit(self) -> u32 {
        match self {
            Part::Token => MAX_TOKEN,
            Part::Json | Part::BatchJson => MAX_JSON,
            Part::Audio | Part::BatchAudio => MAX_AUDIO,
            Part::Response | Part::BatchResponse | Part::Stream => MAX_PAYLOAD,
        }
    }

    pub(crate) fn max_len(self) -> (n: u32)
        ensures
            n == self.limit(),
            n <= MAX_PAYLOAD,
    {
        match self {
            Part::Token => MAX_TOKEN,
            Part::Json | Part::BatchJson => MAX_JSON,
            Part::Audio | Part::BatchAudio => MAX_AUDIO,
            Part::Response | Part::BatchResponse | Part::Stream => MAX_PAYLOAD,
        }
    }

    /// How the complaint about an overlong part begins.
    pub open spec fn complaint(self) -> Seq<char> {
        match self {
            Part::Token => "token frame too large"@,
            Part::Json => "json frame too large: "@,
            Part::Audio => "audio frame too large: "@,
            Part::BatchJson => "batch json frame too large: "@,
            Part::BatchAudio => "batch audio frame too large: "@,
            Part::Response => "response payload too large: "@,
            Part::BatchResponse => "batch response payload too large: "@,
            Part::Stream => "stream frame too large: "@,
        }
    }

    fn complaint_text(self) -> (s: &'static str)
        ensures
            s@ == self.complaint(),
    {
        match self {
            Part::Token => "token frame too large",
            Part::Json => "json frame too large: ",
            Part::Audio => "audio frame too large: ",
            Part::BatchJson => "batch json frame too large: ",
            Part::BatchAudio => "batch audio frame too large: ",
            Part::Response => "response payload too large: ",
            Part::BatchResponse => "batch response payload too large: ",
            Part::Stream => "stream frame too large: ",
        }
    }
}

/// Why a message cannot be written or read.
#[derive(Debug, Clone, Copy, PartialEq, Eq, Structural)]
pub enum ProtoError {
    /// A token to be sent is longer than any server accepts.
    TokenTooLong,
    /// A token is not UTF-8: where the fault begins, and its length, unless the
    /// bytes just end too early.
    TokenNotUtf8(usize, Option<usize>),
    /// The peer speaks another version.
    Version(u8),
    /// A part announces this many bytes.
    TooLarge(Part, u32),
    /// A batch to be sent has this many items.
    BatchTooLarge(usize),
    /// A batch request announces this many items.
    BatchFrameTooLarge(u32),
    /// A batch response announces this many items.
    BatchResponseTooLarge(u32),
    /// A header frame's payload has this many bytes.
    HeaderLength(usize),
}

impl ProtoError {
    /// The message for the user.
    pub open spec fn text(self) -> Seq<char> {
        match self {
            ProtoError::TokenTooLong => "token too long"@,
            ProtoError::TokenNotUtf8(at, Some(n)) => "token not utf-8: invalid utf-8 sequence of "@
                + text::decimal(n as nat) + " bytes from index "@ + text::decimal(at as nat),
            ProtoError::TokenNotUtf8(
                at,
                None,
            ) => "token not utf-8: incomplete utf-8 byte sequence from index "@ + text::decimal(
                at as nat,
            ),
            ProtoError::Version(v) => "unsupported protocol version "@ + text::decimal(v as nat),
            ProtoError::TooLarge(Part::Token, _) => Part::Token.complaint(),
            ProtoError::TooLarge(part, n) => part.complaint() + text::decimal(n as nat),
            ProtoError::BatchTooLarge(n) => "batch too large: "@ + text::decimal(n as nat),
            ProtoError::BatchFrameTooLarge(n) => "batch frame too large: "@ + text::decimal(
                n as nat,
            ),
            ProtoError::BatchResponseTooLarge(n) => "batch response too large: "@ + text::decimal(
                n as nat,
            ),
            ProtoError::HeaderLength(n) => "invalid header frame payload length: "@ + text::decimal(
                n as nat,
            ),
        }
    }

    /// The message for the user.
    pub fn message(self) -> (s: String)
        ensures
            s@ == self.text(),
    {
        match self {
            ProtoError::TokenTooLong => "token too long".to_owned(),
            ProtoError::TokenNotUtf8(at, Some(n)) => {
                let mut s = text::label_number(
                    "token not utf-8: invalid utf-8 sequence of ",
                    n as u64,
                );
                s.append(" bytes from index ");
                let d = text::decimal_text(at as u64);
                s.append(d.as_str());
                s
            },
            ProtoError::TokenNotUtf8(at, None) => text::label_number(
                "token not utf-8: incomplete utf-8 byte sequence from index ",
                at as u64,
            ),
            ProtoError::Version(v) => text::label_number("unsupported protocol version ", v as u64),
            ProtoError::TooLarge(part, n) => {
                if part == Part::Token {
                    part.complaint_text().to_owned()
                } else {
                    text::label_number(part.complaint_text(), n as u64)
                }
            },
            ProtoError::BatchTooLarge(n) => text::label_number("batch too large: ", n as u64),
            ProtoError::BatchFrameTooLarge(n) => text::label_number(
                "batch frame too large: ",
                n as u64,
            ),
            ProtoError::BatchResponseTooLarge(n) => text::label_number(
                "batch response too large: ",
                n as u64,
            ),
            ProtoError::HeaderLength(n) => text::label_number(
                "invalid header frame payload length: ",
                n as u64,
            ),
        }
    }
}

/// The guidance that a request without one gets: 2.0.
pub fn default_cfg() -> (bits: u32)
    ensures
        bits == 0x4000_0000,
{
    0x4000_0000
}

/// The number of diffusion steps that a request without one gets.
pub fn default_steps() -> (n: u32)
    ensures
        n == 10,
{
    10
}

/// A TTS request as it travels. The user's JSON only has `text`, `reference`
/// and `continuation`; the client adds its flags.
#[derive(Debug, Clone)]
pub struct TtsRequest {
    pub text: String,
    pub reference: Option<String>,
    pub continuation: Option<String>,
    /// The guidance, a single-precision number, as its bits.
    pub cfg_bits: u32,
    pub steps: u32,
    /// Whether the audio of the request holds the reference clip.
    pub inline_reference: bool,
}

/// What a request says.
#[verifier::ext_equal]
pub struct TtsRequestView {
    pub text: Seq<char>,
    pub reference: Option<Seq<char>>,
    pub continuation: Option<Seq<char>>,
    pub cfg_bits: u32,
    pub steps: u32,
    pub inline_reference: bool,
}

impl View for TtsRequest {
    type V = TtsRequestView;

    open spec fn view(&self) -> TtsRequestView {
        TtsRequestView {
            text: self.text@,
            reference: text::opt_text(self.reference),
            continuation: text::opt_text(self.continuation),
            cfg_bits: self.cfg_bits,
            steps: self.steps,
            inline_reference: self.inline_reference,
        }
    }
}

/// One request.
#[derive(Debug, Clone)]
pub struct Request {
    pub op: u8,
    pub json: Bytes,
    pub audio: Option<Bytes>,
}

/// What a request holds.
#[verifier::ext_equal]
pub struct RequestView {
    pub op: u8,
    pub json: Seq<u8>,
    pub audio: Option<Seq<u8>>,
}

impl View for Request {
    type V = RequestView;

    open spec fn view(&self) -> RequestView {
        RequestView {
            op: self.op,
            json: buffer::bytes_of(self.json),
            audio: buffer::opt_bytes(self.audio),
        }
    }
}

/// One element of a batch request.
#[derive(Debug, Clone)]
pub struct BatchItem {
    pub json: Bytes,
    pub audio: Option<Bytes>,
}

/// What an element of a batch request holds.
#[verifier::ext_equal]
pub struct BatchItemView {
    pub json: Seq<u8>,
    pub audio: Option<Seq<u8>>,
}

impl View for BatchItem {
    type V = BatchItemView;

    open spec fn view(&self) -> BatchItemView {
        BatchItemView { json: buffer::bytes_of(self.json), audio: buffer::opt_bytes(self.audio) }
    }
}

/// One response.
#[derive(Debug, Clone)]
pub struct Response {
    pub status: u8,
    pub payload: Bytes,
}

/// What a response holds.
#[verifier::ext_equal]
pub struct ResponseView {
    pub status: u8,
    pub payload: Seq<u8>,
}

impl View for Response {
    type V = ResponseView;

    open spec fn view(&self) -> ResponseView {
        ResponseView { status: self.status, payload: buffer::bytes_of(self.payload) }
    }
}

/// One frame of a stream.
#[derive(Debug, Clone)]
pub struct StreamFrame {
    pub kind: u8,
    pub payload: Bytes,
}

/// What a frame holds.
#[verifier::ext_equal]
pub struct StreamFrameView {
    pub kind: u8,
    pub payload: Seq<u8>,
}

impl View for StreamFrame {
    type V = StreamFrameView;

    open spec fn view(&self) -> StreamFrameView {
        StreamFrameView { kind: self.kind, payload: buffer::bytes_of(self.payload) }
    }
}

/// What a TTS request says is what its fields hold, every one of them.
pub proof fn tts_request_says_its_fields(req: TtsRequest)
    ensures
        req@.text == req.text@,
        match req.reference {
            Some(r) => req@.reference == Some(r@),
            None => req@.reference is None,
        },
        match req.continuation {
            Some(c) => req@.continuation == Some(c@),
            None => req@.continuation is None,
        },
        req@.cfg_bits == req.cfg_bits,
        req@.steps == req.steps,
        req@.inline_reference == req.inline_reference,
{
}

/// What messages hold is what their fields hold, every one of them.
pub proof fn messages_hold_their_fields(
    req: Request,
    item: BatchItem,
    resp: Response,
    frame: StreamFrame,
)
    ensures
        req@.op == req.op,
        req@.json == buffer::bytes_of(req.json),
        match req.audio {
            Some(a) => req@.audio == Some(buffer::bytes_of(a)),
            None => req@.audio is None,
        },
        item@.json == buffer::bytes_of(item.json),
        match item.audio {
            Some(a) => item@.audio == Some(buffer::bytes_of(a)),
            None => item@.audio is None,
        },
        resp@.status == resp.status,
        resp@.payload == buffer::bytes_of(resp.payload),
        frame@.kind == frame.kind,
        frame@.payload == buffer::bytes_of(frame.payload),
{
}

/// How long the parts of messages may be: tokens 4 KiB, JSON 1 MiB, audio
/// 256 MiB, payloads 512 MiB, whether alone or in a batch.
pub proof fn parts_have_limits(part: Part)
    ensures
        part.limit() == match part {
            Part::Token => 4 * 1024,
            Part::Json => 1024 * 1024,
            Part::BatchJson => 1024 * 1024,
            Part::Audio => 256 * 1024 * 1024,
            Part::BatchAudio => 256 * 1024 * 1024,
            Part::Response => 512 * 1024 * 1024,
            Part::BatchResponse => 512 * 1024 * 1024,
            Part::Stream => 512 * 1024 * 1024,
        },
{
}

/// A complaint about a part says which part it is about and how long it is, at
/// any length; that about a token does not say how long.
pub proof fn complaints_name_parts(n: u32)
    ensures
        ProtoError::TooLarge(Part::Token, n).text() == "token frame too large"@,
        ProtoError::TooLarge(Part::Json, n).text() == "json frame too large: "@ + text::decimal(
            n as nat,
        ),
        ProtoError::TooLarge(Part::Audio, n).text() == "audio frame too large: "@ + text::decimal(
            n as nat,
        ),
        ProtoError::TooLarge(Part::BatchJson, n).text() == "batch json frame too large: "@
            + text::decimal(n as nat),
        ProtoError::TooLarge(Part::BatchAudio, n).text() == "batch audio frame too large: "@
            + text::decimal(n as nat),
        ProtoError::TooLarge(Part::Response, n).text() == "response payload too large: "@
            + text::decimal(n as nat),
        ProtoError::TooLarge(Part::BatchResponse, n).text() == "batch response payload too large: "@
            + text::decimal(n as nat),
        ProtoError::TooLarge(Part::Stream, n).text() == "stream frame too large: "@ + text::decimal(
            n as nat,
        ),
{
}

/// Every other complaint says what it is about, with the number or the place.
pub proof fn complaints_name_numbers(v: u8, n: u32, a: usize, b: usize)
    ensures
        ProtoError::TokenTooLong.text() == "token too long"@,
        ProtoError::TokenNotUtf8(a, Some(b)).text()
            == "token not utf-8: invalid utf-8 sequence of "@ + text::decimal(b as nat)
            + " bytes from index "@ + text::decimal(a as nat),
        ProtoError::TokenNotUtf8(a, None).text()
            == "token not utf-8: incomplete utf-8 byte sequence from index "@ + text::decimal(
            a as nat,
        ),
        ProtoError::Version(v).text() == "unsupported protocol version "@ + text::decimal(v as nat),
        ProtoError::BatchTooLarge(a).text() == "batch too large: "@ + text::decimal(a as nat),
        ProtoError::BatchFrameTooLarge(n).text() == "batch frame too large: "@ + text::decimal(
            n as nat,
        ),
        ProtoError::BatchResponseTooLarge(n).text() == "batch response too large: "@
            + text::decimal(n as nat),
        ProtoError::HeaderLength(a).text() == "invalid header frame payload length: "@
            + text::decimal(a as nat),
{
}

} // verus!
