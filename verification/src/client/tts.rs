//! The request of the TTS client: read, checked and put into the form in which
//! it travels.

use crate::buffer;
use crate::client::InputError;
use crate::json;
use crate::proto::request;
use crate::proto::wire;
use crate::proto::{Request, TtsRequest, TtsRequestView, OP_TTS, OP_TTS_STREAM};
use crate::server::relay;
use crate::synth;
use crate::text;
use bytes::Bytes;
use vstd::prelude::*;

verus! {

/// The reference that stands for audio that follows the JSON.
pub open spec fn inline_reference() -> Seq<char> {
    "<>"@
}

/// Where the request comes from.
#[derive(Debug)]
pub enum Input {
    /// From the command line.
    Inline(String),
    /// From the standard input, which held these bytes.
    Stdin(Vec<u8>),
    /// From the standard input, which could not be read.
    StdinFailed(String),
}

/// The message for a text on the command line that is no JSON.
pub fn invalid_inline(reason: &str) -> (msg: String)
    ensures
        msg@ == "--json is not valid JSON: "@ + reason@,
{
    text::join("--json is not valid JSON: ", reason)
}

/// Reads the JSON that was given on the command line.
fn inline_json(s: &str) -> (r: Result<serde_json::Value, String>)
    ensures
        match (r, json::text_value(s@)) {
            (Ok(v), Ok(named)) => json::value_members(v) == named,
            (Err(msg), Err(reason)) => msg@ == "--json is not valid JSON: "@ + reason,
            _ => false,
        },
{
    match json::read_text(s) {
        Ok(v) => Ok(v),
        Err(reason) => Err(invalid_inline(reason.as_str())),
    }
}

/// What a request's source gives: the members of the JSON and the bytes behind
/// it, or the message for the user.
pub open spec fn acquired(input: Input) -> Result<
    (Map<Seq<char>, Option<Seq<char>>>, Seq<u8>),
    Seq<char>,
> {
    match input {
        Input::Inline(s) => match json::text_value(s@) {
            Ok(members) => Ok((members, Seq::empty())),
            Err(reason) => Err("--json is not valid JSON: "@ + reason),
        },
        Input::StdinFailed(reason) => Err("failed to read stdin: "@ + reason@),
        Input::Stdin(raw) => if raw@.len() == 0 {
            Err("no JSON received on stdin (and no --json given)"@)
        } else {
            match json::first_value(raw@) {
                Some(Ok(named)) => Ok((named.0, raw@.skip(named.1 as int))),
                Some(Err(_)) => Err(InputError::Invalid.text()),
                None => Err(InputError::Empty.text()),
            }
        },
    }
}

/// Reads the JSON of a request, and the bytes that follow it on the standard
/// input.
pub fn acquire(input: Input) -> (r: Result<(serde_json::Value, Vec<u8>), String>)
    ensures
        match (r, acquired(input)) {
            (Ok(got), Ok(named)) => json::value_members(got.0) == named.0 && got.1@ == named.1,
            (Err(msg), Err(named)) => msg@ == named,
            _ => false,
        },
{
    match input {
        Input::Inline(s) => match inline_json(s.as_str()) {
            Ok(value) => {
                let tail: Vec<u8> = Vec::new();
                Ok((value, tail))
            },
            Err(msg) => Err(msg),
        },
        Input::StdinFailed(reason) => Err(text::join("failed to read stdin: ", reason.as_str())),
        Input::Stdin(raw) => {
            if raw.len() == 0 {
                return Err("no JSON received on stdin (and no --json given)".to_owned());
            }
            match crate::client::split_json_and_rest(raw.as_slice()) {
                Ok((value, rest)) => Ok((value, vstd::slice::slice_to_vec(rest))),
                Err(e) => Err(e.message()),
            }
        },
    }
}

/// The message for JSON that does not have the shape of a request.
pub fn invalid_shape(reason: &str) -> (msg: String)
    ensures
        msg@ == "invalid request shape: "@ + reason@,
{
    text::join("invalid request shape: ", reason)
}

/// What the user's JSON says.
#[derive(Debug)]
pub struct UserReq {
    pub text: String,
    pub reference: Option<String>,
    pub continuation: Option<String>,
}

/// The flags that shape a request.
#[derive(Debug, Clone, Copy, PartialEq, Eq, Structural)]
pub struct Flags {
    pub voice_clone: bool,
    /// The guidance, a single-precision number, as its bits.
    pub cfg_bits: u32,
    pub steps: u32,
    pub stream: bool,
}

/// Why a request is not sent.
#[derive(Debug, Clone, Copy, PartialEq, Eq, Structural)]
pub enum RequestError {
    /// The text is empty or all white space.
    NoText,
    /// A voice is to be cloned, but which?
    NoReference,
    /// There is a reference, but no voice is to be cloned.
    StrayReference,
    /// The reference is to follow the JSON, but nothing does.
    NoAudio,
    /// Something follows the JSON, but nothing is to.
    TrailingBytes,
}

impl RequestError {
    /// The message for the user.
    pub open spec fn text(self) -> Seq<char> {
        match self {
            RequestError::NoText => "`text` is required and must be non-empty"@,
            RequestError::NoReference =>
                "--voice-clone requires a `reference` field in the request JSON"@,
            RequestError::StrayReference => "`reference` set but --voice-clone not specified"@,
            RequestError::NoAudio =>
                "`reference` is `<>` but no audio bytes followed the JSON on stdin"@,
            RequestError::TrailingBytes => "trailing bytes after JSON but `reference` is not `<>`"@,
        }
    }

    /// The message for the user.
    pub fn message(self) -> (s: String)
        ensures
            s@ == self.text(),
    {
        match self {
            RequestError::NoText => "`text` is required and must be non-empty".to_owned(),
            RequestError::NoReference =>
                "--voice-clone requires a `reference` field in the request JSON".to_owned(),
            RequestError::StrayReference =>
                "`reference` set but --voice-clone not specified".to_owned(),
            RequestError::NoAudio =>
                "`reference` is `<>` but no audio bytes followed the JSON on stdin".to_owned(),
            RequestError::TrailingBytes =>
                "trailing bytes after JSON but `reference` is not `<>`".to_owned(),
        }
    }
}

/// The bytes that ASCII counts as white space.
pub open spec fn is_ascii_space(b: u8) -> bool {
    b == 0x20 || b == 0x09 || b == 0x0a || b == 0x0c || b == 0x0d
}

/// Whether all bytes are white space.
pub open spec fn all_ascii_space(s: Seq<u8>) -> bool {
    forall|i: int| 0 <= i < s.len() ==> is_ascii_space(#[trigger] s[i])
}

fn all_space(s: &[u8]) -> (r: bool)
    ensures
        r == all_ascii_space(s@),
{
    for i in 0..s.len()
        invariant
            forall|k: int| 0 <= k < i ==> is_ascii_space(#[trigger] s@[k]),
    {
        let b: u8 = s[i];
        if !(b == 0x20 || b == 0x09 || b == 0x0a || b == 0x0c || b == 0x0d) {
            assert(!is_ascii_space(s@[i as int]));
            return false;
        }
    }
    true
}

/// The request that is sent and the audio that goes with it, or why none is.
pub open spec fn checked(
    words: Seq<char>,
    reference: Option<Seq<char>>,
    continuation: Option<Seq<char>>,
    flags: Flags,
    tail: Seq<u8>,
) -> Result<(TtsRequestView, Option<Seq<u8>>), RequestError> {
    let inline = reference == Some(inline_reference());
    if text::trimmed(words).len() == 0 {
        Err(RequestError::NoText)
    } else if flags.voice_clone && reference is None {
        Err(RequestError::NoReference)
    } else if !flags.voice_clone && reference is Some {
        Err(RequestError::StrayReference)
    } else if inline && tail.len() == 0 {
        Err(RequestError::NoAudio)
    } else if !inline && !all_ascii_space(tail) {
        Err(RequestError::TrailingBytes)
    } else {
        Ok(
            (
                TtsRequestView {
                    text: words,
                    reference: if inline {
                        None
                    } else {
                        reference
                    },
                    continuation,
                    cfg_bits: flags.cfg_bits,
                    steps: flags.steps,
                    inline_reference: inline,
                },
                if inline {
                    Some(tail)
                } else {
                    None
                },
            ),
        )
    }
}

/// Checks what the user asked for and puts it into the form in which it
/// travels. `tail` is what followed the JSON.
pub fn build_request(user: UserReq, flags: Flags, tail: Vec<u8>) -> (r: Result<
    (TtsRequest, Option<Bytes>),
    RequestError,
>)
    ensures
        match (
            r,
            checked(
                user.text@,
                text::opt_text(user.reference),
                text::opt_text(user.continuation),
                flags,
                tail@,
            ),
        ) {
            (Ok(built), Ok(named)) => (built.0@, buffer::opt_bytes(built.1)) == named,
            (Err(e), Err(named)) => e == named,
            _ => false,
        },
{
    if text::trim(user.text.as_str()).unicode_len() == 0 {
        return Err(RequestError::NoText);
    }
    if flags.voice_clone && user.reference.is_none() {
        return Err(RequestError::NoReference);
    }
    if !flags.voice_clone && user.reference.is_some() {
        return Err(RequestError::StrayReference);
    }
    let inline: bool = match &user.reference {
        Some(s) => text::same_text(s.as_str(), "<>"),
        None => false,
    };
    let audio = if inline {
        if tail.len() == 0 {
            return Err(RequestError::NoAudio);
        }
        Some(buffer::from_vec(tail))
    } else {
        if !all_space(tail.as_slice()) {
            return Err(RequestError::TrailingBytes);
        }
        None
    };
    let wire = TtsRequest {
        text: user.text,
        reference: if inline {
            None
        } else {
            user.reference
        },
        continuation: user.continuation,
        cfg_bits: flags.cfg_bits,
        steps: flags.steps,
        inline_reference: inline,
    };
    Ok((wire, audio))
}

/// The request as it is sent: `json` is the checked request as JSON.
pub fn wire_request(json: Vec<u8>, audio: Option<Bytes>, stream: bool) -> (req: Request)
    ensures
        req@.op == if stream {
            OP_TTS_STREAM
        } else {
            OP_TTS
        },
        req@.json == json@,
        req@.audio == buffer::opt_bytes(audio),
{
    Request {
        op: if stream {
            OP_TTS_STREAM
        } else {
            OP_TTS
        },
        json: buffer::from_vec(json),
        audio,
    }
}

/// Every request that is sent can be served. It asks for a voice to be cloned
/// if and only if the user did. If its reference clip travels with it, there is
/// one, which is not empty, so that it comes out of the message again; so
/// neither the worker nor a relay finds anything missing.
pub proof fn sent_requests_can_be_served(
    words: Seq<char>,
    reference: Option<Seq<char>>,
    continuation: Option<Seq<char>>,
    flags: Flags,
    tail: Seq<u8>,
)
    ensures
        match checked(words, reference, continuation, flags, tail) {
            Ok((req, audio)) => {
                &&& relay::clones(req) == flags.voice_clone
                &&& req.inline_reference <==> audio is Some
                &&& wire::audio_of(wire::audio_data(audio)) == audio
                &&& synth::prompt_of(req, audio) is Ok
                &&& relay::clones(req) ==> relay::reference_of(req, audio) is Ok
            },
            Err(_) => true,
        },
{
}

/// Every request that is sent has the user's text and continuation and the
/// flags' guidance and steps, unchanged, whatever the flags. It has the user's
/// reference, unless that stands for audio that follows the JSON: then it says
/// so, and has all that followed.
pub proof fn sent_requests_keep_what_was_asked(
    words: Seq<char>,
    reference: Option<Seq<char>>,
    continuation: Option<Seq<char>>,
    flags: Flags,
    tail: Seq<u8>,
)
    ensures
        checked(words, reference, continuation, flags, tail) matches Ok((req, audio)) ==> {
            &&& req.text == words
            &&& req.continuation == continuation
            &&& req.cfg_bits == flags.cfg_bits
            &&& req.steps == flags.steps
            &&& reference == Some("<>"@) ==> req.inline_reference && req.reference is None && audio
                == Some(tail)
            &&& reference != Some("<>"@) ==> !req.inline_reference && req.reference == reference
                && audio is None
        },
{
}

/// A request is sent if and only if nothing is wrong with it: its text is not
/// just white space, there is a reference if and only if a voice is to be
/// cloned, and something that is not just white space follows the JSON only if
/// the reference stands for it, in which case something has to.
pub proof fn requests_are_sent_if_sound(
    words: Seq<char>,
    reference: Option<Seq<char>>,
    continuation: Option<Seq<char>>,
    flags: Flags,
    tail: Seq<u8>,
)
    ensures
        checked(words, reference, continuation, flags, tail) is Ok <==> {
            &&& exists|i: int| 0 <= i < words.len() && !text::is_white_space(#[trigger] words[i])
            &&& flags.voice_clone <==> reference is Some
            &&& reference == Some("<>"@) ==> tail.len() > 0
            &&& reference != Some("<>"@) ==> forall|i: int|
                0 <= i < tail.len() ==> (#[trigger] tail[i] == 0x20 || tail[i] == 0x09 || tail[i]
                    == 0x0a || tail[i] == 0x0c || tail[i] == 0x0d)
        },
{
    blank_text_is_white(words);
    if all_ascii_space(tail) {
        assert forall|i: int| 0 <= i < tail.len() implies (#[trigger] tail[i] == 0x20 || tail[i]
            == 0x09 || tail[i] == 0x0a || tail[i] == 0x0c || tail[i] == 0x0d) by {
            assert(is_ascii_space(tail[i]));
        }
    }
}

proof fn blank_text_is_white(s: Seq<char>)
    ensures
        text::trimmed(s).len() == 0 <==> forall|i: int|
            0 <= i < s.len() ==> text::is_white_space(#[trigger] s[i]),
    decreases s.len(),
{
    if s.len() > 0 {
        if text::is_white_space(s.first()) {
            let t = s.drop_first();
            blank_text_is_white(t);
            if text::trimmed(s).len() == 0 {
                assert forall|i: int| 0 <= i < s.len() implies text::is_white_space(
                    #[trigger] s[i],
                ) by {
                    if i > 0 {
                        assert(s[i] == t[i - 1]);
                    }
                }
            }
        } else {
            assert(!text::is_white_space(s[0]));
            if text::is_white_space(s.last()) {
                let t = s.drop_last();
                blank_text_is_white(t);
                assert(t[0] == s[0]);
            }
        }
    }
}

/// Of all that is wrong with a request, the user is told the first: that there
/// is no text, that a reference is missing or not expected, that nothing
/// follows the JSON, or that something does.
pub proof fn the_first_fault_is_told(
    words: Seq<char>,
    reference: Option<Seq<char>>,
    continuation: Option<Seq<char>>,
    flags: Flags,
    tail: Seq<u8>,
)
    ensures
        ({
            let r = checked(words, reference, continuation, flags, tail);
            let blank = forall|i: int|
                0 <= i < words.len() ==> text::is_white_space(#[trigger] words[i]);
            &&& r == Err::<(TtsRequestView, Option<Seq<u8>>), RequestError>(RequestError::NoText)
                <==> blank
            &&& r == Err::<(TtsRequestView, Option<Seq<u8>>), RequestError>(
                RequestError::NoReference,
            ) <==> !blank && flags.voice_clone && reference is None
            &&& r == Err::<(TtsRequestView, Option<Seq<u8>>), RequestError>(
                RequestError::StrayReference,
            ) <==> !blank && !flags.voice_clone && reference is Some
            &&& r == Err::<(TtsRequestView, Option<Seq<u8>>), RequestError>(RequestError::NoAudio)
                <==> !blank && flags.voice_clone && reference == Some("<>"@) && tail.len() == 0
        }),
{
    blank_text_is_white(words);
}

/// What is read of a request: JSON from the command line comes with no bytes
/// behind it, JSON from the standard input with all that follows it. What
/// cannot be read is told with the reason.
pub proof fn input_is_read_whole(line: String, raw: Vec<u8>, reason: String)
    ensures
        match (acquired(Input::Inline(line)), json::text_value(line@)) {
            (Ok(got), Ok(members)) => got.0 == members && got.1.len() == 0,
            (Err(msg), Err(why)) => msg == "--json is not valid JSON: "@ + why,
            _ => false,
        },
        acquired(Input::StdinFailed(reason)) matches Err(msg) && msg == "failed to read stdin: "@
            + reason@,
        raw@.len() == 0 ==> (acquired(Input::Stdin(raw)) matches Err(msg) && msg
            == "no JSON received on stdin (and no --json given)"@),
        raw@.len() > 0 ==> match (acquired(Input::Stdin(raw)), json::first_value(raw@)) {
            (Ok(got), Some(Ok(found))) => got.0 == found.0 && (found.1 <= raw@.len() ==> raw@.take(
                found.1 as int,
            ) + got.1 == raw@),
            (Err(msg), Some(Err(_))) => msg == InputError::Invalid.text(),
            (Err(msg), None) => msg == InputError::Empty.text(),
            _ => false,
        },
{
    if raw@.len() > 0 {
        if let Some(Ok(found)) = json::first_value(raw@) {
            if found.1 <= raw@.len() {
                assert(raw@.take(found.1 as int) + raw@.skip(found.1 as int) =~= raw@);
            }
        }
    }
}

/// A request that is built holds the user's own text and continuation and the
/// flags' own guidance and steps, whatever the flags, and the user's reference
/// unless that stands for audio; the audio is then all that followed.
pub proof fn built_requests_keep_what_was_asked(
    user: UserReq,
    flags: Flags,
    tail: Vec<u8>,
    r: Result<(TtsRequest, Option<Bytes>), RequestError>,
)
    requires
        call_ensures(build_request, (user, flags, tail), r),
    ensures
        r matches Ok((req, audio)) ==> {
            let inline = user.reference is Some && user.reference->0@ == "<>"@;
            &&& req.text@ == user.text@
            &&& req.continuation is Some <==> user.continuation is Some
            &&& user.continuation is Some ==> req.continuation->0@ == user.continuation->0@
            &&& req.cfg_bits == flags.cfg_bits
            &&& req.steps == flags.steps
            &&& req.inline_reference == inline
            &&& req.reference is Some <==> user.reference is Some && !inline
            &&& req.reference is Some ==> req.reference->0@ == user.reference->0@
            &&& audio is Some <==> inline
            &&& audio is Some ==> buffer::bytes_of(audio->0) == tail@
        },
{
}

/// What is sent for a request can be read back: its JSON, its audio, and
/// whether a stream is asked for.
pub proof fn sent_requests_are_read(
    json: Vec<u8>,
    audio: Option<Bytes>,
    stream: bool,
    req: Request,
    rest: Seq<u8>,
)
    requires
        call_ensures(wire_request, (json, audio, stream), req),
        json@.len() <= 1024 * 1024,
        audio matches Some(a) ==> buffer::bytes_of(a).len() <= 256 * 1024 * 1024,
    ensures
        request::parse_request(request::request_bytes(req@) + rest) matches wire::Parsed::Done(
            back,
            n,
        ) && n == request::request_bytes(req@).len() && back.json == json@ && back.op == (
        if stream {
            3u8
        } else {
            1u8
        }) && back.audio == match audio {
            Some(a) => if buffer::bytes_of(a).len() > 0 {
                Some(buffer::bytes_of(a))
            } else {
                None
            },
            None => None,
        },
{
    request::request_fields_read_back(req@, rest);
}

/// Each fault is told in its own words.
pub proof fn faults_are_told()
    ensures
        RequestError::NoText.text() == "`text` is required and must be non-empty"@,
        RequestError::NoReference.text()
            == "--voice-clone requires a `reference` field in the request JSON"@,
        RequestError::StrayReference.text() == "`reference` set but --voice-clone not specified"@,
        RequestError::NoAudio.text()
            == "`reference` is `<>` but no audio bytes followed the JSON on stdin"@,
        RequestError::TrailingBytes.text()
            == "trailing bytes after JSON but `reference` is not `<>`"@,
        InputError::Empty.text() == "empty JSON input"@,
        InputError::Invalid.text() == "invalid JSON on stdin"@,
{
}

} // verus!
