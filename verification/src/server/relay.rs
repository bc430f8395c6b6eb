//! Relay mode: all requests go to a remote server over HTTP.

use crate::buffer;
use crate::json;
use crate::proto::payload;
use crate::proto::{
    StreamFrame, TtsRequest, TtsRequestView, ST_BAD_REQUEST, ST_GENERATION_FAILED,
    ST_MODEL_MISSING,
};
use crate::text;
use crate::wav::WavError;
use bytes::Bytes;
use vstd::prelude::*;

verus! {

/// An address as it is used: without white space around it, and with a scheme.
pub open spec fn normalized(url: Seq<char>) -> Seq<char> {
    let s = text::trimmed(url);
    if "http://"@.is_prefix_of(s) || "https://"@.is_prefix_of(s) {
        s
    } else {
        "http://"@ + s
    }
}

/// Puts an address into the form in which it is used.
pub fn normalize_url(input: &str) -> (r: String)
    ensures
        r@ == normalized(input@),
{
    let s = text::trim(input);
    if text::starts_with(s, "http://") || text::starts_with(s, "https://") {
        s.to_owned()
    } else {
        text::join("http://", s)
    }
}

/// Where requests are relayed to.
#[derive(Debug, Clone)]
pub struct Relay {
    upstream: String,
    token: Option<String>,
}

/// Where requests are relayed to.
#[verifier::ext_equal]
pub struct RelayView {
    pub upstream: Seq<char>,
    pub token: Option<Seq<char>>,
}

impl View for Relay {
    type V = RelayView;

    closed spec fn view(&self) -> RelayView {
        RelayView { upstream: self.upstream@, token: text::opt_text(self.token) }
    }
}

impl Relay {
    /// A relay to `url`. An empty token counts as none.
    pub fn new(url: &str, token: Option<String>) -> (relay: Self)
        ensures
            relay@.upstream == normalized(url@),
            relay@.token == match token {
                Some(t) => if t@.len() == 0 {
                    None
                } else {
                    Some(t@)
                },
                None => None,
            },
    {
        let token = match token {
            Some(t) => if t.as_str().unicode_len() == 0 {
                None
            } else {
                Some(t)
            },
            None => None,
        };
        Relay { upstream: normalize_url(url), token }
    }

    /// The address of the remote server.
    pub fn upstream(&self) -> (s: &str)
        ensures
            s@ == self@.upstream,
    {
        self.upstream.as_str()
    }

    /// The token that goes with each request, if any.
    pub fn token(&self) -> (t: Option<&str>)
        ensures
            match (t, self@.token) {
                (Some(a), Some(b)) => a@ == b,
                (None, None) => true,
                _ => false,
            },
    {
        match &self.token {
            Some(t) => Some(t.as_str()),
            None => None,
        }
    }

    /// Whether the remote server runs, given its answer to a status request, if
    /// there was one.
    pub fn status(&self, body: Option<&str>) -> (running: bool)
        ensures
            running == match body {
                Some(b) => says_running(b@),
                None => false,
            },
    {
        match body {
            Some(b) => text::same_text(text::trim(b), "running"),
            None => false,
        }
    }

    /// The call that relays a request, or why there is none. `fixed` is the
    /// guidance with four decimals.
    pub fn tts(&self, req: &TtsRequest, audio: Option<Bytes>, fixed: &str) -> (r: RelayResult<
        RelayCall,
    >)
        ensures
            match (r, planned(req@, buffer::opt_bytes(audio), fixed@, false)) {
                (Ok(call), Ok(named)) => call@ == named,
                (Err(e), Err(msg)) => e.status == ST_BAD_REQUEST && e.message@ == msg,
                _ => false,
            },
    {
        plan(req, audio, fixed, false)
    }

    /// The call that relays a request for a stream, or the frame that ends the
    /// stream at once. `fixed` is the guidance with four decimals.
    pub fn tts_stream(&self, req: &TtsRequest, audio: Option<Bytes>, fixed: &str) -> (r: Result<
        RelayCall,
        StreamFrame,
    >)
        ensures
            match (r, planned(req@, buffer::opt_bytes(audio), fixed@, true)) {
                (Ok(call), Ok(named)) => call@ == named,
                (Err(frame), Err(msg)) => frame@ == payload::error_frame_view(ST_BAD_REQUEST, msg),
                _ => false,
            },
    {
        match plan(req, audio, fixed, true) {
            Ok(call) => Ok(call),
            Err(e) => Err(payload::error_frame(e.status, e.message.as_str())),
        }
    }

    /// The message for an address that cannot be used.
    pub fn invalid_url(&self, reason: &str) -> (msg: String)
        ensures
            msg@ == "invalid relay url "@ + self@.upstream + ": "@ + reason@,
    {
        let mut msg = text::join("invalid relay url ", self.upstream.as_str());
        msg.append(": ");
        msg.append(reason);
        msg
    }
}

/// Whether the answer to a status request says that the server runs.
pub open spec fn says_running(body: Seq<char>) -> bool {
    text::trimmed(body) == "running"@
}

/// Why a request could not be relayed.
#[derive(Debug, Clone)]
pub struct RelayError {
    pub status: u8,
    pub message: String,
}

pub type RelayResult<T> = Result<T, RelayError>;

/// How a call of the remote server failed.
#[derive(Debug, Clone)]
pub enum UpstreamError {
    /// It answered with an HTTP status other than success: the code, the whole
    /// status line, and what came with it.
    Status { code: u16, line: String, body: String },
    /// There was no answer, for this reason.
    Other(String),
}

impl UpstreamError {
    /// The message for the user.
    pub open spec fn text(self) -> Seq<char> {
        match self {
            UpstreamError::Status { code, line, body } => "upstream returned "@ + line@ + ": "@
                + body@,
            UpstreamError::Other(reason) => reason@,
        }
    }

    /// The status with which the client is answered.
    pub open spec fn status(self) -> u8 {
        match self {
            UpstreamError::Status { code, line, body } => if code == 401 || code == 400 {
                ST_BAD_REQUEST
            } else if code == 503 {
                ST_MODEL_MISSING
            } else {
                ST_GENERATION_FAILED
            },
            UpstreamError::Other(reason) => ST_GENERATION_FAILED,
        }
    }
}

/// The message for a call that failed.
pub fn http_err(e: &UpstreamError) -> (msg: String)
    ensures
        msg@ == e.text(),
{
    match e {
        UpstreamError::Status { code, line, body } => {
            let mut msg = text::join("upstream returned ", line.as_str());
            msg.append(": ");
            msg.append(body.as_str());
            msg
        },
        UpstreamError::Other(reason) => reason.clone(),
    }
}

/// What the client is told of a call that failed.
pub fn map_http_err(e: &UpstreamError) -> (r: RelayError)
    ensures
        r.status == e.status(),
        r.message@ == e.text(),
{
    let message = http_err(e);
    let status: u8 = match e {
        UpstreamError::Status { code, line, body } => if *code == 401 || *code == 400 {
            ST_BAD_REQUEST
        } else if *code == 503 {
            ST_MODEL_MISSING
        } else {
            ST_GENERATION_FAILED
        },
        UpstreamError::Other(reason) => ST_GENERATION_FAILED,
    };
    RelayError { status, message }
}

/// The frame that ends a stream whose call failed.
pub fn call_failed(e: &UpstreamError) -> (frame: StreamFrame)
    ensures
        frame@ == payload::error_frame_view(e.status(), e.text()),
{
    let e = map_http_err(e);
    payload::error_frame(e.status, e.message.as_str())
}

/// The frame that ends a stream whose source is no WAV file.
pub fn wav_failed(e: WavError) -> (frame: StreamFrame)
    ensures
        frame@ == payload::error_frame_view(ST_GENERATION_FAILED, e.text()),
{
    let msg = e.message();
    payload::error_frame(ST_GENERATION_FAILED, msg.as_str())
}

/// The frame that ends a stream whose source failed with `reason`.
pub fn stream_failed(reason: &str) -> (frame: StreamFrame)
    ensures
        frame@ == payload::error_frame_view(ST_GENERATION_FAILED, "upstream stream: "@ + reason@),
{
    let msg = text::join("upstream stream: ", reason);
    payload::error_frame(ST_GENERATION_FAILED, msg.as_str())
}

/// Whether a request asks for a voice to be cloned.
pub open spec fn clones(req: TtsRequestView) -> bool {
    req.inline_reference || req.reference is Some
}

/// Whether a request asks for a voice to be cloned.
pub fn needs_clone(req: &TtsRequest) -> (r: bool)
    ensures
        r == clones(req@),
{
    req.inline_reference || req.reference.is_some()
}

/// A number with four decimals, without the zeros at its end.
pub open spec fn tidy(fixed: Seq<char>) -> Seq<char> {
    let s = text::without_trailing(text::without_trailing(fixed, '0'), '.');
    if s.len() == 0 || s == "-"@ {
        "0"@
    } else {
        s
    }
}

/// The guidance as it is sent: `fixed` is the number with four decimals.
pub fn format_cfg(fixed: &str) -> (r: String)
    ensures
        r@ == tidy(fixed@),
{
    let s = text::trim_end_char(text::trim_end_char(fixed, '0'), '.');
    if s.unicode_len() == 0 || text::same_text(s, "-") {
        "0".to_owned()
    } else {
        s.to_owned()
    }
}

/// The members of the body of a request without a reference.
pub open spec fn plain_members(req: TtsRequestView) -> Map<Seq<char>, Option<Seq<char>>> {
    let text_only = json::no_members().insert("text"@, Some(req.text));
    match req.continuation {
        Some(c) => text_only.insert("continuation"@, Some(c)),
        None => text_only,
    }
}

/// The body of a request without a reference.
pub fn build_plain_body(req: &TtsRequest) -> (body: serde_json::Value)
    ensures
        json::value_members(body) == plain_members(req@),
{
    let mut obj = json::new_object();
    json::insert_text(&mut obj, "text", req.text.as_str());
    if let Some(c) = &req.continuation {
        json::insert_text(&mut obj, "continuation", c.as_str());
    }
    json::object(obj)
}

/// The name under which an inline reference clip is sent.
pub fn reference_file_name() -> (s: &'static str)
    ensures
        s@ == "reference.wav"@,
{
    "reference.wav"
}

/// The type with which an inline reference clip is sent.
pub fn reference_mime() -> (s: &'static str)
    ensures
        s@ == "audio/wav"@,
{
    "audio/wav"
}

/// Where a reference clip comes from.
#[derive(Debug, Clone)]
pub enum ReferencePart {
    /// From these bytes.
    Inline(Bytes),
    /// From this file.
    Path(String),
}

/// Where a reference clip comes from.
#[verifier::ext_equal]
pub enum ReferencePartView {
    Inline(Seq<u8>),
    Path(Seq<char>),
}

impl View for ReferencePart {
    type V = ReferencePartView;

    open spec fn view(&self) -> ReferencePartView {
        match self {
            ReferencePart::Inline(b) => ReferencePartView::Inline(buffer::bytes_of(*b)),
            ReferencePart::Path(p) => ReferencePartView::Path(p@),
        }
    }
}

/// The reference clip of a request that has one, or what is missing.
pub open spec fn reference_of(req: TtsRequestView, audio: Option<Seq<u8>>) -> Result<
    ReferencePartView,
    Seq<char>,
> {
    if req.inline_reference {
        match audio {
            Some(b) => Ok(ReferencePartView::Inline(b)),
            None => Err("inline reference flagged but no audio bytes received"@),
        }
    } else {
        match req.reference {
            Some(p) => Ok(ReferencePartView::Path(p)),
            None => Err("voice cloning request missing `reference`"@),
        }
    }
}

/// The reference clip of a request that has one.
pub fn build_reference_part(req: &TtsRequest, audio: Option<Bytes>) -> (r: RelayResult<
    ReferencePart,
>)
    ensures
        match (r, reference_of(req@, buffer::opt_bytes(audio))) {
            (Ok(part), Ok(named)) => part@ == named,
            (Err(e), Err(msg)) => e.status == ST_BAD_REQUEST && e.message@ == msg,
            _ => false,
        },
{
    if req.inline_reference {
        match audio {
            Some(b) => Ok(ReferencePart::Inline(b)),
            None => Err(
                RelayError {
                    status: ST_BAD_REQUEST,
                    message: "inline reference flagged but no audio bytes received".to_owned(),
                },
            ),
        }
    } else {
        match &req.reference {
            Some(p) => Ok(ReferencePart::Path(p.clone())),
            None => Err(
                RelayError {
                    status: ST_BAD_REQUEST,
                    message: "voice cloning request missing `reference`".to_owned(),
                },
            ),
        }
    }
}

/// Whether relaying a request drops its continuation: the remote server takes
/// none when it clones a voice.
pub fn drops_continuation(req: &TtsRequest) -> (r: bool)
    ensures
        r == (clones(req@) && req@.continuation is Some),
{
    needs_clone(req) && req.continuation.is_some()
}

/// What is sent to the remote server.
#[derive(Debug)]
pub enum CallBody {
    /// A JSON object.
    Plain(serde_json::Value),
    /// A form with the text and the reference clip.
    Clone(String, ReferencePart),
}

/// What is sent to the remote server.
#[verifier::ext_equal]
pub enum CallBodyView {
    Plain(Map<Seq<char>, Option<Seq<char>>>),
    Clone(Seq<char>, ReferencePartView),
}

impl View for CallBody {
    type V = CallBodyView;

    open spec fn view(&self) -> CallBodyView {
        match self {
            CallBody::Plain(v) => CallBodyView::Plain(json::value_members(*v)),
            CallBody::Clone(t, part) => CallBodyView::Clone(t@, part@),
        }
    }
}

/// One call of the remote server.
#[derive(Debug)]
pub struct RelayCall {
    pub stream: bool,
    pub cfg: String,
    pub steps: i64,
    pub body: CallBody,
}

/// One call of the remote server.
#[verifier::ext_equal]
pub struct RelayCallView {
    pub stream: bool,
    pub cfg: Seq<char>,
    pub steps: int,
    pub body: CallBodyView,
}

impl View for RelayCall {
    type V = RelayCallView;

    open spec fn view(&self) -> RelayCallView {
        RelayCallView {
            stream: self.stream,
            cfg: self.cfg@,
            steps: self.steps as int,
            body: self.body@,
        }
    }
}

/// The endpoint for a call.
pub open spec fn endpoint_of(stream: bool, clone: bool) -> Seq<char> {
    if clone {
        if stream {
            "/sound/v1/tts/clone/stream"@
        } else {
            "/sound/v1/tts/clone"@
        }
    } else {
        if stream {
            "/sound/v1/tts/stream"@
        } else {
            "/sound/v1/tts"@
        }
    }
}

/// The endpoint that tells whether the remote server runs.
pub fn status_endpoint() -> (s: &'static str)
    ensures
        s@ == "/sound/v1/status"@,
{
    "/sound/v1/status"
}

impl RelayCall {
    /// The endpoint to call.
    pub fn endpoint(&self) -> (s: &'static str)
        ensures
            s@ == endpoint_of(self@.stream, self@.body is Clone),
    {
        match &self.body {
            CallBody::Clone(_, _) => if self.stream {
                "/sound/v1/tts/clone/stream"
            } else {
                "/sound/v1/tts/clone"
            },
            CallBody::Plain(_) => if self.stream {
                "/sound/v1/tts/stream"
            } else {
                "/sound/v1/tts"
            },
        }
    }
}

/// The call that relays a request, or what is missing.
pub open spec fn planned(
    req: TtsRequestView,
    audio: Option<Seq<u8>>,
    fixed: Seq<char>,
    stream: bool,
) -> Result<RelayCallView, Seq<char>> {
    let cfg = tidy(fixed);
    let steps = req.steps as int;
    if clones(req) {
        match reference_of(req, audio) {
            Ok(part) => Ok(
                RelayCallView { stream, cfg, steps, body: CallBodyView::Clone(req.text, part) },
            ),
            Err(msg) => Err(msg),
        }
    } else {
        Ok(RelayCallView { stream, cfg, steps, body: CallBodyView::Plain(plain_members(req)) })
    }
}

fn plan(req: &TtsRequest, audio: Option<Bytes>, fixed: &str, stream: bool) -> (r: RelayResult<
    RelayCall,
>)
    ensures
        match (r, planned(req@, buffer::opt_bytes(audio), fixed@, stream)) {
            (Ok(call), Ok(named)) => call@ == named,
            (Err(e), Err(msg)) => e.status == ST_BAD_REQUEST && e.message@ == msg,
            _ => false,
        },
{
    let body = if needs_clone(req) {
        match build_reference_part(req, audio) {
            Ok(part) => CallBody::Clone(req.text.clone(), part),
            Err(e) => {
                return Err(e);
            },
        }
    } else {
        CallBody::Plain(build_plain_body(req))
    };
    Ok(RelayCall { stream, cfg: format_cfg(fixed), steps: req.steps as i64, body })
}

/// Normalizing an address that has been normalized changes nothing, and an
/// address always has a scheme.
pub proof fn normalizing_settles(url: Seq<char>)
    ensures
        normalized(normalized(url)) == normalized(url),
        "http://"@.is_prefix_of(normalized(url)) || "https://"@.is_prefix_of(normalized(url)),
{
    reveal_strlit("http://");
    let s = text::trimmed(url);
    text::trimming_settles(url);
    let u = "http://"@ + s;
    assert(u.first() == 'h');
    assert(u.last() == if s.len() == 0 {
        '/'
    } else {
        s.last()
    });
    assert(u.subrange(0, 7) =~= "http://"@);
    assert(text::trimmed(u) == u);
}

/// A whole number keeps nothing of its decimals, and any other number loses
/// only the zeros at its end.
pub proof fn tidying_keeps_number(whole: Seq<char>, decimals: Seq<char>)
    requires
        whole.len() > 0,
        whole != "-"@,
        whole.last() != '.',
        forall|i: int| 0 <= i < decimals.len() ==> '0' <= #[trigger] decimals[i] <= '9',
    ensures
        ({
            let kept = text::without_trailing(decimals, '0');
            tidy(whole + seq!['.'] + decimals) == if kept.len() == 0 {
                whole
            } else {
                whole + seq!['.'] + kept
            }
        }),
{
    let kept = text::without_trailing(decimals, '0');
    let point = whole + seq!['.'];
    text::trailing_of_sum(point, decimals, '0');
    text::without_trailing_is_prefix(decimals, '0');
    assert(point.drop_last() =~= whole);
    assert(point.last() == '.');
    if kept.len() > 0 {
        assert((point + kept).last() == kept.last());
        assert(kept.last() == decimals[kept.len() - 1]);
        assert((point + kept).len() > 2);
        reveal_strlit("-");
    } else {
        assert(text::without_trailing(whole, '.') == whole);
        assert(text::without_trailing(point, '.') == whole);
    }
}

/// Whenever a request gives a call, the call has the request's steps and text
/// and the guidance that it was given, whether or not it streams and whether or
/// not it clones a voice. It clones one if and only if the request names a clip
/// or brings one along, and then has that clip. If it clones none, it has the
/// request's continuation, if there is one, and nothing besides.
pub proof fn calls_keep_the_request(
    req: TtsRequestView,
    audio: Option<Seq<u8>>,
    fixed: Seq<char>,
    stream: bool,
)
    ensures
        planned(req, audio, fixed, stream) matches Ok(call) ==> {
            &&& call.stream == stream
            &&& call.steps == req.steps
            &&& call.cfg == tidy(fixed)
            &&& call.body is Clone <==> req.inline_reference || req.reference is Some
            &&& match call.body {
                CallBodyView::Clone(words, part) => {
                    &&& words == req.text
                    &&& req.inline_reference ==> audio == Some(part->Inline_0) && part is Inline
                    &&& !req.inline_reference ==> req.reference == Some(part->Path_0)
                        && part is Path
                },
                CallBodyView::Plain(members) => {
                    &&& members.dom().contains("text"@) && members["text"@] == Some(req.text)
                    &&& members.dom().contains("continuation"@) <==> req.continuation is Some
                    &&& req.continuation is Some ==> members["continuation"@] == req.continuation
                    &&& forall|name: Seq<char>| #[trigger]
                        members.dom().contains(name) ==> name == "text"@ || name
                            == "continuation"@
                },
            }
        },
{
    reveal_strlit("text");
    reveal_strlit("continuation");
    assert("text"@.len() != "continuation"@.len());
}

/// A request gives no call if and only if it says that a clip comes along and
/// none does, and then it is told so.
pub proof fn calls_need_the_clip(
    req: TtsRequestView,
    audio: Option<Seq<u8>>,
    fixed: Seq<char>,
    stream: bool,
)
    ensures
        planned(req, audio, fixed, stream) is Err <==> req.inline_reference && audio is None,
        planned(req, audio, fixed, stream) matches Err(msg) ==> msg
            == "inline reference flagged but no audio bytes received"@,
{
}

/// That a request is to be streamed changes nothing else of its call.
pub proof fn streaming_changes_the_endpoint_only(
    req: TtsRequestView,
    audio: Option<Seq<u8>>,
    fixed: Seq<char>,
)
    ensures
        match (planned(req, audio, fixed, false), planned(req, audio, fixed, true)) {
            (Ok(whole), Ok(stream)) => {
                &&& !whole.stream && stream.stream
                &&& whole.cfg == stream.cfg
                &&& whole.steps == stream.steps
                &&& whole.body == stream.body
                &&& endpoint_of(stream.stream, stream.body is Clone) == endpoint_of(
                    whole.stream,
                    whole.body is Clone,
                ) + "/stream"@
            },
            (Err(a), Err(b)) => a == b,
            _ => false,
        },
{
    reveal_strlit("/stream");
    reveal_strlit("/sound/v1/tts");
    reveal_strlit("/sound/v1/tts/stream");
    reveal_strlit("/sound/v1/tts/clone");
    reveal_strlit("/sound/v1/tts/clone/stream");
    assert("/sound/v1/tts/stream"@ =~= "/sound/v1/tts"@ + "/stream"@);
    assert("/sound/v1/tts/clone/stream"@ =~= "/sound/v1/tts/clone"@ + "/stream"@);
}

/// The clip of a request is the one that came along, if the request says that
/// one does, and else the file that it names; if there is none, the request is
/// told which of them is missing.
pub proof fn clip_is_the_one_given(req: TtsRequestView, audio: Option<Seq<u8>>)
    ensures
        reference_of(req, audio) matches Ok(ReferencePartView::Inline(clip)) ==> req.inline_reference
            && audio == Some(clip),
        reference_of(req, audio) matches Ok(ReferencePartView::Path(path)) ==> !req.inline_reference
            && req.reference == Some(path),
        reference_of(req, audio) is Err <==> (req.inline_reference && audio is None) || (
        !req.inline_reference && req.reference is None),
        reference_of(req, audio) matches Err(msg) ==> msg == if req.inline_reference {
            "inline reference flagged but no audio bytes received"@
        } else {
            "voice cloning request missing `reference`"@
        },
{
}

/// A call says what its fields hold, and so do its parts.
pub proof fn calls_hold_their_fields(
    call: RelayCall,
    value: serde_json::Value,
    words: String,
    part: ReferencePart,
    clip: Bytes,
    path: String,
)
    ensures
        call@.stream == call.stream,
        call@.cfg == call.cfg@,
        call@.steps == call.steps,
        call@.body == call.body@,
        CallBody::Plain(value)@ == CallBodyView::Plain(json::value_members(value)),
        CallBody::Clone(words, part)@ == CallBodyView::Clone(words@, part@),
        ReferencePart::Inline(clip)@ == ReferencePartView::Inline(buffer::bytes_of(clip)),
        ReferencePart::Path(path)@ == ReferencePartView::Path(path@),
{
}

/// White space around an address does not matter. An address that names its
/// scheme is used as it is; one that does not gets one.
pub proof fn addresses_are_completed(before: Seq<char>, core: Seq<char>, after: Seq<char>)
    requires
        forall|i: int| 0 <= i < before.len() ==> text::is_white_space(#[trigger] before[i]),
        forall|i: int| 0 <= i < after.len() ==> text::is_white_space(#[trigger] after[i]),
        core.len() > 0 ==> !text::is_white_space(core.first()) && !text::is_white_space(
            core.last(),
        ),
    ensures
        ({
            let url = before + core + after;
            &&& "http://"@.is_prefix_of(core) ==> normalized(url) == core
            &&& "https://"@.is_prefix_of(core) ==> normalized(url) == core
            &&& !"http://"@.is_prefix_of(core) && !"https://"@.is_prefix_of(core)
                ==> normalized(url) == "http://"@ + core
            &&& says_running(url) <==> core == "running"@
        }),
{
    text::trimming_leaves_the_core(before, core, after);
}

/// Tidying a number with decimals takes the zeros off its end: some decimals
/// are kept, of which the last is no zero, all behind them are zeros, and the
/// point stays if and only if there are decimals behind it.
pub proof fn tidying_takes_zeros_only(whole: Seq<char>, decimals: Seq<char>) -> (n: int)
    requires
        whole.len() > 0,
        whole != "-"@,
        whole.last() != '.',
        forall|i: int| 0 <= i < decimals.len() ==> '0' <= #[trigger] decimals[i] <= '9',
    ensures
        0 <= n <= decimals.len(),
        n > 0 ==> decimals[n - 1] != '0',
        forall|i: int| n <= i < decimals.len() ==> #[trigger] decimals[i] == '0',
        tidy(whole + seq!['.'] + decimals) == if n == 0 {
            whole
        } else {
            whole + seq!['.'] + decimals.take(n)
        },
{
    let n = zeros_from(decimals);
    let kept = decimals.take(n);
    let run = Seq::new((decimals.len() - n) as nat, |i: int| '0');
    assert(decimals =~= kept + run);
    text::trailing_run_is_taken(kept, (decimals.len() - n) as nat, '0');
    tidying_keeps_number(whole, decimals);
    n
}

proof fn zeros_from(decimals: Seq<char>) -> (n: int)
    ensures
        0 <= n <= decimals.len(),
        n > 0 ==> decimals[n - 1] != '0',
        forall|i: int| n <= i < decimals.len() ==> #[trigger] decimals[i] == '0',
    decreases decimals.len(),
{
    if decimals.len() == 0 || decimals.last() != '0' {
        decimals.len() as int
    } else {
        let n = zeros_from(decimals.drop_last());
        assert forall|i: int| n <= i < decimals.len() implies #[trigger] decimals[i] == '0' by {
            if i < decimals.len() - 1 {
                assert(decimals[i] == decimals.drop_last()[i]);
            }
        }
        n
    }
}

/// A text that ends neither in a zero nor in a point is no number with
/// decimals and stays as it is. Nothing becomes empty or a bare sign.
pub proof fn tidying_leaves_the_rest(s: Seq<char>)
    ensures
        s.len() > 0 && s != "-"@ && s.last() != '0' && s.last() != '.' ==> tidy(s) == s,
        tidy(s).len() > 0,
        tidy(s) != "-"@,
{
    reveal_strlit("0");
    reveal_strlit("-");
    assert("0"@[0] != "-"@[0]);
}

/// A call that the remote server refused for its contents or its token is
/// answered as a bad request, one for which it has no model as a missing model,
/// and every other failure as a failed generation. The answer says which status
/// line came back, with what came with it, or else the reason as it is.
pub proof fn failures_are_passed_on(code: u16, line: String, body: String, reason: String)
    ensures
        ({
            let e = UpstreamError::Status { code, line, body };
            &&& e.status() == 4 <==> code == 400 || code == 401
            &&& e.status() == 2 <==> code == 503
            &&& e.status() == 2 || e.status() == 3 || e.status() == 4
            &&& e.text() == "upstream returned "@ + line@ + ": "@ + body@
        }),
        UpstreamError::Other(reason).status() == 3,
        UpstreamError::Other(reason).text() == reason@,
{
}

/// A voice is cloned if and only if the request names a clip or brings one
/// along.
pub proof fn cloning_needs_a_clip(req: TtsRequestView)
    ensures
        clones(req) <==> req.inline_reference || req.reference is Some,
{
}

/// Whichever way a request is relayed, what comes of it is a call with the
/// request's own steps, text and clip, and with the guidance it was given, and
/// it streams if and only if a stream was asked for.
pub proof fn relayed_requests_keep_their_fields(
    relay: Relay,
    req: TtsRequest,
    audio: Option<Bytes>,
    fixed: &str,
    whole: RelayResult<RelayCall>,
    stream: Result<RelayCall, StreamFrame>,
)
    requires
        call_ensures(Relay::tts, (&relay, &req, audio, fixed), whole),
        call_ensures(Relay::tts_stream, (&relay, &req, audio, fixed), stream),
    ensures
        whole is Ok <==> !req.inline_reference || audio is Some,
        stream is Ok <==> !req.inline_reference || audio is Some,
        whole matches Ok(call) ==> !call.stream && call_keeps(call, req, audio) && call.cfg@ == tidy(
            fixed@,
        ),
        stream matches Ok(call) ==> call.stream && call_keeps(call, req, audio) && call.cfg@ == tidy(
            fixed@,
        ),
        whole matches Err(e) ==> e.status == 4 && e.message@
            == "inline reference flagged but no audio bytes received"@,
        stream matches Err(frame) ==> frame.kind == 3 && payload::error_of(
            buffer::bytes_of(frame.payload),
        ) == (4u8, "inline reference flagged but no audio bytes received"@),
{
    reveal_strlit("text");
    reveal_strlit("continuation");
    assert("text"@.len() != "continuation"@.len());
    payload::error_payload_reads_back(
        ST_BAD_REQUEST,
        "inline reference flagged but no audio bytes received"@,
    );
}

/// Whether a call has a request's steps, text and clip, and its continuation
/// if there is no clip.
pub open spec fn call_keeps(call: RelayCall, req: TtsRequest, audio: Option<Bytes>) -> bool {
    &&& call.steps == req.steps
    &&& match call.body {
        CallBody::Clone(words, ReferencePart::Inline(clip)) => {
            &&& req.inline_reference
            &&& words@ == req.text@
            &&& audio is Some && buffer::bytes_of(clip) == buffer::bytes_of(audio->0)
        },
        CallBody::Clone(words, ReferencePart::Path(path)) => {
            &&& !req.inline_reference
            &&& words@ == req.text@
            &&& req.reference is Some && path@ == req.reference->0@
        },
        CallBody::Plain(value) => {
            let members = json::value_members(value);
            &&& !req.inline_reference && req.reference is None
            &&& members.dom().contains("text"@) && members["text"@] == Some(req.text@)
            &&& members.dom().contains("continuation"@) <==> req.continuation is Some
            &&& req.continuation is Some ==> members["continuation"@] == Some(
                req.continuation->0@,
            )
        },
    }
}

/// A relay goes to the address it is given, in the form in which addresses are
/// used, with the token it is given unless that is empty.
pub proof fn relays_begin_as_set(url: &str, token: Option<String>, relay: Relay)
    requires
        call_ensures(Relay::new, (url, token), relay),
    ensures
        relay@.upstream == normalized(url@),
        relay@.token is Some <==> token is Some && token->0@.len() > 0,
        relay@.token is Some ==> relay@.token->0 == token->0@,
{
}

/// The remote server runs if and only if it answered and said so.
pub proof fn answers_say_whether_it_runs(relay: Relay, body: Option<&str>, running: bool)
    requires
        call_ensures(Relay::status, (&relay, body), running),
    ensures
        running <==> (body matches Some(b) && text::trimmed(b@) == "running"@),
{
}

/// What ends a stream whose call or source failed is an error frame, with the
/// status for the failure and its reason.
pub proof fn failed_calls_end_the_stream(
    e: UpstreamError,
    a: StreamFrame,
    w: WavError,
    b: StreamFrame,
    reason: &str,
    c: StreamFrame,
)
    requires
        call_ensures(call_failed, (&e,), a),
        call_ensures(wav_failed, (w,), b),
        call_ensures(stream_failed, (reason,), c),
    ensures
        a.kind == 3 && b.kind == 3 && c.kind == 3,
        payload::error_of(buffer::bytes_of(a.payload)) == (e.status(), e.text()),
        payload::error_of(buffer::bytes_of(b.payload)) == (3u8, w.text()),
        payload::error_of(buffer::bytes_of(c.payload)) == (3u8, "upstream stream: "@ + reason@),
{
    payload::error_payload_reads_back(e.status(), e.text());
    payload::error_payload_reads_back(ST_GENERATION_FAILED, w.text());
    payload::error_payload_reads_back(ST_GENERATION_FAILED, "upstream stream: "@ + reason@);
}

/// A continuation is lost in relaying if and only if the request also has a
/// clip.
pub proof fn continuations_are_lost_to_clips(req: TtsRequest, r: bool)
    requires
        call_ensures(drops_continuation, (&req,), r),
    ensures
        r <==> req.continuation is Some && (req.inline_reference || req.reference is Some),
{
}

/// A call goes to the endpoint for what it asks: with a clip to the one for
/// cloning, and for a stream to the one that streams.
pub proof fn calls_go_to_their_endpoints(call: RelayCall, s: &'static str)
    requires
        call_ensures(RelayCall::endpoint, (&call,), s),
    ensures
        call.body is Plain && !call.stream ==> s@ == "/sound/v1/tts"@,
        call.body is Plain && call.stream ==> s@ == "/sound/v1/tts/stream"@,
        call.body is Clone && !call.stream ==> s@ == "/sound/v1/tts/clone"@,
        call.body is Clone && call.stream ==> s@ == "/sound/v1/tts/clone/stream"@,
{
}

} // verus!
