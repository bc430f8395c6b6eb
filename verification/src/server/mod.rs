//! The broker: accepts requests, batches them, and forwards them to the worker
//! or to a remote server.

pub mod batching;
pub mod dispatch;
pub mod holder;
pub mod relay;
pub mod stream_relay;
pub mod tts;
pub mod wav_stream;

use crate::buffer;
use crate::proto::payload;
use crate::proto::{
    Response, ResponseView, StreamFrame, StreamFrameView, OP_STATUS, OP_TTS, OP_TTS_STREAM,
    ST_BAD_REQUEST, ST_GENERATION_FAILED, ST_MODEL_MISSING, ST_OK, ST_UNKNOWN,
};
use crate::server::relay::RelayError;
use crate::server::tts::{TtsResult, TtsResultView};
use crate::text;
use bytes::Bytes;
use vstd::prelude::*;
use vstd::utf8::*;

verus! {

/// The response that reports an error.
pub open spec fn error_view(status: u8, msg: Seq<char>) -> ResponseView {
    ResponseView { status, payload: encode_utf8(msg) }
}

/// Builds the response that reports an error.
pub fn error_response(status: u8, msg: &str) -> (resp: Response)
    ensures
        resp@ == error_view(status, msg@),
{
    Response { status, payload: Bytes::copy_from_slice(msg.as_bytes()) }
}

/// The response to a request that succeeded.
pub open spec fn ok_view(payload: Seq<u8>) -> ResponseView {
    ResponseView { status: ST_OK, payload }
}

/// The token that clients have to send, if any: over the network the one that
/// is set, or an empty one.
pub fn expected_token(network: bool, set: Option<String>) -> (token: Option<String>)
    ensures
        text::opt_text(token) == if !network {
            None
        } else {
            match set {
                Some(t) => Some(t@),
                None => Some(Seq::<char>::empty()),
            }
        },
{
    if !network {
        return None;
    }
    match set {
        Some(t) => Some(t),
        None => {
            let t = String::new();
            assert(t@ =~= Seq::<char>::empty());
            Some(t)
        },
    }
}

/// What a client is told that sent `got` for a token where `expected` was: the
/// refusal, or nothing if it may go on.
pub fn check_token(expected: &Option<String>, got: &str) -> (refusal: Option<Response>)
    ensures
        match refusal {
            None => got@ == match *expected {
                Some(t) => t@,
                None => Seq::<char>::empty(),
            },
            Some(resp) => got@ != (match *expected {
                Some(t) => t@,
                None => Seq::<char>::empty(),
            }) && resp@ == error_view(ST_BAD_REQUEST, "invalid token"@),
        },
{
    let same: bool = match expected {
        Some(t) => text::same_text(got, t.as_str()),
        None => {
            let n: usize = got.unicode_len();
            assert(n == 0 <==> got@ =~= Seq::<char>::empty());
            n == 0
        },
    };
    if same {
        None
    } else {
        Some(error_response(ST_BAD_REQUEST, "invalid token"))
    }
}

/// Who does the work.
#[derive(Debug, Clone, Copy, PartialEq, Eq, Structural)]
pub enum Backend {
    /// Nobody: the server was started without a model.
    Missing,
    /// The engine.
    Engine,
    /// A remote server.
    Relay,
}

/// Who does the work, given what the server was started with. A remote server
/// gets all requests.
pub fn backend(has_model: bool, has_relay: bool) -> (b: Backend)
    ensures
        b == if has_relay {
            Backend::Relay
        } else if has_model {
            Backend::Engine
        } else {
            Backend::Missing
        },
{
    if has_relay {
        Backend::Relay
    } else if has_model {
        Backend::Engine
    } else {
        Backend::Missing
    }
}

/// What is done with a request.
#[derive(Debug)]
pub enum Route {
    /// It is answered at once.
    Answer(Response),
    /// It is answered at once with a frame.
    AnswerFrame(StreamFrame),
    /// The remote server is asked whether it runs.
    Probe,
    /// Speech is generated.
    Generate,
    /// Speech is generated and streamed.
    Stream,
}

/// What is done with a request.
#[verifier::ext_equal]
pub enum RouteView {
    Answer(ResponseView),
    AnswerFrame(StreamFrameView),
    Probe,
    Generate,
    Stream,
}

impl View for Route {
    type V = RouteView;

    open spec fn view(&self) -> RouteView {
        match self {
            Route::Answer(resp) => RouteView::Answer(resp@),
            Route::AnswerFrame(frame) => RouteView::AnswerFrame(frame@),
            Route::Probe => RouteView::Probe,
            Route::Generate => RouteView::Generate,
            Route::Stream => RouteView::Stream,
        }
    }
}

/// What is done with a request for `op`.
pub open spec fn route(op: u8, backend: Backend) -> RouteView {
    if op == OP_STATUS {
        if backend == Backend::Relay {
            RouteView::Probe
        } else {
            RouteView::Answer(ok_view(Seq::empty()))
        }
    } else if op == OP_TTS {
        if backend == Backend::Missing {
            RouteView::Answer(error_view(ST_MODEL_MISSING, "server was started without --tts-dir"@))
        } else {
            RouteView::Generate
        }
    } else if op == OP_TTS_STREAM {
        if backend == Backend::Missing {
            RouteView::AnswerFrame(
                payload::error_frame_view(
                    ST_MODEL_MISSING,
                    "server was started without --tts-dir"@,
                ),
            )
        } else {
            RouteView::Stream
        }
    } else {
        RouteView::Answer(error_view(ST_BAD_REQUEST, "unknown op "@ + text::decimal(op as nat)))
    }
}

/// What is done with a request for `op`.
pub fn dispatch(op: u8, backend: Backend) -> (r: Route)
    ensures
        r@ == route(op, backend),
{
    match op {
        OP_STATUS => match backend {
            Backend::Relay => Route::Probe,
            _ => Route::Answer(Response { status: ST_OK, payload: Bytes::new() }),
        },
        OP_TTS => match backend {
            Backend::Missing => Route::Answer(
                error_response(ST_MODEL_MISSING, "server was started without --tts-dir"),
            ),
            _ => Route::Generate,
        },
        OP_TTS_STREAM => match backend {
            Backend::Missing => Route::AnswerFrame(
                payload::error_frame(ST_MODEL_MISSING, "server was started without --tts-dir"),
            ),
            _ => Route::Stream,
        },
        other => {
            let msg = text::label_number("unknown op ", other as u64);
            Route::Answer(error_response(ST_BAD_REQUEST, msg.as_str()))
        },
    }
}

/// The answer to a request whose JSON is no request.
pub fn invalid_json(reason: &str) -> (resp: Response)
    ensures
        resp@ == error_view(ST_BAD_REQUEST, "invalid tts json: "@ + reason@),
{
    let msg = text::join("invalid tts json: ", reason);
    error_response(ST_BAD_REQUEST, msg.as_str())
}

/// The answer to a request for a stream whose JSON is no request.
pub fn invalid_stream_json(reason: &str) -> (frame: StreamFrame)
    ensures
        frame@ == payload::error_frame_view(ST_BAD_REQUEST, "invalid tts json: "@ + reason@),
{
    let msg = text::join("invalid tts json: ", reason);
    payload::error_frame(ST_BAD_REQUEST, msg.as_str())
}

/// The answer to a request, given what became of it.
pub open spec fn answer(result: TtsResultView) -> ResponseView {
    match result {
        TtsResultView::Done(payload) => ok_view(payload),
        TtsResultView::ModelMissing(msg) => error_view(ST_MODEL_MISSING, msg),
        TtsResultView::Cancelled => error_view(ST_GENERATION_FAILED, "cancelled"@),
        TtsResultView::Failed(msg) => error_view(ST_GENERATION_FAILED, msg),
    }
}

/// The answer to a request, given what became of it.
pub fn respond(result: TtsResult) -> (resp: Response)
    ensures
        resp@ == answer(result@),
{
    match result {
        TtsResult::Done(payload) => Response { status: ST_OK, payload },
        TtsResult::ModelMissing(msg) => error_response(ST_MODEL_MISSING, msg.as_str()),
        TtsResult::Cancelled => error_response(ST_GENERATION_FAILED, "cancelled"),
        TtsResult::Failed(msg) => error_response(ST_GENERATION_FAILED, msg.as_str()),
    }
}

/// The answer to a request that was relayed.
pub fn respond_relayed(result: Result<Bytes, RelayError>) -> (resp: Response)
    ensures
        resp@ == match result {
            Ok(payload) => ok_view(buffer::bytes_of(payload)),
            Err(e) => error_view(e.status, e.message@),
        },
{
    match result {
        Ok(payload) => Response { status: ST_OK, payload },
        Err(e) => error_response(e.status, e.message.as_str()),
    }
}

/// The answer to a status request, given whether the remote server at
/// `upstream` runs.
pub fn respond_status(running: bool, upstream: &str) -> (resp: Response)
    ensures
        resp@ == if running {
            ok_view(Seq::empty())
        } else {
            error_view(ST_UNKNOWN, "relay upstream is not running: "@ + upstream@)
        },
{
    if running {
        Response { status: ST_OK, payload: Bytes::new() }
    } else {
        let msg = text::join("relay upstream is not running: ", upstream);
        error_response(ST_UNKNOWN, msg.as_str())
    }
}

/// Whether a client has gone away, given how many bytes were read from its
/// connection, or nothing if reading failed. A request goes with its
/// connection; bytes that come after it mean nothing.
pub fn client_gone(read: Option<usize>) -> (gone: bool)
    ensures
        gone == (read is None || read == Some(0usize)),
{
    match read {
        None => true,
        Some(n) => n == 0,
    }
}

/// The address to listen at for a port.
pub fn bind_address(port: u16) -> (s: String)
    ensures
        s@ == "0.0.0.0:"@ + text::decimal(port as nat),
{
    text::label_number("0.0.0.0:", port as u64)
}

/// The broker hands on what the worker answered: audio and a missing model as
/// they are, and any other failure as a failed generation with the same
/// message. A cancelled request is told so.
pub proof fn broker_hands_on(resp: ResponseView)
    ensures
        resp.status == ST_OK ==> answer(tts::classified(resp)) == resp,
        resp.status == ST_MODEL_MISSING || resp.status == ST_GENERATION_FAILED ==> (valid_utf8(
            resp.payload,
        ) ==> answer(tts::classified(resp)) == resp),
        resp.status != ST_OK && resp.status != ST_MODEL_MISSING && resp.status
            != ST_GENERATION_FAILED ==> answer(tts::classified(resp)) == error_view(
            ST_GENERATION_FAILED,
            text::readable(resp.payload),
        ),
{
    if valid_utf8(resp.payload) {
        decode_utf8_encode_utf8(resp.payload);
    }
}

/// A response that reports an error has its status and the bytes of its
/// message; one to a request that succeeded has status zero and its payload.
pub proof fn responses_hold_their_fields(status: u8, msg: Seq<char>, data: Seq<u8>)
    ensures
        error_view(status, msg).status == status,
        error_view(status, msg).payload == encode_utf8(msg),
        ok_view(data).status == 0,
        ok_view(data).payload == data,
{
}

/// The answer tells what became of the request: the audio as it is if there is
/// any, else which kind of failure it was, and the message.
pub proof fn answers_tell_what_became(result: TtsResultView)
    ensures
        answer(result).status == 0 <==> result is Done,
        answer(result).status == 2 <==> result is ModelMissing,
        answer(result).status == 3 <==> result is Cancelled || result is Failed,
        match result {
            TtsResultView::Done(data) => answer(result).payload == data,
            TtsResultView::ModelMissing(msg) => answer(result).payload == encode_utf8(msg),
            TtsResultView::Cancelled => answer(result).payload == encode_utf8("cancelled"@),
            TtsResultView::Failed(msg) => answer(result).payload == encode_utf8(msg),
        },
{
}

/// Speech is generated, or streamed, for the requests for it if there is anyone
/// to do so. A remote server is asked whether it runs when the client asks, and
/// nothing else is asked of it for that. Every other request is answered at
/// once.
pub proof fn requests_are_routed(op: u8, backend: Backend)
    ensures
        route(op, backend) is Generate <==> op == 1 && backend != Backend::Missing,
        route(op, backend) is Stream <==> op == 3 && backend != Backend::Missing,
        route(op, backend) is Probe <==> op == 2 && backend == Backend::Relay,
        route(op, backend) is AnswerFrame <==> op == 3 && backend == Backend::Missing,
        route(op, backend) matches RouteView::AnswerFrame(frame) ==> frame.kind == 3
            && payload::error_of(frame.payload) == (2u8, "server was started without --tts-dir"@),
        route(op, backend) matches RouteView::Answer(resp) ==> {
            &&& op == 2 ==> resp.status == 0 && resp.payload.len() == 0
            &&& op == 1 ==> resp.status == 2 && resp.payload == encode_utf8(
                "server was started without --tts-dir"@,
            )
            &&& op != 1 && op != 2 ==> resp.status == 4 && resp.payload == encode_utf8(
                "unknown op "@ + text::decimal(op as nat),
            )
        },
{
    payload::error_payload_reads_back(ST_MODEL_MISSING, "server was started without --tts-dir"@);
}

/// What is done with a request is what the route holds.
pub proof fn routes_hold_their_fields(resp: Response, frame: StreamFrame)
    ensures
        Route::Answer(resp)@ == RouteView::Answer(resp@),
        Route::AnswerFrame(frame)@ == RouteView::AnswerFrame(frame@),
        Route::Probe@ == RouteView::Probe,
        Route::Generate@ == RouteView::Generate,
        Route::Stream@ == RouteView::Stream,
{
}

/// A client may go on if and only if it sent the token that the server goes by:
/// over the network the one that is set, or an empty one if none is, and locally
/// an empty one. Any other client is refused as a bad request.
pub proof fn clients_need_the_token(
    network: bool,
    set: Option<String>,
    expected: Option<String>,
    got: &str,
    refusal: Option<Response>,
)
    requires
        call_ensures(expected_token, (network, set), expected),
        call_ensures(check_token, (&expected, got), refusal),
    ensures
        network && set is Some ==> (refusal is None <==> got@ == set->0@),
        !network || set is None ==> (refusal is None <==> got@.len() == 0),
        refusal matches Some(resp) ==> resp.status == 4 && buffer::bytes_of(resp.payload)
            == encode_utf8("invalid token"@),
{
    assert(got@.len() == 0 ==> got@ =~= Seq::<char>::empty());
}

/// Speech is generated if and only if the server was started with a model or a
/// remote server to go to, and the remote server goes before the model.
pub proof fn backends_do_the_work(
    has_model: bool,
    has_relay: bool,
    b: Backend,
    whole: Route,
    stream: Route,
    probe: Route,
)
    requires
        call_ensures(backend, (has_model, has_relay), b),
        call_ensures(dispatch, (OP_TTS, b), whole),
        call_ensures(dispatch, (OP_TTS_STREAM, b), stream),
        call_ensures(dispatch, (OP_STATUS, b), probe),
    ensures
        b == Backend::Relay <==> has_relay,
        b == Backend::Engine <==> has_model && !has_relay,
        whole is Generate <==> has_model || has_relay,
        stream is Stream <==> has_model || has_relay,
        probe is Probe <==> has_relay,
        whole matches Route::Answer(resp) ==> resp.status == 2,
        probe matches Route::Answer(resp) ==> resp.status == 0,
        whole is Generate || whole is Answer,
        stream is Stream || stream is AnswerFrame,
        probe is Probe || probe is Answer,
{
}

/// What a client is answered has the audio if there is any, and else the status
/// and the message of what went wrong.
pub proof fn clients_are_answered(
    result: TtsResult,
    resp: Response,
    relayed: Result<Bytes, RelayError>,
    handed_on: Response,
    running: bool,
    upstream: &str,
    told: Response,
    reason: &str,
    invalid: Response,
    invalid_frame: StreamFrame,
)
    requires
        call_ensures(respond, (result,), resp),
        call_ensures(respond_relayed, (relayed,), handed_on),
        call_ensures(respond_status, (running, upstream), told),
        call_ensures(invalid_json, (reason,), invalid),
        call_ensures(invalid_stream_json, (reason,), invalid_frame),
    ensures
        match result {
            TtsResult::Done(data) => resp.status == 0 && buffer::bytes_of(resp.payload)
                == buffer::bytes_of(data),
            TtsResult::ModelMissing(msg) => resp.status == 2 && buffer::bytes_of(resp.payload)
                == encode_utf8(msg@),
            TtsResult::Cancelled => resp.status == 3 && buffer::bytes_of(resp.payload)
                == encode_utf8("cancelled"@),
            TtsResult::Failed(msg) => resp.status == 3 && buffer::bytes_of(resp.payload)
                == encode_utf8(msg@),
        },
        match relayed {
            Ok(data) => handed_on.status == 0 && buffer::bytes_of(handed_on.payload)
                == buffer::bytes_of(data),
            Err(e) => handed_on.status == e.status && buffer::bytes_of(handed_on.payload)
                == encode_utf8(e.message@),
        },
        told.status == 0 <==> running,
        !running ==> told.status == 5 && buffer::bytes_of(told.payload) == encode_utf8(
            "relay upstream is not running: "@ + upstream@,
        ),
        invalid.status == 4,
        buffer::bytes_of(invalid.payload) == encode_utf8("invalid tts json: "@ + reason@),
        invalid_frame.kind == 3,
        payload::error_of(buffer::bytes_of(invalid_frame.payload)) == (
            4u8,
            "invalid tts json: "@ + reason@,
        ),
{
    payload::error_payload_reads_back(ST_BAD_REQUEST, "invalid tts json: "@ + reason@);
}

/// A client has gone away if and only if reading from it failed or found the
/// end.
pub proof fn clients_go_away(read: Option<usize>, gone: bool)
    requires
        call_ensures(client_gone, (read,), gone),
    ensures
        !gone <==> (read matches Some(n) && n > 0),
{
}

} // verus!
