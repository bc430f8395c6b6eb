//! The client: sends a request and handles the answer.

pub mod stream;
pub mod tts;

use crate::buffer;
use crate::exit;
use crate::json;
use crate::proto::request;
use crate::proto::wire;
use crate::proto::{
    Request, Response, ResponseView, OP_STATUS, ST_BAD_REQUEST, ST_GENERATION_FAILED,
    ST_MODEL_MISSING, ST_OK,
};
use crate::server;
use crate::synth::SynthErrorView;
use crate::text;
use crate::worker;
use bytes::Bytes;
use vstd::prelude::*;
use vstd::utf8::*;

verus! {

/// The exit code for the status of a response.
pub open spec fn exit_of(status: u8) -> i32 {
    if status == ST_OK {
        exit::SUCCESS
    } else if status == ST_MODEL_MISSING {
        exit::MODEL_NOT_FOUND
    } else if status == ST_GENERATION_FAILED {
        exit::GENERATION_FAILED
    } else if status == ST_BAD_REQUEST {
        exit::BAD_REQUEST
    } else {
        exit::UNKNOWN
    }
}

/// The exit code for the status of a response.
pub fn status_to_exit(status: u8) -> (code: i32)
    ensures
        code == exit_of(status),
{
    match status {
        ST_OK => exit::SUCCESS,
        ST_MODEL_MISSING => exit::MODEL_NOT_FOUND,
        ST_GENERATION_FAILED => exit::GENERATION_FAILED,
        ST_BAD_REQUEST => exit::BAD_REQUEST,
        _ => exit::UNKNOWN,
    }
}

/// The request that asks whether the server runs.
pub fn status_request() -> (req: Request)
    ensures
        req@.op == OP_STATUS,
        req@.json.len() == 0,
        req@.audio is None,
{
    Request { op: OP_STATUS, json: Bytes::new(), audio: None }
}

/// What a status check prints, and its exit code, given the server's response,
/// if there was one.
pub fn run_status(resp: Option<&Response>) -> (r: (&'static str, i32))
    ensures
        ({
            let up = match resp {
                Some(x) => x.status == ST_OK,
                None => false,
            };
            &&& r.0@ == if up {
                "running"@
            } else {
                "unreachable"@
            }
            &&& r.1 == if up {
                exit::SUCCESS
            } else {
                exit::SERVER_UNREACHABLE
            }
        }),
{
    match resp {
        Some(x) => if x.status == ST_OK {
            ("running", exit::SUCCESS)
        } else {
            ("unreachable", exit::SERVER_UNREACHABLE)
        },
        None => ("unreachable", exit::SERVER_UNREACHABLE),
    }
}

/// Why the standard input gives no request.
#[derive(Debug, Clone, Copy, PartialEq, Eq, Structural)]
pub enum InputError {
    /// There is nothing but white space.
    Empty,
    /// What comes first is no JSON.
    Invalid,
}

impl InputError {
    /// The message for the user.
    pub open spec fn text(self) -> Seq<char> {
        match self {
            InputError::Empty => "empty JSON input"@,
            InputError::Invalid => "invalid JSON on stdin"@,
        }
    }

    /// The message for the user.
    pub fn message(self) -> (s: String)
        ensures
            s@ == self.text(),
    {
        match self {
            InputError::Empty => "empty JSON input".to_owned(),
            InputError::Invalid => "invalid JSON on stdin".to_owned(),
        }
    }
}

/// Splits the JSON value that was found at the start of `data` off the bytes
/// that follow it. `found` is the value and where it ends, why there is none,
/// or nothing if there is nothing but white space.
pub fn split_found(
    data: &[u8],
    found: Option<Result<(serde_json::Value, usize), serde_json::Error>>,
) -> (r: Result<(serde_json::Value, &[u8]), InputError>)
    requires
        found matches Some(Ok(f)) ==> f.1 <= data@.len(),
    ensures
        match (r, found) {
            (Ok(split), Some(Ok(f))) => split.0 == f.0 && split.1@ == data@.skip(f.1 as int),
            (Err(e), Some(Err(_))) => e == InputError::Invalid,
            (Err(e), None) => e == InputError::Empty,
            _ => false,
        },
{
    match found {
        None => Err(InputError::Empty),
        Some(Err(_)) => Err(InputError::Invalid),
        Some(Ok((value, end))) => {
            let rest = vstd::slice::slice_subrange(data, end, data.len());
            assert(rest@ =~= data@.skip(end as int));
            Ok((value, rest))
        },
    }
}

/// Splits the JSON value at the start of `data` off the bytes that follow it.
pub fn split_json_and_rest(data: &[u8]) -> (r: Result<(serde_json::Value, &[u8]), InputError>)
    ensures
        match (r, json::first_value(data@)) {
            (Ok(split), Some(Ok(named))) => named.1 <= data@.len() && json::value_members(split.0)
                == named.0 && split.1@ == data@.skip(named.1 as int),
            (Err(e), Some(Err(_))) => e == InputError::Invalid,
            (Err(e), None) => e == InputError::Empty,
            _ => false,
        },
{
    let found = json::read_first(data);
    split_found(data, found)
}

/// A line for the standard error and the exit code that goes with it.
#[derive(Debug)]
pub struct Failure {
    pub line: String,
    pub code: i32,
}

impl Failure {
    /// Whether this is the given line and code.
    pub open spec fn says(self, line: Seq<char>, code: i32) -> bool {
        self.line@ == line && self.code == code
    }
}

/// The request cannot be sent.
pub fn fail_bad_request(msg: &str) -> (f: Failure)
    ensures
        f.says("mii-sound: bad request: "@ + msg@, exit::BAD_REQUEST),
{
    Failure { line: text::join("mii-sound: bad request: ", msg), code: exit::BAD_REQUEST }
}

/// The server cannot be reached.
pub fn fail_unreachable(msg: &str) -> (f: Failure)
    ensures
        f.says("mii-sound: server unreachable: "@ + msg@, exit::SERVER_UNREACHABLE),
{
    Failure {
        line: text::join("mii-sound: server unreachable: ", msg),
        code: exit::SERVER_UNREACHABLE,
    }
}

/// Something else went wrong.
pub fn fail_unknown(msg: &str) -> (f: Failure)
    ensures
        f.says("mii-sound: error: "@ + msg@, exit::UNKNOWN),
{
    Failure { line: text::join("mii-sound: error: ", msg), code: exit::UNKNOWN }
}

/// How a client ends that has been answered with an error: a line for the
/// standard error, if there is anything to say, and the exit code.
#[derive(Debug)]
pub struct Ending {
    pub line: Option<String>,
    pub code: i32,
}

/// The line for the message of a server.
pub open spec fn server_error_line(msg: Seq<char>) -> Option<Seq<char>> {
    if msg.len() == 0 {
        None
    } else {
        Some("mii-sound: server error: "@ + msg)
    }
}

/// How a client ends that has been answered with this status and message.
pub fn server_error(status: u8, msg: &str) -> (end: Ending)
    ensures
        text::opt_text(end.line) == server_error_line(msg@),
        end.code == exit_of(status),
{
    let line = if msg.unicode_len() == 0 {
        None
    } else {
        Some(text::join("mii-sound: server error: ", msg))
    };
    Ending { line, code: status_to_exit(status) }
}

/// The message in the payload of a response.
pub open spec fn error_message(payload: Seq<u8>) -> Seq<char> {
    if valid_utf8(payload) {
        decode_utf8(payload)
    } else {
        "<non-utf8 error>"@
    }
}

/// How a client ends on this response, unless it goes on.
pub fn handle_response_status(resp: &Response) -> (end: Option<Ending>)
    ensures
        match end {
            None => resp@.status == ST_OK,
            Some(e) => resp@.status != ST_OK && text::opt_text(e.line) == server_error_line(
                error_message(resp@.payload),
            ) && e.code == exit_of(resp@.status),
        },
{
    if resp.status == ST_OK {
        return None;
    }
    match text::utf8_text(buffer::as_slice(&resp.payload)) {
        Ok(msg) => Some(server_error(resp.status, msg)),
        Err(_) => Some(server_error(resp.status, "<non-utf8 error>")),
    }
}

/// A client that is refused reports the message with which it was refused, and
/// an exit code that tells the kind of refusal.
pub proof fn refusal_is_reported(status: u8, msg: Seq<char>)
    ensures
        error_message(server::error_view(status, msg).payload) == msg,
        exit_of(status) == exit::SUCCESS <==> status == ST_OK,
        exit_of(status) == exit::MODEL_NOT_FOUND <==> status == ST_MODEL_MISSING,
        exit_of(status) == exit::GENERATION_FAILED <==> status == ST_GENERATION_FAILED,
        exit_of(status) == exit::BAD_REQUEST <==> status == ST_BAD_REQUEST,
{
    encode_utf8_valid_utf8(msg);
    encode_utf8_decode_utf8(msg);
}

/// What became of a request in the worker reaches the client through the
/// broker: the audio as it is, and of any failure the message, with the exit
/// code for a failed generation. All responses come through as they are, but
/// for one that refuses the request's JSON, which the broker has read before.
pub proof fn outcome_reaches_client(end: worker::Finished)
    ensures
        ({
            let resp = server::answer(server::tts::classified(worker::response_of(end)));
            &&& !(end is NotARequest) ==> resp == worker::response_of(end)
            &&& match end {
                worker::Finished::NotARequest(reason) => exit_of(resp.status)
                    == exit::GENERATION_FAILED && error_message(resp.payload)
                    == "invalid tts json: "@ + reason@,
                worker::Finished::Synthesized(Ok(payload)) => resp == server::ok_view(
                    buffer::bytes_of(payload),
                ),
                worker::Finished::Synthesized(Err(e)) => exit_of(resp.status)
                    == exit::GENERATION_FAILED && error_message(resp.payload) == match e@ {
                    SynthErrorView::Cancelled => "cancelled"@,
                    SynthErrorView::Other(msg) => msg,
                },
                worker::Finished::Panicked(msg) => exit_of(resp.status) == exit::GENERATION_FAILED
                    && error_message(resp.payload) == "worker task panicked: "@ + msg@,
            }
        }),
{
    let resp = worker::response_of(end);
    match end {
        worker::Finished::NotARequest(reason) => {
            refusal_is_reported(ST_GENERATION_FAILED, "invalid tts json: "@ + reason@);
            text::readable_reads_back("invalid tts json: "@ + reason@);
        },
        worker::Finished::Synthesized(Ok(payload)) => {},
        worker::Finished::Synthesized(Err(e)) => {
            let msg = match e@ {
                SynthErrorView::Cancelled => "cancelled"@,
                SynthErrorView::Other(msg) => msg,
            };
            refusal_is_reported(ST_GENERATION_FAILED, msg);
            encode_utf8_valid_utf8(msg);
        },
        worker::Finished::Panicked(msg) => {
            refusal_is_reported(ST_GENERATION_FAILED, "worker task panicked: "@ + msg@);
            encode_utf8_valid_utf8("worker task panicked: "@ + msg@);
        },
    }
    server::broker_hands_on(resp);
}

/// The exit code tells a response's status: zero if all is well, two for a
/// missing model, three for a failed generation, four for a bad request, and
/// five for anything else.
pub proof fn exits_tell_the_status(status: u8)
    ensures
        status == 0 ==> exit_of(status) == 0,
        2 <= status <= 4 ==> exit_of(status) == status,
        status == 1 || status > 4 ==> exit_of(status) == 5,
{
}

/// The message of a response is the text that its payload holds. A payload that
/// holds none is reported as such.
pub proof fn messages_are_read(msg: Seq<char>, payload: Seq<u8>)
    ensures
        error_message(encode_utf8(msg)) == msg,
        !valid_utf8(payload) ==> error_message(payload) == "<non-utf8 error>"@,
{
    encode_utf8_valid_utf8(msg);
    encode_utf8_decode_utf8(msg);
}

/// There is a line for the user if and only if there is a message, and it tells
/// the message.
pub proof fn messages_are_told(msg: Seq<char>)
    ensures
        msg.len() == 0 <==> server_error_line(msg) is None,
        msg.len() > 0 ==> server_error_line(msg) == Some("mii-sound: server error: "@ + msg),
{
}

/// A status check finds the server running if and only if it answered that all
/// is well, and the exit code tells so.
pub proof fn status_is_told(resp: Option<&Response>, r: (&'static str, i32))
    requires
        call_ensures(run_status, (resp,), r),
    ensures
        r.1 == 0 <==> (resp matches Some(x) && x.status == 0),
        r.1 == 0 || r.1 == 1,
        r.0@ == if r.1 == 0 {
            "running"@
        } else {
            "unreachable"@
        },
{
}

/// A client that is answered goes on if and only if all is well. Else it ends
/// with the message of the server, if there is one, and the exit code for its
/// status.
pub proof fn failures_end_the_client(resp: Response, msg: Seq<char>, end: Option<Ending>)
    requires
        call_ensures(handle_response_status, (&resp,), end),
        buffer::bytes_of(resp.payload) == encode_utf8(msg),
    ensures
        end is None <==> resp.status == 0,
        end matches Some(e) ==> {
            &&& e.line is None <==> msg.len() == 0
            &&& e.line matches Some(line) ==> line@ == "mii-sound: server error: "@ + msg
            &&& e.code == if 2 <= resp.status <= 4 {
                resp.status as i32
            } else {
                5
            }
        },
{
    messages_are_read(msg, Seq::empty());
}

/// What the broker answers for a failed call of the remote server is what the
/// client tells the user.
pub proof fn relayed_failures_reach_the_user(
    e: server::relay::UpstreamError,
    mapped: server::relay::RelayError,
    resp: Response,
    end: Option<Ending>,
)
    requires
        call_ensures(server::relay::map_http_err, (&e,), mapped),
        call_ensures(server::respond_relayed, (Err(mapped),), resp),
        call_ensures(handle_response_status, (&resp,), end),
    ensures
        end matches Some(x) && (x.line matches Some(line) ==> line@ == "mii-sound: server error: "@
            + e.text()) && (x.line is None <==> e.text().len() == 0) && x.code == match e {
            server::relay::UpstreamError::Status { code, line, body } => if code == 400 || code
                == 401 {
                4i32
            } else if code == 503 {
                2
            } else {
                3
            },
            server::relay::UpstreamError::Other(reason) => 3,
        },
{
    failures_end_the_client(resp, e.text(), end);
}

/// A value that was found is split off what follows it; if none was found, the
/// error says whether there was anything.
pub proof fn found_values_are_split_off(
    data: &[u8],
    found: Option<Result<(serde_json::Value, usize), serde_json::Error>>,
    r: Result<(serde_json::Value, &[u8]), InputError>,
)
    requires
        call_ensures(split_found, (data, found), r),
        found matches Some(Ok(f)) ==> f.1 <= data@.len(),
    ensures
        r is Ok <==> (found matches Some(Ok(_))),
        r matches Ok((value, rest)) ==> value == found->0->Ok_0.0 && data@.take(
            found->0->Ok_0.1 as int,
        ) + rest@ == data@,
        r matches Err(e) ==> (e == InputError::Empty <==> found is None),
{
    if let Ok((value, rest)) = r {
        let n = found->0->Ok_0.1 as int;
        assert(data@.take(n) + data@.skip(n) =~= data@);
    }
}

/// The request that asks whether the server runs is read as such.
pub proof fn status_requests_are_read(req: Request, rest: Seq<u8>)
    requires
        call_ensures(status_request, (), req),
    ensures
        request::parse_request(request::request_bytes(req@) + rest) matches wire::Parsed::Done(
            back,
            n,
        ) && n == request::request_bytes(req@).len() && back.op == 2 && back.json.len() == 0
            && back.audio is None,
{
    request::request_fields_read_back(req@, rest);
}

/// A client that cannot go on tells why, and its exit code tells the kind of
/// failure.
pub proof fn failures_tell_their_kind(msg: &str, bad: Failure, unreachable: Failure, unknown: Failure)
    requires
        call_ensures(fail_bad_request, (msg,), bad),
        call_ensures(fail_unreachable, (msg,), unreachable),
        call_ensures(fail_unknown, (msg,), unknown),
    ensures
        bad.line@ == "mii-sound: bad request: "@ + msg@,
        bad.code == 4,
        unreachable.line@ == "mii-sound: server unreachable: "@ + msg@,
        unreachable.code == 1,
        unknown.line@ == "mii-sound: error: "@ + msg@,
        unknown.code == 5,
{
}

} // verus!
