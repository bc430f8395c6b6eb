//! Requests: how the client makes them, and what worker and relay make of them.

use bytes::Bytes;
use mii_sound::client::tts::{
    acquire, build_request, invalid_shape, wire_request, Flags, Input, RequestError, UserReq,
};
use mii_sound::client::{
    fail_bad_request, fail_unknown, fail_unreachable, handle_response_status, run_status,
    server_error, split_found, split_json_and_rest, status_request, status_to_exit, InputError,
};
use mii_sound::proto::{
    Response, TtsRequest, OP_STATUS, OP_TTS, OP_TTS_BATCH, OP_TTS_STREAM, ST_BAD_REQUEST,
    ST_GENERATION_FAILED, ST_MODEL_MISSING, ST_OK, ST_UNKNOWN,
};
use mii_sound::proto::payload::parse_error_payload;
use mii_sound::server::relay::{
    build_plain_body, build_reference_part, drops_continuation, format_cfg, map_http_err,
    needs_clone, normalize_url, reference_file_name, reference_mime, status_endpoint, CallBody,
    ReferencePart, Relay, UpstreamError,
};
use mii_sound::synth::{
    build_prompt, encoded, generation_failed, prepare, stream_not_started, ModelError, Prompt,
    PromptAudio, SynthError,
};
use mii_sound::worker::{respond, respond_batch, task_for, Finished, Task};

fn user(text: &str, reference: Option<&str>) -> UserReq {
    UserReq {
        text: text.to_string(),
        reference: reference.map(str::to_string),
        continuation: Some("transcript".to_string()),
    }
}

fn flags(voice_clone: bool) -> Flags {
    Flags { voice_clone, cfg_bits: 2.0f32.to_bits(), steps: 12, stream: false }
}

fn refused(u: UserReq, f: Flags, tail: &[u8]) -> RequestError {
    build_request(u, f, tail.to_vec()).unwrap_err()
}

#[test]
fn a_plain_request_is_built() {
    let (req, audio) = build_request(user("hello", None), flags(false), b" \t\r\n\x0c".to_vec()).unwrap();
    assert_eq!(req.text, "hello");
    assert_eq!(req.reference, None);
    assert_eq!(req.continuation.as_deref(), Some("transcript"));
    assert_eq!((req.cfg_bits, req.steps), (2.0f32.to_bits(), 12));
    assert!(!req.inline_reference);
    assert!(audio.is_none());
    assert!(!needs_clone(&req));
}

#[test]
fn a_reference_is_kept() {
    let (req, audio) =
        build_request(user("hello", Some("/a.wav")), flags(true), Vec::new()).unwrap();
    assert_eq!(req.reference.as_deref(), Some("/a.wav"));
    assert!(!req.inline_reference && audio.is_none());
    assert!(needs_clone(&req));
}

#[test]
fn an_inline_reference_takes_what_follows_the_json() {
    let (req, audio) =
        build_request(user("hello", Some("<>")), flags(true), b"\nRIFF".to_vec()).unwrap();
    assert_eq!(req.reference, None);
    assert!(req.inline_reference);
    assert_eq!(audio.as_deref(), Some(&b"\nRIFF"[..]));
    assert!(needs_clone(&req));
    assert!(prepare(req, audio).is_ok());
}

#[test]
fn bad_requests_are_not_sent() {
    let e = refused(user(" \u{3000}\n", None), flags(false), b"");
    assert_eq!(e, RequestError::NoText);
    assert_eq!(e.message(), "`text` is required and must be non-empty");
    let e = refused(user("x", None), flags(true), b"");
    assert_eq!(e, RequestError::NoReference);
    assert_eq!(e.message(), "--voice-clone requires a `reference` field in the request JSON");
    let e = refused(user("x", Some("a")), flags(false), b"");
    assert_eq!(e, RequestError::StrayReference);
    assert_eq!(e.message(), "`reference` set but --voice-clone not specified");
    let e = refused(user("x", Some("<>")), flags(true), b"");
    assert_eq!(e, RequestError::NoAudio);
    assert_eq!(e.message(), "`reference` is `<>` but no audio bytes followed the JSON on stdin");
    let e = refused(user("x", None), flags(false), b" x");
    assert_eq!(e, RequestError::TrailingBytes);
    assert_eq!(e.message(), "trailing bytes after JSON but `reference` is not `<>`");
    assert_eq!(refused(user("x", Some("a")), flags(true), b"\x0b"), RequestError::TrailingBytes);
    assert_eq!(refused(user("", Some("a")), flags(false), b"x"), RequestError::NoText);
}

#[test]
fn a_request_travels_with_its_op() {
    let req = wire_request(b"{}".to_vec(), Some(Bytes::from_static(b"a")), false);
    assert_eq!((req.op, &req.json[..]), (OP_TTS, &b"{}"[..]));
    assert_eq!(req.audio.as_deref(), Some(&b"a"[..]));
    let req = wire_request(b"{}".to_vec(), None, true);
    assert_eq!(req.op, OP_TTS_STREAM);
    assert!(req.audio.is_none());
}

#[test]
fn json_is_split_off_what_follows() {
    let (value, rest) = split_json_and_rest(b" {\"text\":\"a\"}\nRIFF").unwrap();
    assert_eq!(value.get("text").and_then(|v| v.as_str()), Some("a"));
    assert_eq!(rest, b"\nRIFF");
    assert_eq!(split_json_and_rest(b" \n").unwrap_err(), InputError::Empty);
    assert_eq!(InputError::Empty.message(), "empty JSON input");
    assert_eq!(split_json_and_rest(b"{oops}").unwrap_err(), InputError::Invalid);
    assert_eq!(InputError::Invalid.message(), "invalid JSON on stdin");
}

#[test]
fn what_was_found_is_split_off() {
    let value = serde_json::Value::Bool(true);
    let (v, rest) = split_found(b"true!", Some(Ok((value, 4)))).unwrap();
    assert_eq!(v, serde_json::Value::Bool(true));
    assert_eq!(rest, b"!");
    assert_eq!(split_found(b"x", None).unwrap_err(), InputError::Empty);
    let e = serde_json::from_str::<serde_json::Value>("x").unwrap_err();
    assert_eq!(split_found(b"x", Some(Err(e))).unwrap_err(), InputError::Invalid);
}

#[test]
fn a_request_comes_from_the_command_line_or_the_standard_input() {
    let (value, tail) = acquire(Input::Inline("{\"text\":\"a\"}".to_string())).unwrap();
    assert_eq!(value.get("text").and_then(|v| v.as_str()), Some("a"));
    assert!(tail.is_empty());
    let reason = serde_json::from_str::<serde_json::Value>("{").unwrap_err();
    assert_eq!(
        acquire(Input::Inline("{".to_string())).unwrap_err(),
        format!("--json is not valid JSON: {reason}")
    );
    let (value, tail) = acquire(Input::Stdin(b"{}\xff\xfe".to_vec())).unwrap();
    assert!(value.is_object());
    assert_eq!(tail, b"\xff\xfe");
    assert_eq!(
        acquire(Input::Stdin(Vec::new())).unwrap_err(),
        "no JSON received on stdin (and no --json given)"
    );
    assert_eq!(acquire(Input::Stdin(b" ".to_vec())).unwrap_err(), "empty JSON input");
    assert_eq!(acquire(Input::Stdin(b"no".to_vec())).unwrap_err(), "invalid JSON on stdin");
    assert_eq!(
        acquire(Input::StdinFailed("closed".to_string())).unwrap_err(),
        "failed to read stdin: closed"
    );
    assert_eq!(invalid_shape("missing"), "invalid request shape: missing");
}

#[test]
fn statuses_have_exit_codes() {
    let codes: Vec<i32> = (0..=7).map(status_to_exit).collect();
    assert_eq!(codes, [0, 5, 2, 3, 4, 5, 5, 5]);
}

#[test]
fn a_status_check_prints_one_word() {
    let req = status_request();
    assert_eq!((req.op, req.json.len(), req.audio.is_none()), (OP_STATUS, 0, true));
    let up = Response { status: ST_OK, payload: Bytes::new() };
    let down = Response { status: ST_UNKNOWN, payload: Bytes::new() };
    assert_eq!(run_status(Some(&up)), ("running", 0));
    assert_eq!(run_status(Some(&down)), ("unreachable", 1));
    assert_eq!(run_status(None), ("unreachable", 1));
}

#[test]
fn failures_have_a_line_and_a_code() {
    let f = fail_bad_request("no");
    assert_eq!((f.line.as_str(), f.code), ("mii-sound: bad request: no", 4));
    let f = fail_unreachable("no");
    assert_eq!((f.line.as_str(), f.code), ("mii-sound: server unreachable: no", 1));
    let f = fail_unknown("no");
    assert_eq!((f.line.as_str(), f.code), ("mii-sound: error: no", 5));
}

#[test]
fn a_refusal_is_reported() {
    let refusal = |status: u8, payload: &'static [u8]| {
        handle_response_status(&Response { status, payload: Bytes::from_static(payload) })
    };
    assert!(refusal(ST_OK, b"anything").is_none());
    let end = refusal(ST_MODEL_MISSING, b"gone").unwrap();
    assert_eq!((end.line.as_deref(), end.code), (Some("mii-sound: server error: gone"), 2));
    let end = refusal(ST_GENERATION_FAILED, b"").unwrap();
    assert_eq!((end.line, end.code), (None, 3));
    let end = refusal(ST_BAD_REQUEST, b"\xff").unwrap();
    assert_eq!(
        (end.line.as_deref(), end.code),
        (Some("mii-sound: server error: <non-utf8 error>"), 4)
    );
    let end = server_error(ST_UNKNOWN, "x");
    assert_eq!((end.line.as_deref(), end.code), (Some("mii-sound: server error: x"), 5));
}

fn wire(reference: Option<&str>, continuation: Option<&str>, inline: bool) -> TtsRequest {
    TtsRequest {
        text: "say".to_string(),
        reference: reference.map(str::to_string),
        continuation: continuation.map(str::to_string),
        cfg_bits: 1.5f32.to_bits(),
        steps: 9,
        inline_reference: inline,
    }
}

#[test]
fn a_prompt_needs_a_clip() {
    assert!(build_prompt(&wire(None, None, false), None).unwrap().is_none());
    assert!(build_prompt(&wire(None, Some("t"), false), None).unwrap().is_none());
    match build_prompt(&wire(Some("/a"), None, false), None).unwrap() {
        Some(Prompt::Reference { audio: PromptAudio::Path(p) }) => assert_eq!(p, "/a"),
        other => panic!("{other:?}"),
    }
    let clip = Bytes::from_static(b"RIFF");
    match build_prompt(&wire(Some("/a"), Some("t"), true), Some(clip)).unwrap() {
        Some(Prompt::Continuation { audio: PromptAudio::Encoded(b), text }) => {
            assert_eq!((&b[..], text.as_str()), (&b"RIFF"[..], "t"));
        }
        other => panic!("{other:?}"),
    }
    assert_eq!(
        build_prompt(&wire(None, None, true), None).unwrap_err(),
        "inline reference flagged but no audio bytes received"
    );
}

#[test]
fn the_model_is_asked_for_what_the_request_says() {
    let g = prepare(wire(None, None, false), None).unwrap();
    assert_eq!(g.text, "say");
    assert_eq!((f32::from_bits(g.cfg_bits), g.timesteps), (1.5, 9));
    assert!(g.prompt.is_none());
    match prepare(wire(None, None, true), None).unwrap_err() {
        SynthError::Other(m) => {
            assert_eq!(m, "inline reference flagged but no audio bytes received")
        }
        other => panic!("{other:?}"),
    }
}

fn other(e: SynthError) -> String {
    match e {
        SynthError::Other(m) => m,
        SynthError::Cancelled => panic!("cancelled"),
    }
}

#[test]
fn what_the_model_says_is_passed_on() {
    assert!(matches!(generation_failed(ModelError::Cancelled), SynthError::Cancelled));
    assert_eq!(
        other(generation_failed(ModelError::Other("x".to_string()))),
        "generation failed: x"
    );
    assert_eq!(other(stream_not_started("x")), "generation failed: x");
    assert_eq!(&encoded(Ok(b"wav".to_vec())).unwrap()[..], b"wav");
    assert_eq!(other(encoded(Err("x".to_string())).unwrap_err()), "encoding wav failed: x");
}

#[test]
fn a_worker_knows_its_tasks() {
    assert!(matches!(task_for(OP_TTS), Task::Single));
    assert!(matches!(task_for(OP_TTS_STREAM), Task::Stream));
    assert!(matches!(task_for(OP_TTS_BATCH), Task::Batch));
    match task_for(OP_STATUS) {
        Task::Refuse(r) => assert_eq!(
            (r.status, &r.payload[..]),
            (ST_BAD_REQUEST, &b"worker received non-tts op 2"[..])
        ),
        other => panic!("{other:?}"),
    }
}

#[test]
fn a_worker_answers() {
    let parts = |end: Finished| {
        let r = respond(end);
        (r.status, String::from_utf8(r.payload.to_vec()).unwrap())
    };
    assert_eq!(
        parts(Finished::Synthesized(Ok(Bytes::from_static(b"wav")))),
        (ST_OK, "wav".to_string())
    );
    assert_eq!(
        parts(Finished::Synthesized(Err(SynthError::Cancelled))),
        (ST_GENERATION_FAILED, "cancelled".to_string())
    );
    assert_eq!(
        parts(Finished::Synthesized(Err(SynthError::Other("no".to_string())))),
        (ST_GENERATION_FAILED, "no".to_string())
    );
    assert_eq!(
        parts(Finished::Panicked("boom".to_string())),
        (ST_GENERATION_FAILED, "worker task panicked: boom".to_string())
    );
}

#[test]
fn an_address_gets_a_scheme() {
    assert_eq!(normalize_url(" host:7000\n"), "http://host:7000");
    assert_eq!(normalize_url("http://host"), "http://host");
    assert_eq!(normalize_url("https://host/x "), "https://host/x");
    assert_eq!(normalize_url("HTTP://host"), "http://HTTP://host");
    assert_eq!(normalize_url(""), "http://");
    for url in [" a b ", "https://x", "", "httpx"] {
        let once = normalize_url(url);
        assert_eq!(normalize_url(&once), once);
    }
}

#[test]
fn a_relay_knows_its_upstream() {
    let relay = Relay::new("host:1", Some("t".to_string()));
    assert_eq!((relay.upstream(), relay.token()), ("http://host:1", Some("t")));
    assert_eq!(Relay::new("h", Some(String::new())).token(), None);
    assert_eq!(Relay::new("h", None).token(), None);
    assert_eq!(relay.invalid_url("bad"), "invalid relay url http://host:1: bad");
    assert!(relay.status(Some(" running\n")));
    assert!(!relay.status(Some("unreachable")));
    assert!(!relay.status(None));
    assert_eq!(status_endpoint(), "/sound/v1/status");
}

#[test]
fn guidance_is_sent_without_needless_zeros() {
    let sent = |v: f32| format_cfg(&format!("{v:.4}"));
    assert_eq!(sent(2.0), "2");
    assert_eq!(sent(2.5), "2.5");
    assert_eq!(sent(0.0), "0");
    assert_eq!(sent(-0.0), "-0");
    assert_eq!(sent(100.0), "100");
    assert_eq!(sent(1.0625), "1.0625");
    assert_eq!(sent(f32::INFINITY), "inf");
    assert_eq!(format_cfg("0.0000"), "0");
    assert_eq!(format_cfg("0000"), "0");
    assert_eq!(format_cfg("-.0"), "0");
}

#[test]
fn a_plain_call_has_the_text_and_maybe_a_continuation() {
    let body = build_plain_body(&wire(None, None, false));
    let obj = body.as_object().unwrap();
    assert_eq!(obj.len(), 1);
    assert_eq!(obj["text"].as_str(), Some("say"));
    let body = build_plain_body(&wire(None, Some("more"), false));
    let obj = body.as_object().unwrap();
    assert_eq!(obj.len(), 2);
    assert_eq!(obj["text"].as_str(), Some("say"));
    assert_eq!(obj["continuation"].as_str(), Some("more"));
}

#[test]
fn a_clip_is_sent_from_where_it_is() {
    let clip = Bytes::from_static(b"RIFF");
    match build_reference_part(&wire(Some("/a"), None, true), Some(clip)).unwrap() {
        ReferencePart::Inline(b) => assert_eq!(&b[..], b"RIFF"),
        other => panic!("{other:?}"),
    }
    match build_reference_part(&wire(Some("/a"), None, false), None).unwrap() {
        ReferencePart::Path(p) => assert_eq!(p, "/a"),
        other => panic!("{other:?}"),
    }
    let e = build_reference_part(&wire(None, None, true), None).unwrap_err();
    assert_eq!(
        (e.status, e.message.as_str()),
        (ST_BAD_REQUEST, "inline reference flagged but no audio bytes received")
    );
    let e = build_reference_part(&wire(None, None, false), None).unwrap_err();
    assert_eq!(
        (e.status, e.message.as_str()),
        (ST_BAD_REQUEST, "voice cloning request missing `reference`")
    );
    assert_eq!((reference_file_name(), reference_mime()), ("reference.wav", "audio/wav"));
    assert!(drops_continuation(&wire(Some("/a"), Some("t"), false)));
    assert!(!drops_continuation(&wire(None, Some("t"), false)));
    assert!(!drops_continuation(&wire(Some("/a"), None, false)));
}

#[test]
fn a_relay_calls_the_endpoint_that_fits() {
    let relay = Relay::new("h", None);
    let call = relay.tts(&wire(None, None, false), None, "1.5000").unwrap();
    assert_eq!((call.endpoint(), call.cfg.as_str(), call.steps), ("/sound/v1/tts", "1.5", 9));
    assert!(matches!(call.body, CallBody::Plain(_)));
    let call = relay.tts(&wire(Some("/a"), None, false), None, "2.0000").unwrap();
    assert_eq!((call.endpoint(), call.cfg.as_str()), ("/sound/v1/tts/clone", "2"));
    match &call.body {
        CallBody::Clone(text, ReferencePart::Path(p)) => {
            assert_eq!((text.as_str(), p.as_str()), ("say", "/a"))
        }
        other => panic!("{other:?}"),
    }
    let call = relay.tts_stream(&wire(None, None, false), None, "1.5000").unwrap();
    assert_eq!(call.endpoint(), "/sound/v1/tts/stream");
    let call = relay.tts_stream(&wire(Some("/a"), None, false), None, "1.5000").unwrap();
    assert_eq!(call.endpoint(), "/sound/v1/tts/clone/stream");
    let e = relay.tts(&wire(None, None, true), None, "1.5000").unwrap_err();
    assert_eq!(e.status, ST_BAD_REQUEST);
    let frame = relay.tts_stream(&wire(None, None, true), None, "1.5000").unwrap_err();
    assert_eq!(
        parse_error_payload(&frame.payload),
        (ST_BAD_REQUEST, "inline reference flagged but no audio bytes received".to_string())
    );
}

#[test]
fn failed_calls_have_a_status() {
    let status = |code: u16| {
        let e = UpstreamError::Status {
            code,
            line: format!("{code} Reason"),
            body: "why".to_string(),
        };
        let r = map_http_err(&e);
        assert_eq!(r.message, format!("upstream returned {code} Reason: why"));
        r.status
    };
    assert_eq!(status(401), ST_BAD_REQUEST);
    assert_eq!(status(400), ST_BAD_REQUEST);
    assert_eq!(status(503), ST_MODEL_MISSING);
    assert_eq!(status(500), ST_GENERATION_FAILED);
    assert_eq!(status(404), ST_GENERATION_FAILED);
    let r = map_http_err(&UpstreamError::Other("down".to_string()));
    assert_eq!((r.status, r.message.as_str()), (ST_GENERATION_FAILED, "down"));
}

#[test]
fn a_worker_answers_a_batch_in_order() {
    let ends = vec![
        Finished::NotARequest("eof".to_string()),
        Finished::Synthesized(Ok(Bytes::from_static(b"wav"))),
        Finished::Synthesized(Err(SynthError::Cancelled)),
    ];
    let parts: Vec<(u8, Vec<u8>)> =
        respond_batch(ends).into_iter().map(|r| (r.status, r.payload.to_vec())).collect();
    assert_eq!(
        parts,
        [
            (ST_BAD_REQUEST, b"invalid tts json: eof".to_vec()),
            (ST_OK, b"wav".to_vec()),
            (ST_GENERATION_FAILED, b"cancelled".to_vec()),
        ]
    );
}

#[test]
fn what_became_of_a_request_reaches_the_client() {
    let ends = vec![
        (Finished::Synthesized(Err(SynthError::Other("no".to_string()))), "no"),
        (Finished::Panicked("boom".to_string()), "worker task panicked: boom"),
        (Finished::NotARequest("eof".to_string()), "invalid tts json: eof"),
    ];
    for (end, msg) in ends {
        let resp = mii_sound::server::respond(mii_sound::server::tts::classify(&respond(end)));
        let ending = handle_response_status(&resp).unwrap();
        assert_eq!(ending.code, 3);
        assert_eq!(ending.line, Some(format!("mii-sound: server error: {msg}")));
    }
}
