//! The broker: queue, batches, workers, streams and answers.

use bytes::Bytes;
use mii_sound::proto::batch::read_batch_request_body;
use mii_sound::proto::payload::parse_error_payload;
use mii_sound::proto::wire::Read;
use mii_sound::proto::{
    Request, Response, StreamFrame, TtsRequest, KIND_CHUNK, KIND_END, KIND_ERROR, KIND_HEADER, OP_STATUS,
    OP_TTS, OP_TTS_BATCH, OP_TTS_STREAM, ST_BAD_REQUEST, ST_GENERATION_FAILED, ST_MODEL_MISSING,
    ST_OK, ST_UNKNOWN,
};
use mii_sound::server::batching::{BatchKey, PendingItem};
use mii_sound::server::dispatch::{BatchRun, RunAction, RunEvent};
use mii_sound::server::holder::{due, eviction_tick, ResourceHolder};
use mii_sound::server::relay::RelayError;
use mii_sound::server::stream_relay::{stream_request, RelayAction, RelayEvent, StreamRelay};
use mii_sound::server::tts::{
    check_ready, classify, worker_args, worker_log_level, BatchEnd, Fate, Gather, Round, TtsEngine,
    TtsResult, WorkerArg, DEFAULT_BATCH_GRACE,
};
use mii_sound::server::{
    backend, bind_address, check_token, client_gone, dispatch, error_response, expected_token, invalid_json,
    invalid_stream_json, respond, respond_relayed, respond_status, Backend, Route,
};
use std::path::PathBuf;

fn engine(parallel: usize) -> TtsEngine<u32> {
    TtsEngine::new(PathBuf::from("/models"), 600, false, parallel, 50)
}

fn request(cfg: f32, steps: u32) -> TtsRequest {
    TtsRequest {
        text: "hi".to_string(),
        reference: None,
        continuation: None,
        cfg_bits: cfg.to_bits(),
        steps,
        inline_reference: false,
    }
}

fn submit(e: &mut TtsEngine<u32>, id: u32, cfg: f32, steps: u32) {
    let json = Bytes::from(format!("{{{id}}}"));
    assert!(e.generate(json, None, Ok(request(cfg, steps)), id).is_none());
}

fn ids(items: &[PendingItem<u32>]) -> Vec<u32> {
    items.iter().map(|i| i.handle).collect()
}

fn waiting(e: &TtsEngine<u32>) -> Vec<u32> {
    e.queue.iter().map(|i| i.handle).collect()
}

fn failed(r: &TtsResult) -> &str {
    match r {
        TtsResult::Failed(msg) => msg,
        other => panic!("{other:?}"),
    }
}

#[test]
fn an_engine_puts_its_settings_in_range() {
    let e: TtsEngine<u32> = TtsEngine::new(PathBuf::from("/m"), 7, true, 0, 0);
    assert_eq!(e.model_dir, PathBuf::from("/m"));
    assert_eq!((e.ttl, e.cpu, e.parallel, e.batch_window), (7, true, 1, DEFAULT_BATCH_GRACE));
    assert_eq!(DEFAULT_BATCH_GRACE, 300_000_000);
    let e = engine(4);
    assert_eq!((e.parallel, e.batch_window, e.queue.len()), (4, 50, 0));
}

#[test]
fn a_request_whose_json_is_none_does_not_wait() {
    let mut e = engine(2);
    let (id, r) = e.generate(Bytes::new(), None, Err("eof".to_string()), 5).unwrap();
    assert_eq!((id, failed(&r)), (5, "invalid tts json: eof"));
    assert!(e.queue.is_empty());
}

#[test]
fn without_batching_requests_run_one_by_one() {
    let mut e = engine(1);
    for id in 1..=3 {
        submit(&mut e, id, 2.0, 10);
    }
    let round = e.begin_round().unwrap();
    assert_eq!(ids(&round.batch), [1]);
    assert_eq!(e.next_step(&round, 0), Gather::Dispatch);
    assert_eq!(waiting(&e), [2, 3]);
}

#[test]
fn a_batch_takes_what_matches_and_leaves_the_rest_in_order() {
    let mut e = engine(3);
    submit(&mut e, 1, 2.0, 10);
    submit(&mut e, 2, 2.5, 10);
    submit(&mut e, 3, 2.0, 10);
    submit(&mut e, 4, 2.0, 11);
    submit(&mut e, 5, 2.0, 10);
    submit(&mut e, 6, 2.0, 10);
    let round = e.begin_round().unwrap();
    assert_eq!(round.key, BatchKey { cfg_bits: 2.0f32.to_bits(), steps: 10 });
    assert_eq!(ids(&round.batch), [1, 3, 5]);
    assert_eq!(waiting(&e), [2, 4, 6]);
    let round = e.begin_round().unwrap();
    assert_eq!(ids(&round.batch), [2]);
    assert_eq!(waiting(&e), [4, 6]);
}

#[test]
fn a_batch_waits_for_more_until_it_is_full_or_the_window_closes() {
    let mut e = engine(2);
    assert!(e.begin_round().is_none());
    submit(&mut e, 1, 2.0, 10);
    let mut round = e.begin_round().unwrap();
    assert_eq!(e.next_step(&round, 0), Gather::Wait(50));
    assert_eq!(e.next_step(&round, 20), Gather::Wait(30));
    assert_eq!(e.next_step(&round, 50), Gather::Dispatch);
    submit(&mut e, 2, 3.0, 10);
    e.fill(&mut round);
    assert_eq!(ids(&round.batch), [1]);
    submit(&mut e, 3, 2.0, 10);
    submit(&mut e, 4, 2.0, 10);
    e.fill(&mut round);
    assert_eq!(ids(&round.batch), [1, 3]);
    assert_eq!(waiting(&e), [2, 4]);
    assert_eq!(e.next_step(&round, 20), Gather::Dispatch);
}

fn batch_of(e: &mut TtsEngine<u32>, n: u32) -> Round<u32> {
    for id in 1..=n {
        submit(e, id, 2.0, 10);
    }
    e.begin_round().unwrap()
}

#[test]
fn a_worker_that_cannot_start_is_a_missing_model() {
    let mut e = engine(4);
    let round = batch_of(&mut e, 2);
    let (replies, fate) = e.conclude(round.batch, BatchEnd::SpawnFailed("no".to_string()));
    assert_eq!(fate, Fate::Dropped);
    assert_eq!(replies.len(), 2);
    for (i, (id, r)) in replies.iter().enumerate() {
        assert_eq!(*id, i as u32 + 1);
        assert!(matches!(r, TtsResult::ModelMissing(m) if m == "no"));
    }
}

#[test]
fn a_worker_that_exited_costs_only_time() {
    let mut e = engine(2);
    submit(&mut e, 1, 2.0, 10);
    submit(&mut e, 2, 9.0, 10);
    submit(&mut e, 3, 2.0, 10);
    let round = e.begin_round().unwrap();
    assert_eq!(ids(&round.batch), [1, 3]);
    submit(&mut e, 4, 2.0, 10);
    let (replies, fate) = e.conclude(round.batch, BatchEnd::Exited);
    assert!(replies.is_empty());
    assert_eq!(fate, Fate::Dropped);
    assert_eq!(waiting(&e), [1, 3, 2, 4]);
    let round = e.begin_round().unwrap();
    assert_eq!(ids(&round.batch), [1, 3]);
}

#[test]
fn a_broken_pipe_fails_the_whole_batch() {
    let ends =
        [BatchEnd::WriteFailed("broken".to_string()), BatchEnd::ReadFailed("broken".to_string())];
    for end in ends {
        let mut e = engine(3);
        let round = batch_of(&mut e, 3);
        let (replies, fate) = e.conclude(round.batch, end);
        assert_eq!(fate, Fate::Dropped);
        assert_eq!(replies.len(), 3);
        for (_, r) in &replies {
            assert_eq!(failed(r), "worker pipe error: broken");
        }
        assert!(e.queue.is_empty());
    }
}

fn response(status: u8, payload: &'static [u8]) -> Response {
    Response { status, payload: Bytes::from_static(payload) }
}

#[test]
fn every_request_gets_its_own_answer() {
    let mut e = engine(4);
    let round = batch_of(&mut e, 4);
    let answers = vec![
        response(ST_OK, b"wav"),
        response(ST_MODEL_MISSING, b"where"),
        response(ST_GENERATION_FAILED, b"cancelled"),
    ];
    let (replies, fate) = e.conclude(round.batch, BatchEnd::Answered(answers));
    assert_eq!(fate, Fate::Used);
    assert_eq!(replies.iter().map(|r| r.0).collect::<Vec<u32>>(), [1, 2, 3, 4]);
    assert!(matches!(&replies[0].1, TtsResult::Done(b) if &b[..] == b"wav"));
    assert!(matches!(&replies[1].1, TtsResult::ModelMissing(m) if m == "where"));
    assert!(matches!(&replies[2].1, TtsResult::Cancelled));
    assert_eq!(failed(&replies[3].1), "dispatcher dropped request");
}

#[test]
fn answers_too_many_are_ignored() {
    let mut e = engine(1);
    let round = batch_of(&mut e, 1);
    let answers = vec![response(ST_OK, b"a"), response(ST_OK, b"b")];
    let (replies, _) = e.conclude(round.batch, BatchEnd::Answered(answers));
    assert_eq!(replies.len(), 1);
}

#[test]
fn a_response_that_is_not_utf8_is_still_readable() {
    assert_eq!(failed(&classify(&response(ST_GENERATION_FAILED, b"a\xff"))), "a\u{fffd}");
    assert_eq!(failed(&classify(&response(ST_BAD_REQUEST, b"cancelled"))), "cancelled");
    assert_eq!(failed(&classify(&response(ST_GENERATION_FAILED, b"cancelled!"))), "cancelled!");
}

#[test]
fn a_batch_is_sent_to_a_worker_that_is_alive() {
    let mut e = engine(2);
    let round = batch_of(&mut e, 2);
    let (mut run, first) = BatchRun::start(false, round.batch.len());
    assert!(matches!(first, RunAction::Spawn));
    assert!(matches!(run.step(&round.batch, RunEvent::Sent), RunAction::Ignore));
    assert!(matches!(run.step(&round.batch, RunEvent::Spawned), RunAction::Check));
    let message = match run.step(&round.batch, RunEvent::Running) {
        RunAction::Send(m) => m,
        other => panic!("{other:?}"),
    };
    assert_eq!(&message[..2], [1, OP_TTS_BATCH]);
    match read_batch_request_body(&message[2..]) {
        Read::Done(items, n) => {
            assert_eq!(n, message.len() - 2);
            assert_eq!(&items[0].json[..], b"{1}");
            assert_eq!(&items[1].json[..], b"{2}");
        }
        other => panic!("{other:?}"),
    }
    assert!(matches!(run.step(&round.batch, RunEvent::Sent), RunAction::Receive));
    let answers = vec![response(ST_OK, b"x")];
    match run.step(&round.batch, RunEvent::Answered(answers)) {
        RunAction::End(BatchEnd::Answered(a)) => assert_eq!(a.len(), 1),
        other => panic!("{other:?}"),
    }
    assert!(matches!(run.step(&round.batch, RunEvent::Spawned), RunAction::Ignore));
}

#[test]
fn a_batch_is_cancelled_when_the_last_client_has_gone() {
    let mut e = engine(3);
    let round = batch_of(&mut e, 3);
    let (mut run, first) = BatchRun::start(true, 3);
    assert!(matches!(first, RunAction::Check));
    run.step(&round.batch, RunEvent::Running);
    assert!(matches!(run.step(&round.batch, RunEvent::ClientGone), RunAction::Ignore));
    assert_eq!(run.tally.gone, 0);
    run.step(&round.batch, RunEvent::Sent);
    assert!(matches!(run.step(&round.batch, RunEvent::ClientGone), RunAction::Ignore));
    assert!(matches!(run.step(&round.batch, RunEvent::ClientGone), RunAction::Ignore));
    assert!(matches!(run.step(&round.batch, RunEvent::ClientGone), RunAction::Signal));
    assert!(matches!(run.step(&round.batch, RunEvent::ClientGone), RunAction::Ignore));
}

#[test]
fn a_batch_can_end_in_other_ways() {
    let batch = batch_of(&mut engine(1), 1).batch;
    let (mut run, _) = BatchRun::start(false, 1);
    let end = run.step(&batch, RunEvent::SpawnFailed("a".to_string()));
    assert!(matches!(end, RunAction::End(BatchEnd::SpawnFailed(m)) if m == "a"));
    let (mut run, _) = BatchRun::start(true, 1);
    let end = run.step(&batch, RunEvent::Exited);
    assert!(matches!(end, RunAction::End(BatchEnd::Exited)));
    let (mut run, _) = BatchRun::start(true, 1);
    run.step(&batch, RunEvent::Running);
    let end = run.step(&batch, RunEvent::SendFailed("b".to_string()));
    assert!(matches!(end, RunAction::End(BatchEnd::WriteFailed(m)) if m == "b"));
    let (mut run, _) = BatchRun::start(true, 1);
    run.step(&batch, RunEvent::Running);
    run.step(&batch, RunEvent::Sent);
    let end = run.step(&batch, RunEvent::ReadFailed("c".to_string()));
    assert!(matches!(end, RunAction::End(BatchEnd::ReadFailed(m)) if m == "c"));
}

#[test]
fn a_batch_that_is_too_large_is_not_sent() {
    let mut e = engine(2000);
    let round = batch_of(&mut e, 1025);
    assert_eq!(round.batch.len(), 1025);
    let (mut run, _) = BatchRun::start(true, round.batch.len());
    let end = run.step(&round.batch, RunEvent::Running);
    assert!(
        matches!(end, RunAction::End(BatchEnd::WriteFailed(m)) if m == "batch too large: 1025")
    );
}

fn streamed() -> Request {
    stream_request(Bytes::from_static(b"{}"), Some(Bytes::from_static(b"a")))
}

fn plain(kind: u8) -> StreamFrame {
    StreamFrame { kind, payload: Bytes::from_static(b"p") }
}

fn error_of(action: RelayAction) -> (u8, String, Fate) {
    match action {
        RelayAction::Finish(f, fate) => {
            assert_eq!(f.kind, KIND_ERROR);
            let (status, msg) = parse_error_payload(&f.payload);
            (status, msg, fate)
        }
        other => panic!("{other:?}"),
    }
}

#[test]
fn a_stream_request_keeps_what_the_client_sent() {
    let req = stream_request(Bytes::from_static(b"{}"), Some(Bytes::from_static(b"a")));
    assert_eq!((req.op, &req.json[..]), (OP_TTS_STREAM, &b"{}"[..]));
    assert_eq!(req.audio.as_deref(), Some(&b"a"[..]));
}

#[test]
fn a_stream_is_relayed_frame_by_frame() {
    let (mut relay, first) = StreamRelay::start(false);
    assert!(matches!(first, RelayAction::Spawn));
    assert!(matches!(relay.step(&streamed(), RelayEvent::Spawned), RelayAction::Check));
    match relay.step(&streamed(), RelayEvent::Running) {
        RelayAction::Send(message) => {
            assert_eq!(message, b"\x01\x03\x02\0\0\0{}\x01\0\0\0a")
        }
        other => panic!("{other:?}"),
    }
    assert!(matches!(relay.step(&streamed(), RelayEvent::Cancel), RelayAction::Ignore));
    assert!(matches!(relay.step(&streamed(), RelayEvent::Sent), RelayAction::Receive));
    for kind in [KIND_HEADER, KIND_CHUNK, 77] {
        match relay.step(&streamed(), RelayEvent::Frame(plain(kind))) {
            RelayAction::Forward(f) => assert_eq!((f.kind, &f.payload[..]), (kind, &b"p"[..])),
            other => panic!("{other:?}"),
        }
    }
    assert!(matches!(relay.step(&streamed(), RelayEvent::Cancel), RelayAction::Signal));
    assert!(matches!(relay.step(&streamed(), RelayEvent::Cancel), RelayAction::Ignore));
    assert!(matches!(relay.step(&streamed(), RelayEvent::Frame(plain(KIND_CHUNK))), RelayAction::Forward(_)));
    match relay.step(&streamed(), RelayEvent::Frame(plain(KIND_END))) {
        RelayAction::Finish(f, fate) => assert_eq!((f.kind, fate), (KIND_END, Fate::Used)),
        other => panic!("{other:?}"),
    }
    assert!(matches!(relay.step(&streamed(), RelayEvent::Frame(plain(KIND_CHUNK))), RelayAction::Ignore));
}

#[test]
fn a_stream_that_cannot_be_relayed_ends_with_an_error() {
    let (mut relay, _) = StreamRelay::start(false);
    assert_eq!(
        error_of(relay.step(&streamed(), RelayEvent::SpawnFailed("no model".to_string()))),
        (ST_MODEL_MISSING, "no model".to_string(), Fate::Dropped)
    );
    let (mut relay, first) = StreamRelay::start(true);
    assert!(matches!(first, RelayAction::Check));
    assert_eq!(
        error_of(relay.step(&streamed(), RelayEvent::Exited("signal: 9".to_string()))),
        (
            ST_GENERATION_FAILED,
            "worker exited before request (signal: 9)".to_string(),
            Fate::Dropped
        )
    );
    let (mut relay, _) = StreamRelay::start(true);
    relay.step(&streamed(), RelayEvent::Running);
    assert_eq!(
        error_of(relay.step(&streamed(), RelayEvent::SendFailed("closed".to_string()))),
        (ST_GENERATION_FAILED, "worker pipe error: closed".to_string(), Fate::Dropped)
    );
    let (mut relay, _) = StreamRelay::start(true);
    relay.step(&streamed(), RelayEvent::Running);
    relay.step(&streamed(), RelayEvent::Sent);
    assert_eq!(
        error_of(relay.step(&streamed(), RelayEvent::ReadFailed("eof".to_string()))),
        (ST_GENERATION_FAILED, "worker pipe error: eof".to_string(), Fate::Dropped)
    );
}

#[test]
fn a_worker_is_started_with_its_words() {
    let words = |cpu: bool| -> Vec<String> {
        worker_args(cpu)
            .iter()
            .map(|a| match a {
                WorkerArg::Word(w) => w.to_string(),
                WorkerArg::ModelDir => "DIR".to_string(),
            })
            .collect()
    };
    assert_eq!(words(false), ["tts-worker", "--tts-dir", "DIR"]);
    assert_eq!(words(true), ["tts-worker", "--tts-dir", "DIR", "--cpu"]);
    assert_eq!(worker_log_level(false), Some("info"));
    assert_eq!(worker_log_level(true), None);
}

#[test]
fn a_worker_says_when_it_is_ready() {
    assert_eq!(check_ready(Ok(0)), Ok(()));
    assert_eq!(check_ready(Ok(7)), Err("worker sent unexpected ready byte: 7".to_string()));
    assert_eq!(
        check_ready(Err("eof".to_string())),
        Err("worker did not become ready: eof".to_string())
    );
}

#[test]
fn idle_resources_are_looked_at_now_and_then() {
    assert_eq!(eviction_tick(0), None);
    assert_eq!(eviction_tick(1), Some(1_000_000_000));
    assert_eq!(eviction_tick(5_000_000_000), Some(5_000_000_000));
    assert_eq!(eviction_tick(600_000_000_000), Some(10_000_000_000));
    assert!(!due(0, 0, u128::MAX));
    assert!(!due(10, 5, 14));
    assert!(due(10, 5, 15));
    assert!(!due(10, 20, 5));
    let e = engine(1);
    assert_eq!(e.eviction_tick(), Some(1_000_000_000));
    assert!(!e.evicts(None, 10_000));
    assert!(!e.evicts(Some(100), 699));
    assert!(e.evicts(Some(100), 700));
}

#[test]
fn a_resource_is_held_until_it_is_idle_and_nobody_uses_it() {
    let mut holder: ResourceHolder<&str> = ResourceHolder::new(100);
    assert!(holder.get(0).is_none());
    assert_eq!(holder.install("first", 10), Some(&"first"));
    assert_eq!(holder.install("second", 20), Some(&"first"));
    assert_eq!(holder.get(50), Some(&"first"));
    assert_eq!(holder.evict(149, 1), None);
    assert_eq!(holder.evict(150, 2), None);
    assert_eq!(holder.evict(150, 1), Some("first"));
    assert!(holder.get(151).is_none());
    assert_eq!(holder.evict(999, 1), None);
    let mut forever: ResourceHolder<&str> = ResourceHolder::new(0);
    forever.install("x", 0);
    assert_eq!(forever.evict(u128::MAX, 1), None);
}

#[test]
fn over_the_network_a_token_is_expected() {
    assert_eq!(expected_token(false, Some("t".to_string())), None);
    assert_eq!(expected_token(true, Some("t".to_string())), Some("t".to_string()));
    assert_eq!(expected_token(true, None), Some(String::new()));
    assert!(check_token(&Some("t".to_string()), "t").is_none());
    assert!(check_token(&None, "").is_none());
    assert!(check_token(&Some(String::new()), "").is_none());
    let refused = check_token(&Some("t".to_string()), "u").unwrap();
    assert_eq!((refused.status, &refused.payload[..]), (ST_BAD_REQUEST, &b"invalid token"[..]));
    assert!(check_token(&None, "u").is_some());
}

fn answered(route: Route) -> (u8, Vec<u8>) {
    match route {
        Route::Answer(r) => (r.status, r.payload.to_vec()),
        other => panic!("{other:?}"),
    }
}

#[test]
fn requests_are_routed_by_op() {
    assert_eq!(backend(false, false), Backend::Missing);
    assert_eq!(backend(true, false), Backend::Engine);
    assert_eq!(backend(true, true), Backend::Relay);
    assert_eq!(answered(dispatch(OP_STATUS, Backend::Missing)), (ST_OK, vec![]));
    assert_eq!(answered(dispatch(OP_STATUS, Backend::Engine)), (ST_OK, vec![]));
    assert!(matches!(dispatch(OP_STATUS, Backend::Relay), Route::Probe));
    assert!(matches!(dispatch(OP_TTS, Backend::Engine), Route::Generate));
    assert!(matches!(dispatch(OP_TTS, Backend::Relay), Route::Generate));
    assert!(matches!(dispatch(OP_TTS_STREAM, Backend::Engine), Route::Stream));
    assert!(matches!(dispatch(OP_TTS_STREAM, Backend::Relay), Route::Stream));
    assert_eq!(
        answered(dispatch(OP_TTS, Backend::Missing)),
        (ST_MODEL_MISSING, b"server was started without --tts-dir".to_vec())
    );
    match dispatch(OP_TTS_STREAM, Backend::Missing) {
        Route::AnswerFrame(f) => assert_eq!(
            parse_error_payload(&f.payload),
            (ST_MODEL_MISSING, "server was started without --tts-dir".to_string())
        ),
        other => panic!("{other:?}"),
    }
    assert_eq!(
        answered(dispatch(OP_TTS_BATCH, Backend::Engine)),
        (ST_BAD_REQUEST, b"unknown op 4".to_vec())
    );
    assert_eq!(
        answered(dispatch(200, Backend::Relay)),
        (ST_BAD_REQUEST, b"unknown op 200".to_vec())
    );
}

#[test]
fn answers_say_what_became_of_a_request() {
    let parts = |r: Response| (r.status, String::from_utf8(r.payload.to_vec()).unwrap());
    assert_eq!(
        parts(respond(TtsResult::Done(Bytes::from_static(b"wav")))),
        (ST_OK, "wav".to_string())
    );
    assert_eq!(
        parts(respond(TtsResult::ModelMissing("m".to_string()))),
        (ST_MODEL_MISSING, "m".to_string())
    );
    assert_eq!(
        parts(respond(TtsResult::Cancelled)),
        (ST_GENERATION_FAILED, "cancelled".to_string())
    );
    assert_eq!(
        parts(respond(TtsResult::Failed("f".to_string()))),
        (ST_GENERATION_FAILED, "f".to_string())
    );
    assert_eq!(parts(respond_relayed(Ok(Bytes::from_static(b"w")))), (ST_OK, "w".to_string()));
    let e = RelayError { status: 4, message: "bad".to_string() };
    assert_eq!(parts(respond_relayed(Err(e))), (4, "bad".to_string()));
    assert_eq!(parts(respond_status(true, "u")), (ST_OK, String::new()));
    assert_eq!(
        parts(respond_status(false, "http://x")),
        (ST_UNKNOWN, "relay upstream is not running: http://x".to_string())
    );
    assert_eq!(parts(error_response(5, "\u{e9}")), (5, "\u{e9}".to_string()));
    assert_eq!(parts(invalid_json("eof")), (ST_BAD_REQUEST, "invalid tts json: eof".to_string()));
    assert_eq!(
        parse_error_payload(&invalid_stream_json("eof").payload),
        (ST_BAD_REQUEST, "invalid tts json: eof".to_string())
    );
}

#[test]
fn the_broker_hands_on_what_the_worker_said() {
    let through = |r: Response| {
        let out = respond(classify(&r));
        (out.status, out.payload)
    };
    for r in [
        response(ST_OK, b"\xff\x00"),
        response(ST_MODEL_MISSING, b"gone"),
        response(ST_GENERATION_FAILED, b"cancelled"),
        response(ST_GENERATION_FAILED, b"other"),
    ] {
        let expected = (r.status, r.payload.clone());
        assert_eq!(through(r), expected);
    }
    assert_eq!(
        through(response(ST_BAD_REQUEST, b"bad")),
        (ST_GENERATION_FAILED, Bytes::from_static(b"bad"))
    );
}

#[test]
fn a_server_listens_everywhere() {
    assert_eq!(bind_address(7000), "0.0.0.0:7000");
}

#[test]
fn a_client_is_gone_when_its_connection_is() {
    assert!(client_gone(None));
    assert!(client_gone(Some(0)));
    assert!(!client_gone(Some(1)));
    assert!(!client_gone(Some(16)));
}
