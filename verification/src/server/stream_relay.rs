//! Relays one stream from the worker to the client.

use crate::buffer;
use crate::proto::payload;
use crate::proto::request;
use crate::proto::wire;
use crate::proto::{
    Request, RequestView, StreamFrame, StreamFrameView, KIND_END, KIND_ERROR, OP_TTS_STREAM,
    ST_GENERATION_FAILED, ST_MODEL_MISSING,
};
use crate::server::tts::{Fate, Phase};
use crate::text;
use crate::worker;
use bytes::Bytes;
use vstd::prelude::*;

verus! {

/// The request for a stream, as the worker gets it.
pub fn stream_request(json: Bytes, audio: Option<Bytes>) -> (req: Request)
    ensures
        req@.op == OP_TTS_STREAM,
        req@.json == buffer::bytes_of(json),
        req@.audio == buffer::opt_bytes(audio),
{
    Request { op: OP_TTS_STREAM, json, audio }
}

/// What happens while a stream is relayed from the worker to the client.
#[derive(Debug)]
pub enum RelayEvent {
    /// A worker has been started.
    Spawned,
    /// No worker could be started.
    SpawnFailed(String),
    /// The worker is alive.
    Running,
    /// The worker has exited, with this status.
    Exited(String),
    /// The request has been sent.
    Sent,
    /// The request could not be sent.
    SendFailed(String),
    /// No frame could be read.
    ReadFailed(String),
    /// The worker sent a frame.
    Frame(StreamFrame),
    /// The client went away.
    Cancel,
}

/// What happens while a stream is relayed.
#[verifier::ext_equal]
pub enum RelayEventView {
    Spawned,
    SpawnFailed(Seq<char>),
    Running,
    Exited(Seq<char>),
    Sent,
    SendFailed(Seq<char>),
    ReadFailed(Seq<char>),
    Frame(StreamFrameView),
    Cancel,
}

impl View for RelayEvent {
    type V = RelayEventView;

    open spec fn view(&self) -> RelayEventView {
        match self {
            RelayEvent::Spawned => RelayEventView::Spawned,
            RelayEvent::SpawnFailed(msg) => RelayEventView::SpawnFailed(msg@),
            RelayEvent::Running => RelayEventView::Running,
            RelayEvent::Exited(status) => RelayEventView::Exited(status@),
            RelayEvent::Sent => RelayEventView::Sent,
            RelayEvent::SendFailed(msg) => RelayEventView::SendFailed(msg@),
            RelayEvent::ReadFailed(msg) => RelayEventView::ReadFailed(msg@),
            RelayEvent::Frame(frame) => RelayEventView::Frame(frame@),
            RelayEvent::Cancel => RelayEventView::Cancel,
        }
    }
}

/// What a relay does next.
#[derive(Debug)]
pub enum RelayAction {
    /// Start a worker.
    Spawn,
    /// Look whether the worker is alive.
    Check,
    /// Send this to the worker.
    Send(Vec<u8>),
    /// Wait for the worker's frames, or for the client to go away.
    Receive,
    /// Pass the frame on and go on.
    Forward(StreamFrame),
    /// Pass the frame on and stop.
    Finish(StreamFrame, Fate),
    /// Tell the worker to cancel.
    Signal,
    /// Go on as before.
    Ignore,
}

/// What a relay does next.
#[verifier::ext_equal]
pub enum RelayActionView {
    Spawn,
    Check,
    Send(Seq<u8>),
    Receive,
    Forward(StreamFrameView),
    Finish(StreamFrameView, Fate),
    Signal,
    Ignore,
}

impl View for RelayAction {
    type V = RelayActionView;

    open spec fn view(&self) -> RelayActionView {
        match self {
            RelayAction::Spawn => RelayActionView::Spawn,
            RelayAction::Check => RelayActionView::Check,
            RelayAction::Send(message) => RelayActionView::Send(message@),
            RelayAction::Receive => RelayActionView::Receive,
            RelayAction::Forward(frame) => RelayActionView::Forward(frame@),
            RelayAction::Finish(frame, fate) => RelayActionView::Finish(frame@, *fate),
            RelayAction::Signal => RelayActionView::Signal,
            RelayAction::Ignore => RelayActionView::Ignore,
        }
    }
}

/// Whether a frame of this kind ends a stream.
pub open spec fn is_terminal(kind: u8) -> bool {
    kind == KIND_END || kind == KIND_ERROR
}

/// Relays one stream from the worker to the client.
#[derive(Debug, Clone, Copy, PartialEq, Eq, Structural)]
pub struct StreamRelay {
    pub phase: Phase,
    /// Whether the worker has been told to cancel.
    pub cancel_signaled: bool,
}

impl StreamRelay {
    /// The relay in another phase.
    pub open spec fn at(self, phase: Phase) -> StreamRelay {
        StreamRelay { phase, cancel_signaled: self.cancel_signaled }
    }

    /// What an event calls for, for the request `req`. One that does not belong
    /// to the phase calls for nothing.
    pub open spec fn action(self, req: RequestView, event: RelayEventView) -> RelayActionView {
        match (self.phase, event) {
            (Phase::Spawning, RelayEventView::Spawned) => RelayActionView::Check,
            (Phase::Spawning, RelayEventView::SpawnFailed(msg)) => RelayActionView::Finish(
                payload::error_frame_view(ST_MODEL_MISSING, msg),
                Fate::Dropped,
            ),
            (Phase::Checking, RelayEventView::Running) => RelayActionView::Send(
                request::request_bytes(req),
            ),
            (Phase::Checking, RelayEventView::Exited(status)) => RelayActionView::Finish(
                payload::error_frame_view(
                    ST_GENERATION_FAILED,
                    "worker exited before request ("@ + status + ")"@,
                ),
                Fate::Dropped,
            ),
            (Phase::Sending, RelayEventView::Sent) => RelayActionView::Receive,
            (Phase::Sending, RelayEventView::SendFailed(msg)) => RelayActionView::Finish(
                payload::error_frame_view(ST_GENERATION_FAILED, "worker pipe error: "@ + msg),
                Fate::Dropped,
            ),
            (Phase::Receiving, RelayEventView::ReadFailed(msg)) => RelayActionView::Finish(
                payload::error_frame_view(ST_GENERATION_FAILED, "worker pipe error: "@ + msg),
                Fate::Dropped,
            ),
            (Phase::Receiving, RelayEventView::Frame(frame)) => if is_terminal(frame.kind) {
                RelayActionView::Finish(frame, Fate::Used)
            } else {
                RelayActionView::Forward(frame)
            },
            (Phase::Receiving, RelayEventView::Cancel) => if self.cancel_signaled {
                RelayActionView::Ignore
            } else {
                RelayActionView::Signal
            },
            _ => RelayActionView::Ignore,
        }
    }

    /// The relay after an event.
    pub open spec fn next(self, req: RequestView, event: RelayEventView) -> StreamRelay {
        match self.action(req, event) {
            RelayActionView::Check => self.at(Phase::Checking),
            RelayActionView::Send(_) => self.at(Phase::Sending),
            RelayActionView::Receive => self.at(Phase::Receiving),
            RelayActionView::Finish(_, _) => self.at(Phase::Ended),
            RelayActionView::Signal => StreamRelay { phase: self.phase, cancel_signaled: true },
            _ => self,
        }
    }

    /// Starts a relay: a worker is needed first, and it has to be alive.
    pub fn start(has_worker: bool) -> (r: (StreamRelay, RelayAction))
        ensures
            r.0 == (StreamRelay {
                phase: if has_worker {
                    Phase::Checking
                } else {
                    Phase::Spawning
                },
                cancel_signaled: false,
            }),
            r.1@ == if has_worker {
                RelayActionView::Check
            } else {
                RelayActionView::Spawn
            },
    {
        if has_worker {
            (StreamRelay { phase: Phase::Checking, cancel_signaled: false }, RelayAction::Check)
        } else {
            (StreamRelay { phase: Phase::Spawning, cancel_signaled: false }, RelayAction::Spawn)
        }
    }

    /// Ends the relay with an error frame.
    fn fail(&mut self, status: u8, msg: &str) -> (action: RelayAction)
        ensures
            *final(self) == old(self).at(Phase::Ended),
            action@ == RelayActionView::Finish(
                payload::error_frame_view(status, msg@),
                Fate::Dropped,
            ),
    {
        self.phase = Phase::Ended;
        RelayAction::Finish(payload::error_frame(status, msg), Fate::Dropped)
    }

    /// What to do on an event, for the request `req`.
    pub fn step(&mut self, req: &Request, event: RelayEvent) -> (action: RelayAction)
        ensures
            action@ == old(self).action(req@, event@),
            *final(self) == old(self).next(req@, event@),
    {
        match (self.phase, event) {
            (Phase::Spawning, RelayEvent::Spawned) => {
                self.phase = Phase::Checking;
                RelayAction::Check
            },
            (Phase::Spawning, RelayEvent::SpawnFailed(msg)) => self.fail(
                ST_MODEL_MISSING,
                msg.as_str(),
            ),
            (Phase::Checking, RelayEvent::Running) => {
                self.phase = Phase::Sending;
                RelayAction::Send(request::write_request(req))
            },
            (Phase::Checking, RelayEvent::Exited(status)) => {
                let mut msg = text::join("worker exited before request (", status.as_str());
                msg.append(")");
                self.fail(ST_GENERATION_FAILED, msg.as_str())
            },
            (Phase::Sending, RelayEvent::Sent) => {
                self.phase = Phase::Receiving;
                RelayAction::Receive
            },
            (Phase::Sending, RelayEvent::SendFailed(msg)) => {
                let msg = text::join("worker pipe error: ", msg.as_str());
                self.fail(ST_GENERATION_FAILED, msg.as_str())
            },
            (Phase::Receiving, RelayEvent::ReadFailed(msg)) => {
                let msg = text::join("worker pipe error: ", msg.as_str());
                self.fail(ST_GENERATION_FAILED, msg.as_str())
            },
            (Phase::Receiving, RelayEvent::Frame(frame)) => {
                if frame.kind == KIND_END || frame.kind == KIND_ERROR {
                    self.phase = Phase::Ended;
                    RelayAction::Finish(frame, Fate::Used)
                } else {
                    RelayAction::Forward(frame)
                }
            },
            (Phase::Receiving, RelayEvent::Cancel) => {
                if self.cancel_signaled {
                    RelayAction::Ignore
                } else {
                    self.cancel_signaled = true;
                    RelayAction::Signal
                }
            },
            _ => RelayAction::Ignore,
        }
    }
}

/// What a relay has done after some events.
#[verifier::ext_equal]
pub struct RelayRun {
    /// The frames that it passed on.
    pub frames: Seq<StreamFrameView>,
    /// How often it told the worker to cancel.
    pub signals: nat,
    /// What becomes of the worker, if the relay has ended.
    pub fate: Option<Fate>,
}

/// What a relay does in the course of some events.
pub open spec fn relay_run(
    relay: StreamRelay,
    req: RequestView,
    events: Seq<RelayEventView>,
) -> RelayRun
    decreases events.len(),
{
    if events.len() == 0 {
        RelayRun { frames: Seq::empty(), signals: 0, fate: None }
    } else {
        let rest = relay_run(relay.next(req, events[0]), req, events.skip(1));
        match relay.action(req, events[0]) {
            RelayActionView::Finish(frame, fate) => RelayRun {
                frames: seq![frame] + rest.frames,
                signals: rest.signals,
                fate: Some(fate),
            },
            RelayActionView::Forward(frame) => RelayRun {
                frames: seq![frame] + rest.frames,
                signals: rest.signals,
                fate: rest.fate,
            },
            RelayActionView::Signal => RelayRun {
                frames: rest.frames,
                signals: rest.signals + 1,
                fate: rest.fate,
            },
            _ => rest,
        }
    }
}

/// A relay that has ended does nothing any more.
proof fn ended_relay_rests(
    relay: StreamRelay,
    req: RequestView,
    events: Seq<RelayEventView>,
)
    requires
        relay.phase == Phase::Ended,
    ensures
        relay_run(relay, req, events) == (RelayRun { frames: Seq::empty(), signals: 0, fate: None }),
    decreases events.len(),
{
    if events.len() > 0 {
        ended_relay_rests(relay, req, events.skip(1));
    }
}

/// A relay passes on exactly one terminal frame, as its last; until then it has
/// passed on none. It tells the worker to cancel at most once.
pub proof fn relay_ends_once(
    relay: StreamRelay,
    req: RequestView,
    events: Seq<RelayEventView>,
)
    ensures
        ({
            let run = relay_run(relay, req, events);
            &&& run.signals <= if relay.cancel_signaled {
                0nat
            } else {
                1nat
            }
            &&& run.fate is Some ==> run.frames.len() > 0 && is_terminal(run.frames.last().kind)
            &&& forall|i: int|
                0 <= i < run.frames.len() - (if run.fate is Some {
                    1int
                } else {
                    0int
                }) ==> !is_terminal((#[trigger] run.frames[i]).kind)
        }),
    decreases events.len(),
{
    if events.len() > 0 {
        let next = relay.next(req, events[0]);
        let rest = relay_run(next, req, events.skip(1));
        let run = relay_run(relay, req, events);
        relay_ends_once(next, req, events.skip(1));
        match relay.action(req, events[0]) {
            RelayActionView::Finish(frame, fate) => {
                ended_relay_rests(next, req, events.skip(1));
                assert(run.frames =~= seq![frame]);
            },
            RelayActionView::Forward(frame) => {
                assert forall|i: int|
                    0 <= i < run.frames.len() - (if run.fate is Some {
                        1int
                    } else {
                        0int
                    }) implies !is_terminal((#[trigger] run.frames[i]).kind) by {
                    if i > 0 {
                        assert(run.frames[i] == rest.frames[i - 1]);
                    }
                }
            },
            _ => {},
        }
    }
}

/// The frames among the events.
pub open spec fn worker_frames(events: Seq<RelayEventView>) -> Seq<StreamFrameView>
    decreases events.len(),
{
    if events.len() == 0 {
        Seq::empty()
    } else {
        match events[0] {
            RelayEventView::Frame(frame) => seq![frame] + worker_frames(events.skip(1)),
            _ => worker_frames(events.skip(1)),
        }
    }
}

/// The frames up to and with the first terminal one.
pub open spec fn through_terminal(frames: Seq<StreamFrameView>) -> Seq<StreamFrameView>
    decreases frames.len(),
{
    if frames.len() == 0 {
        frames
    } else if is_terminal(frames[0].kind) {
        seq![frames[0]]
    } else {
        seq![frames[0]] + through_terminal(frames.skip(1))
    }
}

/// Once the request has been sent, and as long as nothing goes wrong between
/// broker and worker, the client gets the worker's frames as they are, in their
/// order, up to the terminal one, whether or not it goes away meanwhile.
pub proof fn relay_is_verbatim(
    relay: StreamRelay,
    req: RequestView,
    events: Seq<RelayEventView>,
)
    requires
        relay.phase == Phase::Receiving,
        forall|i: int|
            0 <= i < events.len() ==> (#[trigger] events[i]) is Frame || events[i] is Cancel,
    ensures
        relay_run(relay, req, events).frames == through_terminal(worker_frames(events)),
    decreases events.len(),
{
    if events.len() > 0 {
        let tail = events.skip(1);
        assert forall|i: int| 0 <= i < tail.len() implies (#[trigger] tail[i]) is Frame
            || tail[i] is Cancel by {
            assert(tail[i] == events[i + 1]);
        }
        assert(events[0] is Frame || events[0] is Cancel);
        let next = relay.next(req, events[0]);
        if let RelayEventView::Frame(frame) = events[0] {
            assert(worker_frames(events).skip(1) =~= worker_frames(tail));
            if is_terminal(frame.kind) {
                ended_relay_rests(next, req, tail);
                assert(relay_run(relay, req, events).frames =~= seq![frame]);
            } else {
                relay_is_verbatim(next, req, tail);
            }
        } else {
            relay_is_verbatim(next, req, tail);
        }
    }
}

/// A relay that waits for the worker's frames.
pub open spec fn receiving() -> StreamRelay {
    StreamRelay { phase: Phase::Receiving, cancel_signaled: false }
}

/// A stream that a worker emits comes through the broker whole: with its
/// terminal frame, and as it is.
pub proof fn stream_comes_through(
    req: RequestView,
    sample_rate: u32,
    chunks: Seq<Seq<u32>>,
    end: StreamFrameView,
)
    requires
        is_terminal(end.kind),
    ensures
        ({
            let frames = worker::stream_of(sample_rate, chunks).push(end);
            let events = frames.map_values(|f: StreamFrameView| RelayEventView::Frame(f));
            let run = relay_run(receiving(), req, events);
            run.frames == frames && run.fate == Some(Fate::Used) && run.signals == 0
        }),
{
    let frames = worker::stream_of(sample_rate, chunks).push(end);
    frames_come_through(req, frames);
}

proof fn frames_come_through(req: RequestView, frames: Seq<StreamFrameView>)
    requires
        frames.len() > 0,
        is_terminal(frames.last().kind),
        forall|i: int| 0 <= i < frames.len() - 1 ==> !is_terminal((#[trigger] frames[i]).kind),
    ensures
        ({
            let events = frames.map_values(|f: StreamFrameView| RelayEventView::Frame(f));
            let run = relay_run(receiving(), req, events);
            run.frames == frames && run.fate == Some(Fate::Used) && run.signals == 0
        }),
    decreases frames.len(),
{
    let events = frames.map_values(|f: StreamFrameView| RelayEventView::Frame(f));
    if frames.len() == 1 {
        ended_relay_rests(receiving().next(req, events[0]), req, events.skip(1));
        assert(relay_run(receiving(), req, events).frames =~= seq![frames[0]]);
        assert(frames =~= seq![frames[0]]);
    } else {
        let more = frames.skip(1);
        assert forall|i: int| 0 <= i < more.len() - 1 implies !is_terminal(
            (#[trigger] more[i]).kind,
        ) by {
            assert(more[i] == frames[i + 1]);
        }
        frames_come_through(req, more);
        assert(events.skip(1) =~= more.map_values(
            |f: StreamFrameView| RelayEventView::Frame(f),
        ));
        assert(frames =~= seq![frames[0]] + more);
    }
}

/// The worker reads the op, the JSON and the audio of the request that is
/// relayed, where empty audio counts as none: what is sent when the worker is
/// found alive is a message, and this is what the message says.
pub proof fn worker_reads_the_request(relay: StreamRelay, req: RequestView, rest: Seq<u8>)
    requires
        relay.phase == Phase::Checking,
        req.json.len() <= 1024 * 1024,
        req.audio matches Some(a) ==> a.len() <= 256 * 1024 * 1024,
    ensures
        relay.action(req, RelayEventView::Running) matches RelayActionView::Send(message) && (
        request::parse_request(message + rest) matches wire::Parsed::Done(back, n) && n
            == message.len() && back.op == req.op && back.json == req.json && back.audio
            == match req.audio {
            Some(a) => if a.len() > 0 {
                Some(a)
            } else {
                None
            },
            None => None,
        }),
{
    request::request_fields_read_back(req, rest);
}

/// Whatever goes wrong between broker and worker ends the stream, at the step
/// at which it can happen and at no other: with an error frame that has the
/// status and the reason, and the worker is given up.
pub proof fn faults_end_the_stream(
    relay: StreamRelay,
    req: RequestView,
    msg: Seq<char>,
)
    ensures
        ({
            let failed = |event: RelayEventView, status: u8, text: Seq<char>|
                {
                    &&& relay.action(req, event) matches RelayActionView::Finish(frame, fate)
                        && frame.kind == 3 && payload::error_of(frame.payload) == (status, text)
                        && fate == Fate::Dropped
                    &&& relay.next(req, event).phase == Phase::Ended
                };
            &&& relay.phase == Phase::Spawning ==> failed(
                RelayEventView::SpawnFailed(msg),
                2,
                msg,
            )
            &&& relay.phase == Phase::Checking ==> failed(
                RelayEventView::Exited(msg),
                3,
                "worker exited before request ("@ + msg + ")"@,
            )
            &&& relay.phase == Phase::Sending ==> failed(
                RelayEventView::SendFailed(msg),
                3,
                "worker pipe error: "@ + msg,
            )
            &&& relay.phase == Phase::Receiving ==> failed(
                RelayEventView::ReadFailed(msg),
                3,
                "worker pipe error: "@ + msg,
            )
        }),
{
    payload::error_payload_reads_back(ST_MODEL_MISSING, msg);
    payload::error_payload_reads_back(
        ST_GENERATION_FAILED,
        "worker exited before request ("@ + msg + ")"@,
    );
    payload::error_payload_reads_back(ST_GENERATION_FAILED, "worker pipe error: "@ + msg);
}

/// As long as nothing goes wrong, a relay goes from one step to the next: a
/// worker is started, looked at, sent the request, and listened to. It takes a
/// frame for the last one if and only if that says so, passes on what the
/// worker sent and nothing else, and tells the worker to cancel when the client
/// goes away, if it has not done so.
pub proof fn relay_goes_step_by_step(relay: StreamRelay, req: RequestView, event: RelayEventView)
    ensures
        ({
            let action = relay.action(req, event);
            let next = relay.next(req, event);
            &&& action is Check <==> relay.phase == Phase::Spawning && event is Spawned
            &&& action is Send <==> relay.phase == Phase::Checking && event is Running
            &&& action is Receive <==> relay.phase == Phase::Sending && event is Sent
            &&& action is Signal <==> relay.phase == Phase::Receiving && event is Cancel
                && !relay.cancel_signaled
            &&& !(action is Spawn)
            &&& action matches RelayActionView::Forward(frame) ==> event == RelayEventView::Frame(
                frame,
            ) && frame.kind != 2 && frame.kind != 3
            &&& action matches RelayActionView::Finish(frame, fate) ==> if event is Frame {
                event == RelayEventView::Frame(frame) && fate == Fate::Used && (frame.kind == 2
                    || frame.kind == 3)
            } else {
                frame.kind == 3 && fate == Fate::Dropped
            }
            &&& relay.phase == Phase::Receiving && event is Frame ==> action is Forward
                || action is Finish
            &&& action is Check ==> next.phase == Phase::Checking
            &&& action is Send ==> next.phase == Phase::Sending
            &&& action is Receive ==> next.phase == Phase::Receiving
            &&& action is Finish ==> next.phase == Phase::Ended
            &&& action is Forward || action is Signal || action is Ignore ==> next.phase
                == relay.phase
            &&& next.cancel_signaled <==> relay.cancel_signaled || action is Signal
        }),
{
}

/// What happens, and what a relay does, is what the fields hold.
pub proof fn events_hold_their_fields(
    msg: String,
    frame: StreamFrame,
    message: Vec<u8>,
    fate: Fate,
)
    ensures
        RelayEvent::Spawned@ == RelayEventView::Spawned,
        RelayEvent::SpawnFailed(msg)@ == RelayEventView::SpawnFailed(msg@),
        RelayEvent::Running@ == RelayEventView::Running,
        RelayEvent::Exited(msg)@ == RelayEventView::Exited(msg@),
        RelayEvent::Sent@ == RelayEventView::Sent,
        RelayEvent::SendFailed(msg)@ == RelayEventView::SendFailed(msg@),
        RelayEvent::ReadFailed(msg)@ == RelayEventView::ReadFailed(msg@),
        RelayEvent::Frame(frame)@ == RelayEventView::Frame(frame@),
        RelayEvent::Cancel@ == RelayEventView::Cancel,
        RelayAction::Spawn@ == RelayActionView::Spawn,
        RelayAction::Check@ == RelayActionView::Check,
        RelayAction::Send(message)@ == RelayActionView::Send(message@),
        RelayAction::Receive@ == RelayActionView::Receive,
        RelayAction::Forward(frame)@ == RelayActionView::Forward(frame@),
        RelayAction::Finish(frame, fate)@ == RelayActionView::Finish(frame@, fate),
        RelayAction::Signal@ == RelayActionView::Signal,
        RelayAction::Ignore@ == RelayActionView::Ignore,
{
}

/// A request that is relayed reaches the worker as one for a stream, with its
/// own JSON and audio.
pub proof fn stream_requests_reach_the_worker(
    json: Bytes,
    audio: Option<Bytes>,
    req: Request,
    relay: &mut StreamRelay,
    action: RelayAction,
    rest: Seq<u8>,
)
    requires
        call_ensures(stream_request, (json, audio), req),
        call_ensures(StreamRelay::step, (relay, &req, RelayEvent::Running), action),
        old(relay).phase == Phase::Checking,
        buffer::bytes_of(json).len() <= 1024 * 1024,
        audio matches Some(a) ==> buffer::bytes_of(a).len() <= 256 * 1024 * 1024,
    ensures
        final(relay).phase == Phase::Sending,
        action matches RelayAction::Send(message) && (request::parse_request(message@ + rest)
            matches wire::Parsed::Done(back, n) && n == message@.len() && back.op == 3 && back.json
            == buffer::bytes_of(json) && back.audio == match audio {
            Some(a) => if buffer::bytes_of(a).len() > 0 {
                Some(buffer::bytes_of(a))
            } else {
                None
            },
            None => None,
        }),
{
    worker_reads_the_request(*old(relay), req@, rest);
}

/// A frame of the worker is passed on as it is: the same kind and the same
/// bytes. It is the last one if and only if it ends the stream or reports an
/// error.
pub proof fn frames_are_passed_on(
    relay: &mut StreamRelay,
    req: Request,
    frame: StreamFrame,
    action: RelayAction,
)
    requires
        call_ensures(StreamRelay::step, (relay, &req, RelayEvent::Frame(frame)), action),
        old(relay).phase == Phase::Receiving,
    ensures
        action is Forward || action is Finish,
        action is Finish <==> frame.kind == 2 || frame.kind == 3,
        action matches RelayAction::Forward(out) ==> out.kind == frame.kind && buffer::bytes_of(
            out.payload,
        ) == buffer::bytes_of(frame.payload),
        action matches RelayAction::Finish(out, fate) ==> out.kind == frame.kind
            && buffer::bytes_of(out.payload) == buffer::bytes_of(frame.payload) && fate
            == Fate::Used,
        final(relay).phase == Phase::Ended <==> action is Finish,
{
}

/// A relay begins by looking at the worker if there is one, and else by
/// starting one; the worker has not been told to cancel.
pub proof fn relays_begin_with_a_worker(has_worker: bool, r: (StreamRelay, RelayAction))
    requires
        call_ensures(StreamRelay::start, (has_worker,), r),
    ensures
        r.0.phase == Phase::Checking <==> has_worker,
        r.0.phase == Phase::Spawning <==> !has_worker,
        r.1 is Check <==> has_worker,
        r.1 is Spawn <==> !has_worker,
        !r.0.cancel_signaled,
{
}

} // verus!
