//! The worker: a process that holds the model and serves requests one after
//! the other.

use crate::buffer;
use crate::le;
use crate::proto::payload;
use crate::proto::{
    Response, ResponseView, StreamFrame, StreamFrameView, KIND_CHUNK, KIND_END, KIND_HEADER, OP_TTS,
    OP_TTS_BATCH, OP_TTS_STREAM, ST_BAD_REQUEST, ST_GENERATION_FAILED, ST_OK,
};
use crate::sample;
use crate::server;
use crate::synth::{SynthError, SynthErrorView};
use crate::text;
use bytes::Bytes;
use vstd::prelude::*;
use vstd::utf8::*;

verus! {

/// What the worker does with a request.
#[derive(Debug)]
pub enum Task {
    /// It answers with one response.
    Single,
    /// It answers with frames.
    Stream,
    /// The request is a batch; it answers with a batch of responses.
    Batch,
    /// It answers with this response.
    Refuse(Response),
}

/// What the worker does with a request for `op`.
pub fn task_for(op: u8) -> (task: Task)
    ensures
        match task {
            Task::Single => op == OP_TTS,
            Task::Stream => op == OP_TTS_STREAM,
            Task::Batch => op == OP_TTS_BATCH,
            Task::Refuse(resp) => op != OP_TTS && op != OP_TTS_STREAM && op != OP_TTS_BATCH
                && resp@ == server::error_view(
                ST_BAD_REQUEST,
                "worker received non-tts op "@ + text::decimal(op as nat),
            ),
        },
{
    match op {
        OP_TTS => Task::Single,
        OP_TTS_STREAM => Task::Stream,
        OP_TTS_BATCH => Task::Batch,
        other => {
            let msg = text::label_number("worker received non-tts op ", other as u64);
            Task::Refuse(server::error_response(ST_BAD_REQUEST, msg.as_str()))
        },
    }
}

/// How the work on a request ended.
#[derive(Debug)]
pub enum Finished {
    /// It never began: the JSON is no request, for this reason.
    NotARequest(String),
    Synthesized(Result<Bytes, SynthError>),
    /// It panicked, with this message.
    Panicked(String),
}

/// The response to a request, given how the work on it ended.
pub open spec fn response_of(end: Finished) -> ResponseView {
    match end {
        Finished::NotARequest(reason) => server::error_view(
            ST_BAD_REQUEST,
            "invalid tts json: "@ + reason@,
        ),
        Finished::Synthesized(Ok(payload)) => server::ok_view(buffer::bytes_of(payload)),
        Finished::Synthesized(Err(e)) => match e@ {
            SynthErrorView::Cancelled => server::error_view(ST_GENERATION_FAILED, "cancelled"@),
            SynthErrorView::Other(msg) => server::error_view(ST_GENERATION_FAILED, msg),
        },
        Finished::Panicked(msg) => server::error_view(
            ST_GENERATION_FAILED,
            "worker task panicked: "@ + msg@,
        ),
    }
}

/// The response to a request, given how the work on it ended.
pub fn respond(end: Finished) -> (resp: Response)
    ensures
        resp@ == response_of(end),
{
    match end {
        Finished::NotARequest(reason) => server::invalid_json(reason.as_str()),
        Finished::Synthesized(Ok(payload)) => Response { status: ST_OK, payload },
        Finished::Synthesized(Err(SynthError::Cancelled)) => server::error_response(
            ST_GENERATION_FAILED,
            "cancelled",
        ),
        Finished::Synthesized(Err(SynthError::Other(msg))) => server::error_response(
            ST_GENERATION_FAILED,
            msg.as_str(),
        ),
        Finished::Panicked(msg) => {
            let msg = text::join("worker task panicked: ", msg.as_str());
            server::error_response(ST_GENERATION_FAILED, msg.as_str())
        },
    }
}

/// The responses to the requests of a batch, in their order, given how the work
/// on each ended.
pub fn respond_batch(ends: Vec<Finished>) -> (responses: Vec<Response>)
    ensures
        responses@.len() == ends@.len(),
        forall|i: int|
            0 <= i < ends@.len() ==> (#[trigger] responses@[i])@ == response_of(ends@[i]),
{
    let mut responses: Vec<Response> = Vec::new();
    for end in it: ends
        invariant
            it.seq() == ends@,
            responses@.len() == it.index(),
            forall|i: int|
                0 <= i < it.index() ==> (#[trigger] responses@[i])@ == response_of(ends@[i]),
    {
        responses.push(respond(end));
    }
    responses
}

/// What happens to a stream.
#[derive(Debug)]
pub enum StreamEvent {
    /// The sample rate is known.
    Header(u32),
    /// Samples have been generated.
    Chunk(Vec<u32>),
    /// All samples have been generated.
    End,
    /// There will be no more samples.
    Error(u8, String),
}

/// The frame that reports an event.
pub open spec fn event_frame(event: StreamEvent) -> StreamFrameView {
    match event {
        StreamEvent::Header(rate) => payload::header_frame_view(rate),
        StreamEvent::Chunk(samples) => payload::chunk_frame_view(samples@),
        StreamEvent::End => payload::end_frame_view(),
        StreamEvent::Error(status, msg) => payload::error_frame_view(status, msg@),
    }
}

/// Builds the frame that reports an event.
pub fn frame_for(event: StreamEvent) -> (frame: StreamFrame)
    ensures
        frame@ == event_frame(event),
{
    match event {
        StreamEvent::Header(rate) => StreamFrame {
            kind: KIND_HEADER,
            payload: payload::header_payload(rate),
        },
        StreamEvent::Chunk(samples) => StreamFrame {
            kind: KIND_CHUNK,
            payload: sample::samples_to_le_bytes(samples.as_slice()),
        },
        StreamEvent::End => StreamFrame { kind: KIND_END, payload: Bytes::new() },
        StreamEvent::Error(status, msg) => payload::error_frame(status, msg.as_str()),
    }
}

/// Reports the samples of one request as they are generated.
#[derive(Debug, Clone, Copy, PartialEq, Eq, Structural)]
pub struct Emitter {
    pub sample_rate: u32,
    pub sent_header: bool,
}

impl Emitter {
    /// An emitter that has reported nothing yet.
    pub fn new(sample_rate: u32) -> (emitter: Self)
        ensures
            emitter == (Emitter { sample_rate, sent_header: false }),
    {
        Emitter { sample_rate, sent_header: false }
    }

    /// Reports samples, with the sample rate ahead of the first.
    pub fn chunk(&mut self, samples: Vec<u32>) -> (events: Vec<StreamEvent>)
        ensures
            *final(self) == (Emitter { sample_rate: old(self).sample_rate, sent_header: true }),
            events@ == if old(self).sent_header {
                seq![StreamEvent::Chunk(samples)]
            } else {
                seq![StreamEvent::Header(old(self).sample_rate), StreamEvent::Chunk(samples)]
            },
    {
        let mut events: Vec<StreamEvent> = Vec::new();
        if !self.sent_header {
            events.push(StreamEvent::Header(self.sample_rate));
            self.sent_header = true;
        }
        events.push(StreamEvent::Chunk(samples));
        events
    }

    /// Reports how the generation ended.
    pub fn finish(self, result: Result<u32, SynthError>) -> (event: StreamEvent)
        ensures
            event_frame(event) == terminal_frame(result),
    {
        match result {
            Ok(_) => StreamEvent::End,
            Err(SynthError::Cancelled) => StreamEvent::Error(
                ST_GENERATION_FAILED,
                "cancelled".to_owned(),
            ),
            Err(SynthError::Other(msg)) => StreamEvent::Error(ST_GENERATION_FAILED, msg),
        }
    }
}

/// The frame that ends a stream, given how the generation ended.
pub open spec fn terminal_frame(result: Result<u32, SynthError>) -> StreamFrameView {
    match result {
        Ok(_) => payload::end_frame_view(),
        Err(e) => match e@ {
            SynthErrorView::Cancelled => payload::error_frame_view(
                ST_GENERATION_FAILED,
                "cancelled"@,
            ),
            SynthErrorView::Other(msg) => payload::error_frame_view(ST_GENERATION_FAILED, msg),
        },
    }
}

/// The frames that carry samples, one for each chunk.
pub open spec fn chunk_frames(chunks: Seq<Seq<u32>>) -> Seq<StreamFrameView> {
    chunks.map_values(|c: Seq<u32>| payload::chunk_frame_view(c))
}

/// The frames that a stream of chunks begins with: the sample rate comes with
/// the first chunk.
pub open spec fn stream_of(sample_rate: u32, chunks: Seq<Seq<u32>>) -> Seq<StreamFrameView> {
    if chunks.len() == 0 {
        Seq::empty()
    } else {
        seq![payload::header_frame_view(sample_rate)] + chunk_frames(chunks)
    }
}

/// The frames that an emitter reports for a chunk continue the stream: one
/// header frame, ahead of all samples, and one frame for each chunk, in their
/// order.
pub proof fn emitter_continues_stream(sample_rate: u32, chunks: Seq<Seq<u32>>, samples: Vec<u32>)
    ensures
        ({
            let events = if chunks.len() > 0 {
                seq![StreamEvent::Chunk(samples)]
            } else {
                seq![StreamEvent::Header(sample_rate), StreamEvent::Chunk(samples)]
            };
            stream_of(sample_rate, chunks.push(samples@)) == stream_of(sample_rate, chunks)
                + events.map_values(|e: StreamEvent| event_frame(e))
        }),
{
    let events = if chunks.len() > 0 {
        seq![StreamEvent::Chunk(samples)]
    } else {
        seq![StreamEvent::Header(sample_rate), StreamEvent::Chunk(samples)]
    };
    assert(stream_of(sample_rate, chunks.push(samples@)) =~= stream_of(sample_rate, chunks)
        + events.map_values(|e: StreamEvent| event_frame(e)));
}

/// A request is answered with its audio if there is any, and else with why
/// there is none: a bad request if its JSON is none, and a failed generation
/// otherwise.
pub proof fn responses_tell_how_it_ended(
    reason: String,
    data: Bytes,
    e: SynthError,
)
    ensures
        ({
            let resp = response_of(Finished::NotARequest(reason));
            resp.status == 4 && resp.payload == encode_utf8("invalid tts json: "@ + reason@)
        }),
        ({
            let resp = response_of(Finished::Synthesized(Ok(data)));
            resp.status == 0 && resp.payload == buffer::bytes_of(data)
        }),
        ({
            let resp = response_of(Finished::Synthesized(Err(e)));
            resp.status == 3 && resp.payload == match e {
                SynthError::Cancelled => encode_utf8("cancelled"@),
                SynthError::Other(msg) => encode_utf8(msg@),
            }
        }),
        ({
            let resp = response_of(Finished::Panicked(reason));
            resp.status == 3 && resp.payload == encode_utf8("worker task panicked: "@ + reason@)
        }),
{
}

/// A frame reports its event: the sample rate and the patterns of the samples
/// can be read from it, and so can the status and the message of an error.
pub proof fn frames_report_events(rate: u32, samples: Vec<u32>, status: u8, msg: String)
    ensures
        ({
            let frame = event_frame(StreamEvent::Header(rate));
            frame.kind == 0 && frame.payload.len() == 4 && le::le32_value(frame.payload) == rate
        }),
        ({
            let frame = event_frame(StreamEvent::Chunk(samples));
            frame.kind == 1 && frame.payload.len() == 4 * samples@.len() && sample::samples_of(
                frame.payload,
            ) == samples@
        }),
        event_frame(StreamEvent::End).kind == 2,
        event_frame(StreamEvent::End).payload.len() == 0,
        ({
            let frame = event_frame(StreamEvent::Error(status, msg));
            frame.kind == 3 && payload::error_of(frame.payload) == (status, msg@)
        }),
{
    payload::header_payload_reads_back(rate);
    sample::samples_read_back(samples@);
    payload::error_payload_reads_back(status, msg@);
}

/// A stream ends well if and only if its generation did. If not, its last frame
/// tells that it was cancelled, or else why it failed.
pub proof fn streams_tell_how_they_ended(n: u32, e: SynthError)
    ensures
        terminal_frame(Ok(n)).kind == 2,
        terminal_frame(Ok(n)).payload.len() == 0,
        terminal_frame(Err(e)).kind == 3,
        payload::error_of(terminal_frame(Err(e)).payload) == match e {
            SynthError::Cancelled => (3u8, "cancelled"@),
            SynthError::Other(msg) => (3u8, msg@),
        },
{
    payload::error_payload_reads_back(ST_GENERATION_FAILED, "cancelled"@);
    if let SynthError::Other(msg) = e {
        payload::error_payload_reads_back(ST_GENERATION_FAILED, msg@);
    }
}

/// A stream of chunks has one frame for each, in their order, and if there are
/// any, one with the sample rate before them.
pub proof fn streams_keep_the_order(sample_rate: u32, chunks: Seq<Seq<u32>>, i: int)
    requires
        0 <= i < chunks.len(),
    ensures
        chunk_frames(chunks).len() == chunks.len(),
        chunk_frames(chunks)[i].kind == 1,
        sample::samples_of(chunk_frames(chunks)[i].payload) == chunks[i],
        stream_of(sample_rate, chunks).len() == chunks.len() + 1,
        stream_of(sample_rate, chunks)[0].kind == 0,
        le::le32_value(stream_of(sample_rate, chunks)[0].payload) == sample_rate,
        stream_of(sample_rate, chunks)[i + 1] == chunk_frames(chunks)[i],
{
    payload::header_payload_reads_back(sample_rate);
    sample::samples_read_back(chunks[i]);
}

/// The worker does what a request asks for, and refuses what is no request for
/// speech, naming it.
pub proof fn tasks_follow_the_op(op: u8, task: Task)
    requires
        call_ensures(task_for, (op,), task),
    ensures
        task is Single <==> op == 1,
        task is Stream <==> op == 3,
        task is Batch <==> op == 4,
        task matches Task::Refuse(resp) ==> resp.status == 4 && buffer::bytes_of(resp.payload)
            == encode_utf8("worker received non-tts op "@ + text::decimal(op as nat)),
{
}

/// Each request of a batch is answered at its own place, with what it would be
/// answered alone.
pub proof fn batches_are_answered_in_order(
    ends: Vec<Finished>,
    responses: Vec<Response>,
    i: int,
    alone: Response,
)
    requires
        call_ensures(respond_batch, (ends,), responses),
        0 <= i < ends@.len(),
        call_ensures(respond, (ends@[i],), alone),
    ensures
        responses@.len() == ends@.len(),
        responses@[i].status == alone.status,
        buffer::bytes_of(responses@[i].payload) == buffer::bytes_of(alone.payload),
        responses@[i].status == 0 <==> (ends@[i] matches Finished::Synthesized(Ok(_))),
        ends@[i] matches Finished::Synthesized(Ok(data)) ==> buffer::bytes_of(
            responses@[i].payload,
        ) == buffer::bytes_of(data),
{
    assert(responses@[i]@ == response_of(ends@[i]));
}

/// An emitter reports the sample rate once, ahead of the first samples, all
/// samples as they are and in their order, and an end that is told by the
/// result.
pub proof fn emitters_report_everything(
    sample_rate: u32,
    new: Emitter,
    first: &mut Emitter,
    a: Vec<u32>,
    first_events: Vec<StreamEvent>,
    second: &mut Emitter,
    b: Vec<u32>,
    second_events: Vec<StreamEvent>,
    result: Result<u32, SynthError>,
    end: StreamEvent,
    frame: StreamFrame,
)
    requires
        call_ensures(Emitter::new, (sample_rate,), new),
        new == *old(first),
        call_ensures(Emitter::chunk, (first, a), first_events),
        *final(first) == *old(second),
        call_ensures(Emitter::chunk, (second, b), second_events),
        call_ensures(Emitter::finish, (*final(second), result), end),
        call_ensures(frame_for, (end,), frame),
    ensures
        first_events@ == seq![StreamEvent::Header(sample_rate), StreamEvent::Chunk(a)],
        second_events@ == seq![StreamEvent::Chunk(b)],
        frame.kind == 2 <==> result is Ok,
        frame.kind == 2 || frame.kind == 3,
        result matches Err(SynthError::Cancelled) ==> payload::error_of(
            buffer::bytes_of(frame.payload),
        ) == (3u8, "cancelled"@),
        result matches Err(SynthError::Other(msg)) ==> payload::error_of(
            buffer::bytes_of(frame.payload),
        ) == (3u8, msg@),
{
    match result {
        Ok(n) => {},
        Err(e) => {
            streams_tell_how_they_ended(0, e);
        },
    }
}

} // verus!
