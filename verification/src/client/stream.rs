//! Receives a stream: turns its frames into the bytes of a WAV file.

use crate::buffer;
use crate::le;
use crate::proto::payload;
use crate::proto::{
    Part, ProtoError, StreamFrame, StreamFrameView, KIND_CHUNK, KIND_END, KIND_ERROR, KIND_HEADER,
    ST_UNKNOWN,
};
use crate::sample;
use crate::text;
use crate::wav;
use crate::wav::STREAMING_SIZE;
use crate::worker;
use vstd::prelude::*;

verus! {

broadcast use le::group_le;

/// What to do with the output.
#[derive(Debug)]
pub enum Output {
    /// Write these bytes at its end.
    Append(Vec<u8>),
    /// The stream has ended. If there are bytes, they go in place of those at
    /// its start.
    Finish(Option<Vec<u8>>),
}

/// What to do with the output.
#[verifier::ext_equal]
pub enum OutputView {
    Append(Seq<u8>),
    Finish(Option<Seq<u8>>),
}

impl View for Output {
    type V = OutputView;

    open spec fn view(&self) -> OutputView {
        match self {
            Output::Append(b) => OutputView::Append(b@),
            Output::Finish(Some(b)) => OutputView::Finish(Some(b@)),
            Output::Finish(None) => OutputView::Finish(None),
        }
    }
}

/// What else can end a stream.
#[derive(Debug)]
pub enum Fault {
    /// The request could not be sent.
    Write(String),
    /// No frame could be read.
    Read(String),
    /// The output could not be written.
    Output(String),
}

impl Fault {
    /// The message for the user.
    pub open spec fn text(self) -> Seq<char> {
        match self {
            Fault::Write(reason) => "write request: "@ + reason@,
            Fault::Read(reason) => "read stream frame: "@ + reason@,
            Fault::Output(reason) => reason@,
        }
    }

    /// The status and the message that end the stream.
    pub fn report(self) -> (r: (u8, String))
        ensures
            r.0 == ST_UNKNOWN,
            r.1@ == self.text(),
    {
        match self {
            Fault::Write(reason) => (ST_UNKNOWN, text::join("write request: ", reason.as_str())),
            Fault::Read(reason) => (ST_UNKNOWN, text::join("read stream frame: ", reason.as_str())),
            Fault::Output(reason) => (ST_UNKNOWN, reason),
        }
    }
}

/// Writes one stream. A file gets its sizes when the stream has ended; anything
/// else gets sizes that stand for "unknown".
#[derive(Debug, Clone, Copy, PartialEq, Eq, Structural)]
pub struct StreamSink {
    /// Whether the output is a file.
    pub to_file: bool,
    /// The sample rate, once a header has been written.
    pub sample_rate: Option<u32>,
    /// How many bytes of samples have been written to a file.
    pub bytes_written: u32,
}

/// The number of bytes of samples after `n` more.
pub open spec fn counted(written: u32, n: nat) -> u32 {
    wav::saturated(written + n % 0x1_0000_0000) as u32
}

/// What a frame does: the sink afterwards and what to do with the output, or a
/// status and a message that end the stream.
pub open spec fn received(sink: StreamSink, frame: StreamFrameView) -> Result<
    (StreamSink, OutputView),
    (u8, Seq<char>),
> {
    if frame.kind == KIND_HEADER {
        if frame.payload.len() != 4 {
            Err((ST_UNKNOWN, ProtoError::HeaderLength(frame.payload.len() as usize).text()))
        } else if sink.sample_rate is Some {
            Err((ST_UNKNOWN, "duplicate stream header frame"@))
        } else {
            let rate = le::le32_value(frame.payload) as u32;
            let size: int = if sink.to_file {
                0
            } else {
                STREAMING_SIZE as int
            };
            Ok(
                (
                    StreamSink { sample_rate: Some(rate), ..sink },
                    OutputView::Append(wav::header_bytes(rate as int, size)),
                ),
            )
        }
    } else if frame.kind == KIND_CHUNK {
        if frame.payload.len() % 4 != 0 {
            Err((ST_UNKNOWN, "chunk payload not a multiple of 4 bytes"@))
        } else if sink.sample_rate is None {
            Err((ST_UNKNOWN, "chunk frame received before header frame"@))
        } else {
            let pcm = sample::pcm_bytes(sample::samples_of(frame.payload));
            Ok(
                (
                    StreamSink {
                        bytes_written: if sink.to_file {
                            counted(sink.bytes_written, pcm.len())
                        } else {
                            sink.bytes_written
                        },
                        ..sink
                    },
                    OutputView::Append(pcm),
                ),
            )
        }
    } else if frame.kind == KIND_END {
        match sink.sample_rate {
            Some(rate) if sink.to_file => Ok(
                (
                    sink,
                    OutputView::Finish(
                        Some(wav::header_bytes(rate as int, sink.bytes_written as int)),
                    ),
                ),
            ),
            _ => Ok((sink, OutputView::Finish(None))),
        }
    } else if frame.kind == KIND_ERROR {
        Err(payload::error_of(frame.payload))
    } else {
        Err((ST_UNKNOWN, "unknown stream frame kind "@ + text::decimal(frame.kind as nat)))
    }
}

impl StreamSink {
    /// A sink that writes to standard output.
    pub fn stdout() -> (sink: Self)
        ensures
            sink == (StreamSink { to_file: false, sample_rate: None, bytes_written: 0 }),
    {
        StreamSink { to_file: false, sample_rate: None, bytes_written: 0 }
    }

    /// A sink that writes to a file.
    pub fn file() -> (sink: Self)
        ensures
            sink == (StreamSink { to_file: true, sample_rate: None, bytes_written: 0 }),
    {
        StreamSink { to_file: true, sample_rate: None, bytes_written: 0 }
    }

    /// Takes the sample rate.
    fn write_header(&mut self, frame: &StreamFrame) -> (r: Result<Output, (u8, String)>)
        requires
            frame.kind == KIND_HEADER,
        ensures
            follows(*old(self), frame@, *final(self), r),
    {
        match payload::parse_header_payload(buffer::as_slice(&frame.payload)) {
            Err(e) => Err((ST_UNKNOWN, e.message())),
            Ok(rate) => {
                if self.sample_rate.is_some() {
                    return Err((ST_UNKNOWN, "duplicate stream header frame".to_owned()));
                }
                self.sample_rate = Some(rate);
                let size: u32 = if self.to_file {
                    0
                } else {
                    STREAMING_SIZE
                };
                Ok(Output::Append(wav::wav_header(rate, size)))
            },
        }
    }

    /// Takes samples.
    fn write_samples(&mut self, frame: &StreamFrame) -> (r: Result<Output, (u8, String)>)
        requires
            frame.kind == KIND_CHUNK,
        ensures
            follows(*old(self), frame@, *final(self), r),
    {
        match sample::samples_f32_le_to_pcm16(buffer::as_slice(&frame.payload)) {
            Err(e) => Err((ST_UNKNOWN, e.message())),
            Ok(pcm) => {
                if self.sample_rate.is_none() {
                    return Err((ST_UNKNOWN, "chunk frame received before header frame".to_owned()));
                }
                if self.to_file {
                    let n: u32 = ((pcm.len() as u64) % 0x1_0000_0000) as u32;
                    self.bytes_written = self.bytes_written.saturating_add(n);
                }
                Ok(Output::Append(pcm))
            },
        }
    }

    /// Ends the output.
    fn finalize(&self) -> (out: Output)
        ensures
            received(*self, payload::end_frame_view()) == Ok::<
                (StreamSink, OutputView),
                (u8, Seq<char>),
            >((*self, out@)),
    {
        match self.sample_rate {
            Some(rate) => {
                if self.to_file {
                    Output::Finish(Some(wav::wav_header(rate, self.bytes_written)))
                } else {
                    Output::Finish(None)
                }
            },
            None => Output::Finish(None),
        }
    }

    /// Takes the next frame.
    pub fn receive(&mut self, frame: &StreamFrame) -> (r: Result<Output, (u8, String)>)
        ensures
            follows(*old(self), frame@, *final(self), r),
    {
        match frame.kind {
            KIND_HEADER => self.write_header(frame),
            KIND_CHUNK => self.write_samples(frame),
            KIND_END => Ok(self.finalize()),
            KIND_ERROR => Err(payload::parse_error_payload(buffer::as_slice(&frame.payload))),
            other => Err((ST_UNKNOWN, text::label_number("unknown stream frame kind ", other as u64))),
        }
    }
}

/// Whether a sink has done what the frame calls for. A sink that refuses a
/// frame stays as it was.
pub open spec fn follows(
    before: StreamSink,
    frame: StreamFrameView,
    after: StreamSink,
    r: Result<Output, (u8, String)>,
) -> bool {
    match (r, received(before, frame)) {
        (Ok(out), Ok(named)) => named == (after, out@),
        (Err(e), Err(named)) => named == (e.0, e.1@) && after == before,
        _ => false,
    }
}

/// What the output holds after some frames, and how the stream has ended, if it
/// has: well, or with a status and a message.
pub open spec fn output_after(
    sink: StreamSink,
    held: Seq<u8>,
    frames: Seq<StreamFrameView>,
) -> (Seq<u8>, Option<Result<(), (u8, Seq<char>)>>)
    decreases frames.len(),
{
    if frames.len() == 0 {
        (held, None)
    } else {
        match received(sink, frames[0]) {
            Err(e) => (held, Some(Err(e))),
            Ok((next, OutputView::Append(b))) => output_after(next, held + b, frames.skip(1)),
            Ok((next, OutputView::Finish(None))) => (held, Some(Ok(()))),
            Ok((next, OutputView::Finish(Some(b)))) => (
                b + held.skip(b.len() as int),
                Some(Ok(())),
            ),
        }
    }
}

/// The samples of all chunks, one after the other.
pub open spec fn all_samples(chunks: Seq<Seq<u32>>) -> Seq<u32>
    decreases chunks.len(),
{
    if chunks.len() == 0 {
        Seq::empty()
    } else {
        chunks[0] + all_samples(chunks.skip(1))
    }
}

/// Whether each chunk fits into a frame.
pub open spec fn chunks_fit(chunks: Seq<Seq<u32>>) -> bool {
    forall|i: int|
        0 <= i < chunks.len() ==> 4 * (#[trigger] chunks[i]).len() <= Part::Stream.limit()
}

/// A sink after so many more samples.
pub open spec fn sink_after(sink: StreamSink, samples: nat) -> StreamSink {
    StreamSink {
        bytes_written: if sink.to_file {
            wav::saturated(sink.bytes_written + 2 * samples) as u32
        } else {
            sink.bytes_written
        },
        ..sink
    }
}

proof fn chunks_are_appended(
    sink: StreamSink,
    held: Seq<u8>,
    chunks: Seq<Seq<u32>>,
    rest: Seq<StreamFrameView>,
)
    requires
        sink.sample_rate is Some,
        chunks_fit(chunks),
    ensures
        output_after(sink, held, worker::chunk_frames(chunks) + rest) == output_after(
            sink_after(sink, all_samples(chunks).len()),
            held + sample::pcm_bytes(all_samples(chunks)),
            rest,
        ),
    decreases chunks.len(),
{
    let frames = worker::chunk_frames(chunks) + rest;
    if chunks.len() == 0 {
        assert(frames =~= rest);
        assert(held + sample::pcm_bytes(all_samples(chunks)) =~= held);
    } else {
        let first = chunks[0];
        let more = chunks.skip(1);
        let pcm = sample::pcm_bytes(first);
        assert forall|i: int| 0 <= i < more.len() implies 4 * (#[trigger] more[i]).len()
            <= Part::Stream.limit() by {
            assert(more[i] == chunks[i + 1]);
        }
        sample::samples_read_back(first);
        assert(frames[0] == payload::chunk_frame_view(first));
        assert(frames.skip(1) =~= worker::chunk_frames(more) + rest);
        assert(4 * chunks[0].len() <= Part::Stream.limit());
        let next = sink_after(sink, first.len());
        chunks_are_appended(next, held + pcm, more, rest);
        sample::pcm_joins(first, all_samples(more));
        assert(held + pcm + sample::pcm_bytes(all_samples(more)) =~= held + sample::pcm_bytes(
            all_samples(chunks),
        ));
    }
}

/// The frames of a stream whose sample rate has been announced, up to its
/// terminal frame. There may be no samples.
pub open spec fn announced(sample_rate: u32, chunks: Seq<Seq<u32>>) -> Seq<StreamFrameView> {
    seq![payload::header_frame_view(sample_rate)] + worker::chunk_frames(chunks)
}

/// A stream that ends well makes a WAV file: its header, with the sample rate,
/// and then all samples, if any, as 16-bit PCM, however they were cut into
/// chunks. In a file the header gives the size of the samples, elsewhere it
/// says that the size is not known.
pub proof fn stream_makes_wav(to_file: bool, sample_rate: u32, chunks: Seq<Seq<u32>>)
    requires
        chunks_fit(chunks),
    ensures
        ({
            let sink = StreamSink { to_file, sample_rate: None, bytes_written: 0 };
            let frames = announced(sample_rate, chunks).push(payload::end_frame_view());
            let pcm = sample::pcm_bytes(all_samples(chunks));
            let size: int = if to_file {
                wav::saturated(pcm.len() as int)
            } else {
                STREAMING_SIZE as int
            };
            output_after(sink, Seq::empty(), frames) == (
                wav::header_bytes(sample_rate as int, size) + pcm,
                Some(Ok::<(), (u8, Seq<char>)>(())),
            )
        }),
{
    let sink = StreamSink { to_file, sample_rate: None, bytes_written: 0 };
    let end = payload::end_frame_view();
    let frames = announced(sample_rate, chunks).push(end);
    let pcm = sample::pcm_bytes(all_samples(chunks));
    payload::header_payload_reads_back(sample_rate);
    let first_size: int = if to_file {
        0
    } else {
        STREAMING_SIZE as int
    };
    let placeholder = wav::header_bytes(sample_rate as int, first_size);
    let next = StreamSink { sample_rate: Some(sample_rate), ..sink };
    assert(frames.skip(1) =~= worker::chunk_frames(chunks) + seq![end]);
    assert(Seq::<u8>::empty() + placeholder =~= placeholder);
    chunks_are_appended(next, placeholder, chunks, seq![end]);
    let last = sink_after(next, all_samples(chunks).len());
    assert(seq![end][0] == end);
    if to_file {
        let h = wav::header_bytes(sample_rate as int, last.bytes_written as int);
        assert((placeholder + pcm).skip(h.len() as int) =~= pcm);
    }
}

/// A stream that ends with an error reports the status and the message that it
/// ends with, whether or not samples, or even the sample rate, came before.
pub proof fn stream_reports_error(
    to_file: bool,
    sample_rate: u32,
    chunks: Seq<Seq<u32>>,
    status: u8,
    msg: Seq<char>,
)
    requires
        chunks_fit(chunks),
    ensures
        ({
            let sink = StreamSink { to_file, sample_rate: None, bytes_written: 0 };
            let error = payload::error_frame_view(status, msg);
            let reported = Some(Err::<(), (u8, Seq<char>)>((status, msg)));
            &&& output_after(sink, Seq::empty(), announced(sample_rate, chunks).push(error)).1
                == reported
            &&& output_after(sink, Seq::empty(), seq![error]).1 == reported
        }),
{
    let sink = StreamSink { to_file, sample_rate: None, bytes_written: 0 };
    let end = payload::error_frame_view(status, msg);
    let frames = announced(sample_rate, chunks).push(end);
    payload::error_payload_reads_back(status, msg);
    assert(seq![end][0] == end);
    payload::header_payload_reads_back(sample_rate);
    let first_size: int = if to_file {
        0
    } else {
        STREAMING_SIZE as int
    };
    let placeholder = wav::header_bytes(sample_rate as int, first_size);
    let next = StreamSink { sample_rate: Some(sample_rate), ..sink };
    assert(frames.skip(1) =~= worker::chunk_frames(chunks) + seq![end]);
    assert(Seq::<u8>::empty() + placeholder =~= placeholder);
    chunks_are_appended(next, placeholder, chunks, seq![end]);
}

/// The stream of a worker that has generated samples has its sample rate
/// announced; that of one that has not has no frame but the terminal one.
pub proof fn worker_streams_are_announced(sample_rate: u32, chunks: Seq<Seq<u32>>)
    ensures
        worker::stream_of(sample_rate, chunks) == if chunks.len() > 0 {
            announced(sample_rate, chunks)
        } else {
            Seq::empty()
        },
{
}

/// A stream that ends before its sample rate is announced leaves the output
/// empty.
pub proof fn empty_stream_writes_nothing(to_file: bool)
    ensures
        ({
            let sink = StreamSink { to_file, sample_rate: None, bytes_written: 0 };
            output_after(sink, Seq::empty(), seq![payload::end_frame_view()]) == (
                Seq::<u8>::empty(),
                Some(Ok::<(), (u8, Seq<char>)>(())),
            )
        }),
{
}

/// A header is taken if and only if it is the first and has four bytes. Then
/// its sample rate goes into the file, and the sink knows it.
pub proof fn headers_are_taken_once(sink: StreamSink, data: Seq<u8>)
    ensures
        ({
            let r = received(sink, StreamFrameView { kind: 0, payload: data });
            &&& r is Ok <==> data.len() == 4 && sink.sample_rate is None
            &&& r matches Ok((next, out)) ==> {
                let rate = data[0] + 256 * data[1] + 65536 * data[2] + 16777216 * data[3];
                &&& next.sample_rate is Some && next.sample_rate->0 == rate
                &&& next.to_file == sink.to_file
                &&& next.bytes_written == sink.bytes_written
                &&& out == OutputView::Append(
                    wav::header_bytes(
                        rate,
                        if sink.to_file {
                            0
                        } else {
                            u32::MAX as int
                        },
                    ),
                )
            }
            &&& r matches Err(e) ==> e.0 == 5 && e.1 == if data.len() != 4 {
                ProtoError::HeaderLength(data.len() as usize).text()
            } else {
                "duplicate stream header frame"@
            }
        }),
{
    if data.len() == 4 {
        le::bytes_spell(data[0], data[1], data[2], data[3]);
        assert(data =~= seq![data[0], data[1], data[2], data[3]]);
    }
}

/// Samples are taken if and only if a header came before them and they are
/// whole. Then all of them go into the output, as 16-bit PCM, and a file counts
/// their bytes.
pub proof fn samples_are_taken_behind_a_header(sink: StreamSink, data: Seq<u8>)
    requires
        data.len() <= 512 * 1024 * 1024,
    ensures
        ({
            let r = received(sink, StreamFrameView { kind: 1, payload: data });
            &&& r is Ok <==> data.len() % 4 == 0 && sink.sample_rate is Some
            &&& r matches Ok((next, out)) ==> {
                let pcm = sample::pcm_bytes(sample::samples_of(data));
                &&& out == OutputView::Append(pcm)
                &&& 2 * pcm.len() == data.len()
                &&& next.sample_rate == sink.sample_rate
                &&& next.to_file == sink.to_file
                &&& !sink.to_file ==> next.bytes_written == sink.bytes_written
                &&& sink.to_file ==> next.bytes_written == if sink.bytes_written + data.len() / 2
                    > u32::MAX {
                    u32::MAX as int
                } else {
                    sink.bytes_written + data.len() / 2
                }
            }
            &&& r matches Err(e) ==> e.0 == 5 && e.1 == if data.len() % 4 != 0 {
                "chunk payload not a multiple of 4 bytes"@
            } else {
                "chunk frame received before header frame"@
            }
        }),
{
}

/// A stream that ends well leaves the sink as it is. A file that has a header
/// gets it once more, now with the sizes; nothing else is written.
pub proof fn ends_complete_the_file(sink: StreamSink, data: Seq<u8>)
    ensures
        ({
            let r = received(sink, StreamFrameView { kind: 2, payload: data });
            &&& r matches Ok((next, out)) && next == sink && out == OutputView::Finish(
                if sink.to_file && sink.sample_rate is Some {
                    Some(
                        wav::header_bytes(
                            sink.sample_rate->0 as int,
                            sink.bytes_written as int,
                        ),
                    )
                } else {
                    None
                },
            )
        }),
{
}

/// An error frame ends the stream with the status and the message that it
/// holds, and so does a frame of a kind that does not exist, which is named.
pub proof fn errors_end_the_stream(
    sink: StreamSink,
    status: u8,
    msg: Seq<char>,
    kind: u8,
    data: Seq<u8>,
)
    ensures
        received(sink, payload::error_frame_view(status, msg)) == Err::<
            (StreamSink, OutputView),
            (u8, Seq<char>),
        >((status, msg)),
        kind > 3 ==> received(sink, (StreamFrameView { kind, payload: data })) == Err::<
            (StreamSink, OutputView),
            (u8, Seq<char>),
        >((5u8, "unknown stream frame kind "@ + text::decimal(kind as nat))),
{
    payload::error_payload_reads_back(status, msg);
}

/// What to do with the output is what the fields hold, and what else ends a
/// stream is told with its reason.
pub proof fn outputs_hold_their_fields(b: Vec<u8>, reason: String)
    ensures
        Output::Append(b)@ == OutputView::Append(b@),
        Output::Finish(Some(b))@ == OutputView::Finish(Some(b@)),
        Output::Finish(None)@ == OutputView::Finish(None),
        Fault::Write(reason).text() == "write request: "@ + reason@,
        Fault::Read(reason).text() == "read stream frame: "@ + reason@,
        Fault::Output(reason).text() == reason@,
{
}

/// A sink has done what a frame calls for only if it gives what the frame
/// calls for and is left as the frame leaves it; if it refuses the frame, it is
/// left as it was.
pub proof fn refused_frames_change_nothing(
    before: StreamSink,
    frame: StreamFrameView,
    after: StreamSink,
    r: Result<Output, (u8, String)>,
)
    requires
        follows(before, frame, after, r),
    ensures
        r is Ok <==> received(before, frame) is Ok,
        r matches Ok(out) ==> received(before, frame)->Ok_0 == (after, out@),
        r matches Err(e) ==> after == before && received(before, frame)->Err_0 == (e.0, e.1@),
{
}

/// Samples that come in go out, each as its own PCM value, and a file counts
/// them; a sink that refuses samples stays as it was.
pub proof fn received_samples_are_written(
    sink: &mut StreamSink,
    frame: StreamFrame,
    r: Result<Output, (u8, String)>,
    i: int,
)
    requires
        call_ensures(StreamSink::receive, (sink, &frame), r),
        frame.kind == 1,
        buffer::bytes_of(frame.payload).len() <= 512 * 1024 * 1024,
        0 <= i < buffer::bytes_of(frame.payload).len() / 4,
    ensures
        ({
            let data = buffer::bytes_of(frame.payload);
            &&& r is Ok <==> data.len() % 4 == 0 && old(sink).sample_rate is Some
            &&& r is Err ==> *final(sink) == *old(sink)
            &&& r matches Ok(out) ==> (out matches Output::Append(pcm) && 2 * pcm@.len()
                == data.len() && {
                let bits = data[4 * i] + 256 * data[4 * i + 1] + 65536 * data[4 * i + 2] + 16777216
                    * data[4 * i + 3];
                let v = sample::pcm16(bits as u32);
                pcm@[2 * i] + 256 * pcm@[2 * i + 1] == if v < 0 {
                    v + 65536
                } else {
                    v
                }
            })
        }),
{
    let data = buffer::bytes_of(frame.payload);
    samples_are_taken_behind_a_header(*old(sink), data);
    sample::samples_are_spelled(data, i);
    sample::pcm_bytes_spell_values(sample::samples_of(data), i);
}

/// A sink begins without a sample rate and with nothing written, and knows
/// whether it writes to a file.
pub proof fn sinks_begin_empty(stdout: StreamSink, file: StreamSink)
    requires
        call_ensures(StreamSink::stdout, (), stdout),
        call_ensures(StreamSink::file, (), file),
    ensures
        !stdout.to_file,
        file.to_file,
        stdout.sample_rate is None && file.sample_rate is None,
        stdout.bytes_written == 0 && file.bytes_written == 0,
{
}

} // verus!
