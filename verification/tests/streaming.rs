//! Streams: from the worker's samples to the client's file, and from a remote
//! WAV file to frames.

use bytes::Bytes;
use mii_sound::client::stream::{Fault, Output, StreamSink};
use mii_sound::proto::payload::{error_payload, header_payload};
use mii_sound::proto::{
    StreamFrame, KIND_CHUNK, KIND_END, KIND_ERROR, KIND_HEADER, ST_GENERATION_FAILED, ST_UNKNOWN,
};
use mii_sound::sample::{samples_f32_le_to_pcm16, samples_to_le_bytes, ChunkError};
use mii_sound::server::relay::{call_failed, stream_failed, wav_failed, UpstreamError};
use mii_sound::server::wav_stream::WavRelay;
use mii_sound::synth::SynthError;
use mii_sound::wav::{parse_wav_sample_rate, wav_header, WavError};
use mii_sound::worker::{frame_for, Emitter, StreamEvent};

fn frame(kind: u8, payload: Bytes) -> StreamFrame {
    StreamFrame { kind, payload }
}

fn samples(v: &[f32]) -> Vec<u32> {
    v.iter().map(|s| s.to_bits()).collect()
}

fn chunk(v: &[f32]) -> StreamFrame {
    frame(KIND_CHUNK, samples_to_le_bytes(&samples(v)))
}

/// What the output holds when the sink has taken all frames, and whether it
/// has ended.
fn written(mut sink: StreamSink, frames: &[StreamFrame]) -> Result<(Vec<u8>, bool), (u8, String)> {
    let mut out: Vec<u8> = Vec::new();
    let mut ended = false;
    for f in frames {
        match sink.receive(f)? {
            Output::Append(b) => out.extend_from_slice(&b),
            Output::Finish(Some(b)) => {
                out[..b.len()].copy_from_slice(&b);
                ended = true;
            }
            Output::Finish(None) => ended = true,
        }
    }
    Ok((out, ended))
}

#[test]
fn a_header_has_its_fields_in_place() {
    let h = wav_header(24000, 1000);
    let mut expected: Vec<u8> = Vec::new();
    expected.extend_from_slice(b"RIFF");
    expected.extend_from_slice(&1036u32.to_le_bytes());
    expected.extend_from_slice(b"WAVEfmt ");
    expected.extend_from_slice(&16u32.to_le_bytes());
    expected.extend_from_slice(&1u16.to_le_bytes());
    expected.extend_from_slice(&1u16.to_le_bytes());
    expected.extend_from_slice(&24000u32.to_le_bytes());
    expected.extend_from_slice(&48000u32.to_le_bytes());
    expected.extend_from_slice(&2u16.to_le_bytes());
    expected.extend_from_slice(&16u16.to_le_bytes());
    expected.extend_from_slice(b"data");
    expected.extend_from_slice(&1000u32.to_le_bytes());
    assert_eq!(h, expected);
}

#[test]
fn sizes_in_a_header_saturate() {
    let unknown = wav_header(8000, u32::MAX);
    assert_eq!(&unknown[4..8], [0xff; 4]);
    assert_eq!(&unknown[40..44], [0xff; 4]);
    let large = wav_header(u32::MAX, u32::MAX - 1);
    assert_eq!(&large[4..8], [0xff; 4]);
    assert_eq!(&large[40..44], [0xfe, 0xff, 0xff, 0xff]);
    assert_eq!(&large[28..32], [0xff; 4]);
}

#[test]
fn a_sample_rate_reads_back_out_of_a_header() {
    for rate in [0, 8000, 44100, u32::MAX] {
        assert_eq!(parse_wav_sample_rate(&wav_header(rate, 0)), Ok(rate));
        assert_eq!(parse_wav_sample_rate(&wav_header(rate, u32::MAX)), Ok(rate));
    }
}

#[test]
fn a_header_must_be_one() {
    let e = parse_wav_sample_rate(&wav_header(1, 0)[..27]).unwrap_err();
    assert_eq!(e, WavError::TooShort);
    assert_eq!(e.message(), "upstream WAV header too short");
    let mut h = wav_header(1, 0);
    h[0] = b'r';
    assert_eq!(parse_wav_sample_rate(&h), Err(WavError::NotWave));
    let mut h = wav_header(1, 0);
    h[11] = b'e';
    let e = parse_wav_sample_rate(&h).unwrap_err();
    assert_eq!(e, WavError::NotWave);
    assert_eq!(e.message(), "upstream did not return a RIFF/WAVE stream");
}

#[test]
fn samples_become_pcm() {
    let bytes = samples_to_le_bytes(&samples(&[0.0, 1.0, -1.0, 0.5, 2.0, f32::NAN]));
    let pcm = samples_f32_le_to_pcm16(&bytes).unwrap();
    let values: Vec<i16> =
        pcm.chunks(2).map(|p| i16::from_le_bytes([p[0], p[1]])).collect();
    assert_eq!(values, [0, 32767, -32767, 16383, 32767, 0]);
    let e = samples_f32_le_to_pcm16(&bytes[..5]).unwrap_err();
    assert_eq!(e, ChunkError::Ragged);
    assert_eq!(e.message(), "chunk payload not a multiple of 4 bytes");
    assert_eq!(samples_f32_le_to_pcm16(&[]).unwrap(), Vec::<u8>::new());
}

#[test]
fn a_stream_to_standard_output_has_no_sizes() {
    let frames = [
        frame(KIND_HEADER, header_payload(16000)),
        chunk(&[0.5, -0.5]),
        chunk(&[1.0]),
        frame(KIND_END, Bytes::new()),
    ];
    let (out, ended) = written(StreamSink::stdout(), &frames).unwrap();
    let mut expected = wav_header(16000, u32::MAX);
    for v in [16383i16, -16383, 32767] {
        expected.extend_from_slice(&v.to_le_bytes());
    }
    assert_eq!(out, expected);
    assert!(ended);
}

#[test]
fn a_stream_to_a_file_has_its_sizes_in_the_end() {
    let frames = [
        frame(KIND_HEADER, header_payload(16000)),
        chunk(&[0.5, -0.5]),
        chunk(&[1.0]),
        frame(KIND_END, Bytes::new()),
    ];
    let (before, ended) = written(StreamSink::file(), &frames[..3]).unwrap();
    assert_eq!(&before[..44], &wav_header(16000, 0)[..]);
    assert!(!ended);
    let (out, ended) = written(StreamSink::file(), &frames).unwrap();
    let mut expected = wav_header(16000, 6);
    for v in [16383i16, -16383, 32767] {
        expected.extend_from_slice(&v.to_le_bytes());
    }
    assert_eq!(out, expected);
    assert!(ended);
}

#[test]
fn the_size_of_a_file_saturates() {
    let mut sink = StreamSink { to_file: true, sample_rate: Some(1), bytes_written: u32::MAX - 3 };
    sink.receive(&chunk(&[0.0])).unwrap();
    assert_eq!(sink.bytes_written, u32::MAX - 1);
    sink.receive(&chunk(&[0.0])).unwrap();
    assert_eq!(sink.bytes_written, u32::MAX);
}

#[test]
fn a_stream_without_a_header_leaves_the_output_empty() {
    let frames = [frame(KIND_END, Bytes::new())];
    assert_eq!(written(StreamSink::file(), &frames).unwrap(), (vec![], true));
    assert_eq!(written(StreamSink::stdout(), &frames).unwrap(), (vec![], true));
}

#[test]
fn a_stream_is_held_to_its_order() {
    let header = || frame(KIND_HEADER, header_payload(1));
    let refused = |frames: &[StreamFrame]| written(StreamSink::file(), frames).unwrap_err();
    assert_eq!(
        refused(&[header(), header()]),
        (ST_UNKNOWN, "duplicate stream header frame".to_string())
    );
    assert_eq!(
        refused(&[chunk(&[0.0])]),
        (ST_UNKNOWN, "chunk frame received before header frame".to_string())
    );
    assert_eq!(
        refused(&[frame(KIND_CHUNK, Bytes::from_static(b"abc"))]),
        (ST_UNKNOWN, "chunk payload not a multiple of 4 bytes".to_string())
    );
    assert_eq!(
        refused(&[frame(KIND_HEADER, Bytes::from_static(b"abc"))]),
        (ST_UNKNOWN, "invalid header frame payload length: 3".to_string())
    );
    assert_eq!(
        refused(&[frame(9, Bytes::new())]),
        (ST_UNKNOWN, "unknown stream frame kind 9".to_string())
    );
    assert_eq!(
        refused(&[header(), frame(KIND_ERROR, error_payload(2, "gone"))]),
        (2, "gone".to_string())
    );
}

#[test]
fn other_faults_are_reported() {
    assert_eq!(Fault::Write("x".into()).report(), (ST_UNKNOWN, "write request: x".to_string()));
    assert_eq!(Fault::Read("x".into()).report(), (ST_UNKNOWN, "read stream frame: x".to_string()));
    assert_eq!(Fault::Output("x".into()).report(), (ST_UNKNOWN, "x".to_string()));
}

#[test]
fn a_worker_announces_the_sample_rate_once() {
    let mut emitter = Emitter::new(22050);
    let mut frames: Vec<StreamFrame> = Vec::new();
    for part in [&[0.25f32, 0.5][..], &[][..], &[-0.25][..]] {
        frames.extend(emitter.chunk(samples(part)).into_iter().map(frame_for));
    }
    frames.push(frame_for(emitter.finish(Ok(22050))));
    let kinds: Vec<u8> = frames.iter().map(|f| f.kind).collect();
    assert_eq!(kinds, [KIND_HEADER, KIND_CHUNK, KIND_CHUNK, KIND_CHUNK, KIND_END]);
    let (out, _) = written(StreamSink::file(), &frames).unwrap();
    let mut expected = wav_header(22050, 6);
    for v in [8191i16, 16383, -8191] {
        expected.extend_from_slice(&v.to_le_bytes());
    }
    assert_eq!(out, expected);
}

#[test]
fn a_worker_reports_how_a_stream_ended() {
    let end = Emitter::new(1).finish(Ok(1));
    assert!(matches!(end, StreamEvent::End));
    let f = frame_for(Emitter::new(1).finish(Err(SynthError::Cancelled)));
    assert_eq!(
        written(StreamSink::stdout(), &[f]).unwrap_err(),
        (ST_GENERATION_FAILED, "cancelled".to_string())
    );
    let f = frame_for(Emitter::new(1).finish(Err(SynthError::Other("broken".into()))));
    assert_eq!(
        written(StreamSink::stdout(), &[f]).unwrap_err(),
        (ST_GENERATION_FAILED, "broken".to_string())
    );
}

fn wav_file(rate: u32, values: &[i16]) -> Vec<u8> {
    let mut file = wav_header(rate, u32::MAX);
    for v in values {
        file.extend_from_slice(&v.to_le_bytes());
    }
    file
}

fn relayed(file: &[u8], step: usize) -> Vec<StreamFrame> {
    let mut relay = WavRelay::new();
    let mut frames: Vec<StreamFrame> = Vec::new();
    for piece in file.chunks(step) {
        frames.extend(relay.feed(piece).unwrap());
        frames.extend(relay.feed(&[]).unwrap());
    }
    frames.push(relay.end());
    frames
}

#[test]
fn a_remote_file_becomes_the_same_stream_however_it_is_cut() {
    let values = [0i16, 1, -1, 32767, -32768, 12345];
    let mut file = wav_file(24000, &values);
    file.push(7);
    for step in 1..=file.len() {
        let frames = relayed(&file, step);
        assert_eq!(frames[0].kind, KIND_HEADER);
        assert_eq!(&frames[0].payload[..], 24000u32.to_le_bytes());
        let last = frames.len() - 1;
        assert_eq!((frames[last].kind, frames[last].payload.len()), (KIND_END, 0));
        let mut bytes: Vec<u8> = Vec::new();
        for f in &frames[1..last] {
            assert_eq!(f.kind, KIND_CHUNK);
            assert!(!f.payload.is_empty());
            bytes.extend_from_slice(&f.payload);
        }
        let expected: Vec<u8> =
            values.iter().flat_map(|v| (*v as f32 / 32768.0).to_le_bytes()).collect();
        assert_eq!(bytes, expected, "pieces of {step}");
    }
}

#[test]
fn a_remote_file_that_ends_early_is_an_error() {
    let frames = relayed(&wav_file(1, &[])[..10], 3);
    assert_eq!(frames.len(), 1);
    assert_eq!(
        written(StreamSink::file(), &frames).unwrap_err(),
        (
            ST_GENERATION_FAILED,
            "upstream stream ended before WAV header arrived (10 of 44 bytes received)".to_string()
        )
    );
}

#[test]
fn a_remote_file_that_is_no_wav_file_is_refused() {
    let mut file = wav_file(1, &[1]);
    file[8] = b'X';
    let mut relay = WavRelay::new();
    assert!(relay.feed(&file[..43]).unwrap().is_empty());
    let e = relay.feed(&file[43..]).unwrap_err();
    assert_eq!(e, WavError::NotWave);
    assert_eq!(
        written(StreamSink::file(), &[wav_failed(e)]).unwrap_err(),
        (ST_GENERATION_FAILED, "upstream did not return a RIFF/WAVE stream".to_string())
    );
}

#[test]
fn a_remote_stream_that_breaks_is_an_error() {
    let f = stream_failed("reset");
    assert_eq!(
        written(StreamSink::file(), &[f]).unwrap_err(),
        (ST_GENERATION_FAILED, "upstream stream: reset".to_string())
    );
}

#[test]
fn a_stream_without_samples_is_still_a_file() {
    let frames = [frame(KIND_HEADER, header_payload(16000)), frame(KIND_END, Bytes::new())];
    let (out, ended) = written(StreamSink::file(), &frames).unwrap();
    assert_eq!((out, ended), (wav_header(16000, 0), true));
    let (out, ended) = written(StreamSink::stdout(), &frames).unwrap();
    assert_eq!((out, ended), (wav_header(16000, u32::MAX), true));
}

#[test]
fn a_remote_file_without_samples_has_no_sample_frame() {
    for tail in [&b""[..], &b"\x07"[..]] {
        let mut file = wav_file(8000, &[]);
        file.extend_from_slice(tail);
        let kinds: Vec<u8> = relayed(&file, 5).iter().map(|f| f.kind).collect();
        assert_eq!(kinds, [KIND_HEADER, KIND_END]);
    }
}

#[test]
fn an_error_after_the_header_is_reported() {
    let frames = [
        frame(KIND_HEADER, header_payload(16000)),
        frame(KIND_ERROR, error_payload(ST_GENERATION_FAILED, "cancelled")),
    ];
    assert_eq!(
        written(StreamSink::file(), &frames).unwrap_err(),
        (ST_GENERATION_FAILED, "cancelled".to_string())
    );
}

#[test]
fn a_remote_call_that_fails_is_an_error() {
    let e = UpstreamError::Status {
        code: 503,
        line: "503 Service Unavailable".to_string(),
        body: "loading".to_string(),
    };
    assert_eq!(
        written(StreamSink::file(), &[call_failed(&e)]).unwrap_err(),
        (2, "upstream returned 503 Service Unavailable: loading".to_string())
    );
}
