//! Turns a streamed WAV file into the frames of the local protocol.
//!
//! The upstream sends a 16-bit PCM mono WAV file in pieces of any size. The
//! client expects a header frame with the sample rate, frames with
//! single-precision samples, and a terminal frame. A piece may end in the
//! middle of the header or of a sample; the rest comes with the next.

use crate::buffer;
use crate::le;
use crate::proto::payload;
use crate::proto::{
    StreamFrame, StreamFrameView, KIND_CHUNK, KIND_END, KIND_HEADER, ST_GENERATION_FAILED,
};
use crate::sample;
use crate::text;
use crate::wav;
use crate::wav::{WavError, WAV_HEADER_LEN};
use bytes::Bytes;
use vstd::prelude::*;

verus! {

broadcast use le::group_le;

/// The bytes behind the header.
pub open spec fn body_of(received: Seq<u8>) -> Seq<u8> {
    if received.len() <= WAV_HEADER_LEN {
        Seq::empty()
    } else {
        received.skip(WAV_HEADER_LEN as int)
    }
}

/// The byte that waits for the other half of its sample.
pub open spec fn odd_byte(pcm: Seq<u8>) -> Option<u8> {
    if pcm.len() % 2 == 1 {
        Some(pcm.last())
    } else {
        None
    }
}

/// A waiting byte as a sequence.
pub open spec fn carried(carry: Option<u8>) -> Seq<u8> {
    match carry {
        Some(b) => seq![b],
        None => Seq::empty(),
    }
}

/// The samples that are complete with `chunk` and were not before.
pub open spec fn new_samples(received: Seq<u8>, chunk: Seq<u8>) -> Seq<u32> {
    let before = sample::pcm_samples(body_of(received));
    sample::pcm_samples(body_of(received + chunk)).skip(before.len() as int)
}

/// Whether the header is complete with `chunk` and was not before.
pub open spec fn completes_header(received: Seq<u8>, chunk: Seq<u8>) -> bool {
    received.len() < WAV_HEADER_LEN <= received.len() + chunk.len()
}

/// The frames that `chunk` gives behind the bytes that came before it.
pub open spec fn fed(received: Seq<u8>, chunk: Seq<u8>) -> Result<Seq<StreamFrameView>, WavError> {
    let samples = new_samples(received, chunk);
    let chunks = if samples.len() > 0 {
        seq![payload::chunk_frame_view(samples)]
    } else {
        Seq::empty()
    };
    if completes_header(received, chunk) {
        match wav::sample_rate_of((received + chunk).take(WAV_HEADER_LEN as int)) {
            Ok(rate) => Ok(seq![payload::header_frame_view(rate)] + chunks),
            Err(e) => Err(e),
        }
    } else {
        Ok(chunks)
    }
}

/// The frame with which a stream of these bytes ends.
pub open spec fn last_frame(received: Seq<u8>) -> StreamFrameView {
    if received.len() < WAV_HEADER_LEN {
        payload::error_frame_view(
            ST_GENERATION_FAILED,
            "upstream stream ended before WAV header arrived ("@ + text::decimal(received.len())
                + " of 44 bytes received)"@,
        )
    } else {
        payload::end_frame_view()
    }
}

/// Takes all samples out of a waiting byte and the bytes that follow it, and
/// leaves what is left over waiting.
fn take_samples(carry: &mut Option<u8>, bytes: &[u8]) -> (samples: Vec<u32>)
    ensures
        samples@ == sample::pcm_samples(carried(*old(carry)) + bytes@),
        *final(carry) == odd_byte(carried(*old(carry)) + bytes@),
{
    let ghost all = carried(*carry) + bytes@;
    let ghost expected = sample::pcm_samples(all);
    let mut samples: Vec<u32> = Vec::new();
    if bytes.len() == 0 {
        assert(samples@ =~= expected);
        return samples;
    }
    let mut i: usize = 0;
    if let Some(lo) = *carry {
        samples.push(sample::unit_sample(lo, bytes[0]));
        i = 1;
        *carry = None;
        assert(all.subrange(0, 2) =~= seq![lo, bytes@[0]]);
    }
    let ghost shift: int = all.len() - bytes@.len();
    while bytes.len() - i >= 2
        invariant
            i <= bytes@.len(),
            0 <= shift <= 1,
            all.len() == bytes@.len() + shift,
            forall|k: int| 0 <= k < bytes@.len() ==> all[k + shift] == #[trigger] bytes@[k],
            expected == sample::pcm_samples(all),
            i + shift == 2 * samples@.len(),
            *carry is None,
            forall|j: int| 0 <= j < samples@.len() ==> #[trigger] samples@[j] == expected[j],
        decreases bytes@.len() - i,
    {
        let s = sample::unit_sample(bytes[i], bytes[i + 1]);
        proof {
            let j = samples@.len() as int;
            assert(all[i + shift] == bytes@[i as int]);
            assert(all[i + 1 + shift] == bytes@[i + 1]);
            assert(all.subrange(2 * j, 2 * j + 2) =~= seq![bytes@[i as int], bytes@[i + 1]]);
            assert(s == expected[j]);
        }
        samples.push(s);
        i += 2;
    }
    if i < bytes.len() {
        *carry = Some(bytes[i]);
        assert(all[i + shift] == bytes@[i as int]);
    }
    assert(samples@ =~= expected);
    samples
}

/// The samples of all bytes are those of the first bytes and then those of a
/// byte left over from them and the bytes that follow.
proof fn samples_continue(a: Seq<u8>, b: Seq<u8>)
    ensures
        sample::pcm_samples(a + b) == sample::pcm_samples(a) + sample::pcm_samples(
            carried(odd_byte(a)) + b,
        ),
        odd_byte(a + b) == odd_byte(carried(odd_byte(a)) + b),
{
    let rest = carried(odd_byte(a)) + b;
    let n = a.len() / 2;
    assert(rest =~= (a + b).skip(2 * n as int));
    let joined = sample::pcm_samples(a) + sample::pcm_samples(rest);
    assert forall|i: int| 0 <= i < sample::pcm_samples(a + b).len() implies sample::pcm_samples(
        a + b,
    )[i] == joined[i] by {
        let s = (a + b).subrange(2 * i, 2 * i + 2);
        if i < n {
            assert(s =~= a.subrange(2 * i, 2 * i + 2));
        } else {
            assert(s =~= rest.subrange(2 * (i - n), 2 * (i - n) + 2));
        }
    }
    assert(sample::pcm_samples(a + b) =~= joined);
}

/// Relays one streamed WAV file.
pub struct WavRelay {
    header: Vec<u8>,
    carry: Option<u8>,
    received: Ghost<Seq<u8>>,
}

impl View for WavRelay {
    type V = Seq<u8>;

    /// All bytes that have come in.
    closed spec fn view(&self) -> Seq<u8> {
        self.received@
    }
}

impl WavRelay {
    /// Whether the state is that of the bytes that have come in.
    pub closed spec fn wf(self) -> bool {
        &&& self.header@ == if self@.len() < WAV_HEADER_LEN {
            self@
        } else {
            self@.take(WAV_HEADER_LEN as int)
        }
        &&& self.carry == odd_byte(body_of(self@))
    }

    /// A relay to which nothing has come in yet.
    pub fn new() -> (relay: Self)
        ensures
            relay.wf(),
            relay@ == Seq::<u8>::empty(),
    {
        WavRelay { header: Vec::new(), carry: None, received: Ghost(Seq::empty()) }
    }

    /// Takes in the next piece of the file. The frames that it gives, or why
    /// the file is not to be relayed.
    pub fn feed(&mut self, chunk: &[u8]) -> (r: Result<Vec<StreamFrame>, WavError>)
        requires
            old(self).wf(),
        ensures
            match r {
                Ok(frames) => final(self).wf() && final(self)@ == old(self)@ + chunk@ && fed(
                    old(self)@,
                    chunk@,
                ) == Ok::<Seq<StreamFrameView>, WavError>(frames@.map_values(|f: StreamFrame| f@)),
                Err(e) => *final(self) == *old(self) && fed(old(self)@, chunk@) == Err::<
                    Seq<StreamFrameView>,
                    WavError,
                >(e),
            },
    {
        let ghost before = self@;
        let ghost all = before + chunk@;
        let mut frames: Vec<StreamFrame> = Vec::new();
        let mut pos: usize = 0;
        if self.header.len() < WAV_HEADER_LEN {
            let need: usize = WAV_HEADER_LEN - self.header.len();
            let take: usize = if need < chunk.len() {
                need
            } else {
                chunk.len()
            };
            let mut header: Vec<u8> = Vec::new();
            le::put_slice(&mut header, self.header.as_slice());
            le::put_slice(&mut header, vstd::slice::slice_subrange(chunk, 0, take));
            pos = take;
            assert(header@ =~= if all.len() < WAV_HEADER_LEN {
                all
            } else {
                all.take(WAV_HEADER_LEN as int)
            });
            if header.len() == WAV_HEADER_LEN {
                match wav::parse_wav_sample_rate(header.as_slice()) {
                    Err(e) => {
                        return Err(e);
                    },
                    Ok(rate) => {
                        frames.push(
                            StreamFrame { kind: KIND_HEADER, payload: payload::header_payload(rate) },
                        );
                    },
                }
            }
            self.header = header;
        } else {
            assert(all.take(WAV_HEADER_LEN as int) =~= before.take(WAV_HEADER_LEN as int));
        }
        let ghost body = body_of(before);
        let ghost rest = chunk@.skip(pos as int);
        let samples = take_samples(
            &mut self.carry,
            vstd::slice::slice_subrange(chunk, pos, chunk.len()),
        );
        proof {
            self.received = Ghost(all);
            assert(chunk@.subrange(pos as int, chunk@.len() as int) =~= rest);
            assert(body_of(all) =~= body + rest);
            samples_continue(body, rest);
            assert(new_samples(before, chunk@) =~= samples@);
        }
        if samples.len() > 0 {
            frames.push(
                StreamFrame {
                    kind: KIND_CHUNK,
                    payload: sample::samples_to_le_bytes(samples.as_slice()),
                },
            );
        }
        proof {
            let views = frames@.map_values(|f: StreamFrame| f@);
            if let Ok(expected) = fed(before, chunk@) {
                assert(views =~= expected);
            }
        }
        Ok(frames)
    }

    /// The file has ended: the frame that ends the stream.
    pub fn end(self) -> (frame: StreamFrame)
        requires
            self.wf(),
        ensures
            frame@ == last_frame(self@),
    {
        if self.header.len() < WAV_HEADER_LEN {
            let mut msg = text::label_number(
                "upstream stream ended before WAV header arrived (",
                self.header.len() as u64,
            );
            msg.append(" of 44 bytes received)");
            payload::error_frame(ST_GENERATION_FAILED, msg.as_str())
        } else {
            StreamFrame { kind: KIND_END, payload: Bytes::new() }
        }
    }
}

/// The bytes of all pieces, one after the other.
pub open spec fn joined(pieces: Seq<Seq<u8>>) -> Seq<u8>
    decreases pieces.len(),
{
    if pieces.len() == 0 {
        Seq::empty()
    } else {
        pieces[0] + joined(pieces.skip(1))
    }
}

/// The frames that pieces give, behind the bytes that came before them, up to a
/// refusal.
pub open spec fn frames_of(received: Seq<u8>, pieces: Seq<Seq<u8>>) -> Seq<StreamFrameView>
    decreases pieces.len(),
{
    if pieces.len() == 0 {
        Seq::empty()
    } else {
        match fed(received, pieces[0]) {
            Ok(frames) => frames + frames_of(received + pieces[0], pieces.skip(1)),
            Err(e) => Seq::empty(),
        }
    }
}

/// The samples of frames that carry samples, one after the other.
pub open spec fn samples_in(frames: Seq<StreamFrameView>) -> Seq<u32>
    decreases frames.len(),
{
    if frames.len() == 0 {
        Seq::empty()
    } else {
        sample::samples_of(frames[0].payload) + samples_in(frames.skip(1))
    }
}

/// Whether a frame carries samples, four bytes each, and not none.
pub open spec fn carries_samples(frame: StreamFrameView) -> bool {
    frame.kind == KIND_CHUNK && frame.payload.len() % 4 == 0 && frame.payload.len() > 0
}

/// Whether all frames carry samples.
pub open spec fn all_chunks(frames: Seq<StreamFrameView>) -> bool {
    forall|i: int| 0 <= i < frames.len() ==> carries_samples(#[trigger] frames[i])
}

proof fn body_frames(received: Seq<u8>, pieces: Seq<Seq<u8>>)
    requires
        received.len() >= WAV_HEADER_LEN,
    ensures
        all_chunks(frames_of(received, pieces)),
        sample::pcm_samples(body_of(received)) + samples_in(frames_of(received, pieces))
            == sample::pcm_samples(body_of(received + joined(pieces))),
    decreases pieces.len(),
{
    let before = sample::pcm_samples(body_of(received));
    if pieces.len() == 0 {
        assert(received + joined(pieces) =~= received);
        assert(before + samples_in(frames_of(received, pieces)) =~= before);
    } else {
        let chunk = pieces[0];
        let next = received + chunk;
        let tail = frames_of(next, pieces.skip(1));
        body_frames(next, pieces.skip(1));
        assert(received + joined(pieces) =~= next + joined(pieces.skip(1)));
        let samples = new_samples(received, chunk);
        assert(body_of(next) =~= body_of(received) + chunk);
        samples_continue(body_of(received), chunk);
        assert(sample::pcm_samples(body_of(next)) =~= before + samples);
        let frames = frames_of(received, pieces);
        if samples.len() > 0 {
            let first = payload::chunk_frame_view(samples);
            assert(frames =~= seq![first] + tail);
            assert(frames.skip(1) =~= tail);
            sample::samples_read_back(samples);
            assert forall|i: int| 0 <= i < frames.len() implies carries_samples(
                #[trigger] frames[i],
            ) by {
                if i > 0 {
                    assert(frames[i] == tail[i - 1]);
                }
            }
            assert(before + samples_in(frames) =~= before + samples + samples_in(tail));
        } else {
            assert(frames =~= tail);
            assert(before + samples =~= before);
        }
    }
}

/// However a file is cut into pieces, its stream starts with one frame that
/// gives the sample rate, all further frames carry samples, none of them none,
/// and together these are the samples of the file. A file whose header is
/// refused gives no frame.
pub proof fn cutting_does_not_matter(pieces: Seq<Seq<u8>>)
    requires
        joined(pieces).len() >= WAV_HEADER_LEN,
    ensures
        match wav::sample_rate_of(joined(pieces).take(WAV_HEADER_LEN as int)) {
            Ok(rate) => {
                let frames = frames_of(Seq::empty(), pieces);
                &&& frames.len() >= 1
                &&& frames[0] == payload::header_frame_view(rate)
                &&& all_chunks(frames.skip(1))
                &&& samples_in(frames.skip(1)) == sample::pcm_samples(body_of(joined(pieces)))
            },
            Err(e) => frames_of(Seq::empty(), pieces).len() == 0,
        },
{
    assert(Seq::<u8>::empty() + joined(pieces) =~= joined(pieces));
    header_comes_first(Seq::empty(), pieces);
}

proof fn header_comes_first(received: Seq<u8>, pieces: Seq<Seq<u8>>)
    requires
        received.len() < WAV_HEADER_LEN,
        received.len() + joined(pieces).len() >= WAV_HEADER_LEN,
    ensures
        match wav::sample_rate_of((received + joined(pieces)).take(WAV_HEADER_LEN as int)) {
            Ok(rate) => {
                let frames = frames_of(received, pieces);
                &&& frames.len() >= 1
                &&& frames[0] == payload::header_frame_view(rate)
                &&& all_chunks(frames.skip(1))
                &&& samples_in(frames.skip(1)) == sample::pcm_samples(
                    body_of(received + joined(pieces)),
                )
            },
            Err(e) => frames_of(received, pieces).len() == 0,
        },
    decreases pieces.len(),
{
    if pieces.len() > 0 {
        let chunk = pieces[0];
        let next = received + chunk;
        let tail = frames_of(next, pieces.skip(1));
        let all = received + joined(pieces);
        assert(all =~= next + joined(pieces.skip(1)));
        let samples = new_samples(received, chunk);
        assert(sample::pcm_samples(body_of(received)).len() == 0);
        assert(samples =~= sample::pcm_samples(body_of(next)));
        if next.len() < WAV_HEADER_LEN {
            header_comes_first(next, pieces.skip(1));
            assert(samples.len() == 0);
            assert(frames_of(received, pieces) =~= tail);
        } else {
            assert(next.take(WAV_HEADER_LEN as int) =~= all.take(WAV_HEADER_LEN as int));
            body_frames(next, pieces.skip(1));
            if let Ok(rate) = wav::sample_rate_of(all.take(WAV_HEADER_LEN as int)) {
                let frames = frames_of(received, pieces);
                if samples.len() > 0 {
                    let first = payload::chunk_frame_view(samples);
                    assert(frames.skip(1) =~= seq![first] + tail);
                    assert(frames.skip(1).skip(1) =~= tail);
                    sample::samples_read_back(samples);
                    assert forall|i: int| 0 <= i < frames.skip(1).len() implies carries_samples(
                        #[trigger] frames.skip(1)[i],
                    ) by {
                        if i > 0 {
                            assert(frames.skip(1)[i] == tail[i - 1]);
                        }
                    }
                } else {
                    assert(frames.skip(1) =~= tail);
                    assert(samples + samples_in(tail) =~= samples_in(tail));
                }
            }
        }
    }
}

/// Feeding a piece fails if and only if it completes a header that is no WAV
/// file's. It gives a frame with the sample rate if and only if it completes a
/// header, and then first.
pub proof fn header_decides(received: Seq<u8>, chunk: Seq<u8>)
    ensures
        ({
            let completes = received.len() < 44 && received.len() + chunk.len() >= 44;
            let rate = wav::sample_rate_of((received + chunk).take(44));
            &&& fed(received, chunk) is Err <==> completes && rate is Err
            &&& fed(received, chunk) matches Err(e) ==> rate == Err::<u32, WavError>(e)
            &&& fed(received, chunk) matches Ok(frames) ==> {
                &&& completes ==> frames.len() >= 1 && frames[0].kind == 0
                    && frames[0].payload.len() == 4 && le::le32_value(frames[0].payload)
                    == rate->Ok_0
                &&& forall|i: int|
                    0 <= i < frames.len() && !(completes && i == 0) ==> (#[trigger] frames[i]).kind
                        == 1
            }
        }),
{
    if let Ok(rate) = wav::sample_rate_of((received + chunk).take(44)) {
        payload::header_payload_reads_back(rate);
    }
}

/// However a file is cut into pieces, the samples that come out are those of
/// all that follows its first 44 bytes, two bytes each.
pub proof fn samples_follow_the_header(pieces: Seq<Seq<u8>>)
    requires
        joined(pieces).len() >= 44,
        wav::sample_rate_of(joined(pieces).take(44)) is Ok,
    ensures
        samples_in(frames_of(Seq::empty(), pieces).skip(1)) == sample::pcm_samples(
            joined(pieces).skip(44),
        ),
{
    cutting_does_not_matter(pieces);
    assert(joined(pieces).skip(44) =~= body_of(joined(pieces)));
}

/// A stream ends well if and only if a whole header has come in. If not, it
/// ends with an error that tells how many bytes of it came.
pub proof fn streams_end_with_a_header(received: Seq<u8>)
    ensures
        received.len() >= 44 ==> last_frame(received).kind == 2 && last_frame(
            received,
        ).payload.len() == 0,
        received.len() < 44 ==> last_frame(received).kind == 3 && payload::error_of(
            last_frame(received).payload,
        ) == (
            3u8,
            "upstream stream ended before WAV header arrived ("@ + text::decimal(received.len())
                + " of 44 bytes received)"@,
        ),
{
    payload::error_payload_reads_back(
        ST_GENERATION_FAILED,
        "upstream stream ended before WAV header arrived ("@ + text::decimal(received.len())
            + " of 44 bytes received)"@,
    );
}

/// A relay of a file takes in each piece behind those before it, and what it
/// ends with is told by how many bytes came in.
pub proof fn pieces_are_taken_in_order(
    new: WavRelay,
    relay: &mut WavRelay,
    chunk: &[u8],
    r: Result<Vec<StreamFrame>, WavError>,
    frame: StreamFrame,
)
    requires
        call_ensures(WavRelay::new, (), new),
        old(relay).wf(),
        call_ensures(WavRelay::feed, (relay, chunk), r),
        call_ensures(WavRelay::end, (*final(relay),), frame),
    ensures
        new@.len() == 0,
        r is Ok ==> final(relay)@ == old(relay)@ + chunk@,
        r is Err ==> final(relay)@ == old(relay)@,
        r is Err ==> old(relay)@.len() < 44 <= old(relay)@.len() + chunk@.len(),
        frame.kind == 2 <==> final(relay)@.len() >= 44,
        frame.kind == 2 || frame.kind == 3,
        old(relay)@.len() >= 44 ==> (r matches Ok(frames) && forall|i: int|
            0 <= i < frames@.len() ==> (#[trigger] frames@[i]).kind == 1),
{
    if let Ok(frames) = r {
        let views = frames@.map_values(|f: StreamFrame| f@);
        header_decides(old(relay)@, chunk@);
        if old(relay)@.len() >= 44 {
            assert forall|i: int| 0 <= i < frames@.len() implies (#[trigger] frames@[i]).kind
                == 1 by {
                assert(views[i] == frames@[i]@);
                assert(fed(old(relay)@, chunk@)->Ok_0[i] == views[i]);
            }
        }
    }
}

} // verus!
