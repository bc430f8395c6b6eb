//! The 44-byte header of a 16-bit PCM mono WAV file.

use crate::le;
use vstd::prelude::*;

verus! {

broadcast use le::group_le;

/// The length of the header.
pub const WAV_HEADER_LEN: usize = 44;

/// Where the sample rate stands in the header.
pub const WAV_SAMPLE_RATE_OFFSET: usize = 24;

/// The size that stands for "unknown" while a file is still being streamed.
pub const STREAMING_SIZE: u32 = 0xFFFF_FFFF;

/// `RIFF`
pub open spec fn tag_riff() -> Seq<u8> {
    seq![0x52, 0x49, 0x46, 0x46]
}

/// `WAVE`
pub open spec fn tag_wave() -> Seq<u8> {
    seq![0x57, 0x41, 0x56, 0x45]
}

/// `fmt` and a blank
pub open spec fn tag_fmt() -> Seq<u8> {
    seq![0x66, 0x6d, 0x74, 0x20]
}

/// `data`
pub open spec fn tag_data() -> Seq<u8> {
    seq![0x64, 0x61, 0x74, 0x61]
}

/// `v`, or the largest 32-bit number where `v` is larger.
pub open spec fn saturated(v: int) -> int {
    if v > 0xFFFF_FFFF {
        0xFFFF_FFFF
    } else {
        v
    }
}

/// The size of all that follows the first eight bytes, given the size of the
/// samples; an unknown size stays unknown.
pub open spec fn riff_size(data_size: int) -> int {
    saturated(36 + data_size)
}

/// The header for `data_size` bytes of samples at `sample_rate`.
pub open spec fn header_bytes(sample_rate: int, data_size: int) -> Seq<u8> {
    tag_riff() + le::le32(riff_size(data_size)) + tag_wave() + tag_fmt() + le::le32(16) + le::le16(1)
        + le::le16(1) + le::le32(sample_rate) + le::le32(saturated(2 * sample_rate)) + le::le16(2)
        + le::le16(16) + tag_data() + le::le32(data_size)
}

/// Builds the header. With `data_size` at its largest, both sizes are written
/// as unknown.
pub fn wav_header(sample_rate: u32, data_size: u32) -> (h: Vec<u8>)
    ensures
        h@ == header_bytes(sample_rate as int, data_size as int),
        h@.len() == WAV_HEADER_LEN,
{
    let chunk_size: u32 = if data_size == u32::MAX {
        u32::MAX
    } else {
        36u32.saturating_add(data_size)
    };
    let byte_rate: u32 = if sample_rate > 0x7FFF_FFFF {
        u32::MAX
    } else {
        2 * sample_rate
    };
    let mut h: Vec<u8> = Vec::new();
    le::put_slice(&mut h, &[0x52, 0x49, 0x46, 0x46]);
    le::put_u32(&mut h, chunk_size);
    le::put_slice(&mut h, &[0x57, 0x41, 0x56, 0x45]);
    le::put_slice(&mut h, &[0x66, 0x6d, 0x74, 0x20]);
    le::put_u32(&mut h, 16);
    le::put_u16(&mut h, 1);
    le::put_u16(&mut h, 1);
    le::put_u32(&mut h, sample_rate);
    le::put_u32(&mut h, byte_rate);
    le::put_u16(&mut h, 2);
    le::put_u16(&mut h, 16);
    le::put_slice(&mut h, &[0x64, 0x61, 0x74, 0x61]);
    le::put_u32(&mut h, data_size);
    assert(h@ =~= header_bytes(sample_rate as int, data_size as int));
    h
}

/// Why a header gives no sample rate.
#[derive(Debug, Clone, Copy, PartialEq, Eq, Structural)]
pub enum WavError {
    /// The header ends before the sample rate.
    TooShort,
    /// The header is not that of a RIFF/WAVE file.
    NotWave,
}

impl WavError {
    /// The message for the user.
    pub open spec fn text(self) -> Seq<char> {
        match self {
            WavError::TooShort => "upstream WAV header too short"@,
            WavError::NotWave => "upstream did not return a RIFF/WAVE stream"@,
        }
    }

    /// The message for the user.
    pub fn message(self) -> (s: String)
        ensures
            s@ == self.text(),
    {
        match self {
            WavError::TooShort => "upstream WAV header too short".to_owned(),
            WavError::NotWave => "upstream did not return a RIFF/WAVE stream".to_owned(),
        }
    }
}

/// The sample rate that a header gives.
pub open spec fn sample_rate_of(header: Seq<u8>) -> Result<u32, WavError> {
    if header.len() < WAV_SAMPLE_RATE_OFFSET + 4 {
        Err(WavError::TooShort)
    } else if header.subrange(0, 4) != tag_riff() || header.subrange(8, 12) != tag_wave() {
        Err(WavError::NotWave)
    } else {
        Ok(
            le::le32_value(
                header.subrange(WAV_SAMPLE_RATE_OFFSET as int, WAV_SAMPLE_RATE_OFFSET + 4),
            ) as u32,
        )
    }
}

/// Reads the sample rate out of a header.
pub fn parse_wav_sample_rate(header: &[u8]) -> (r: Result<u32, WavError>)
    ensures
        r == sample_rate_of(header@),
{
    if header.len() < WAV_SAMPLE_RATE_OFFSET + 4 {
        return Err(WavError::TooShort);
    }
    let riff: bool = header[0] == 0x52 && header[1] == 0x49 && header[2] == 0x46 && header[3] == 0x46;
    let wave: bool = header[8] == 0x57 && header[9] == 0x41 && header[10] == 0x56 && header[11]
        == 0x45;
    assert(riff == (header@.subrange(0, 4) =~= tag_riff())) by {
        let s = header@.subrange(0, 4);
        assert(s[0] == header@[0] && s[1] == header@[1] && s[2] == header@[2] && s[3] == header@[3]);
    }
    assert(wave == (header@.subrange(8, 12) =~= tag_wave())) by {
        let s = header@.subrange(8, 12);
        assert(s[0] == header@[8] && s[1] == header@[9] && s[2] == header@[10] && s[3]
            == header@[11]);
    }
    if !riff || !wave {
        return Err(WavError::NotWave);
    }
    Ok(le::get_u32(header, WAV_SAMPLE_RATE_OFFSET))
}

/// The sample rate that a header was built with can be read back, whatever the
/// size of the samples.
pub proof fn sample_rate_reads_back(sample_rate: u32, data_size: u32)
    ensures
        sample_rate_of(header_bytes(sample_rate as int, data_size as int)) == Ok::<u32, WavError>(
            sample_rate,
        ),
{
    let h = header_bytes(sample_rate as int, data_size as int);
    assert(h.subrange(0, 4) =~= tag_riff());
    assert(h.subrange(8, 12) =~= tag_wave());
    assert(h.subrange(24, 28) =~= le::le32(sample_rate as int));
    le::le32_reads_back(sample_rate as int);
}

/// The size of the samples that a header was built with can be read back, and
/// the other size is 36 bytes more; a size that is not known is not known in
/// either place.
pub proof fn sizes_read_back(sample_rate: u32, data_size: u32)
    ensures
        ({
            let h = header_bytes(sample_rate as int, data_size as int);
            &&& h.len() == WAV_HEADER_LEN
            &&& le::le32_value(h.subrange(40, 44)) == data_size
            &&& data_size <= STREAMING_SIZE - 36 ==> le::le32_value(h.subrange(4, 8)) == 36
                + data_size
            &&& data_size == STREAMING_SIZE ==> le::le32_value(h.subrange(4, 8)) == STREAMING_SIZE
        }),
{
    let h = header_bytes(sample_rate as int, data_size as int);
    assert(h.subrange(40, 44) =~= le::le32(data_size as int));
    assert(h.subrange(4, 8) =~= le::le32(riff_size(data_size as int)));
    le::le32_reads_back(data_size as int);
    le::le32_reads_back(riff_size(data_size as int));
}

/// Every field of a header stands in its place: the tags, the sizes, the format
/// (16 bytes of it: PCM, one channel, the rates, two bytes to a sample of 16
/// bits) and the size of the samples. What does not fit is the largest number.
pub proof fn header_fields(sample_rate: u32, data_size: u32, byte_rate: u32, riff: u32)
    requires
        byte_rate == if 2 * sample_rate > u32::MAX {
            u32::MAX as int
        } else {
            2 * sample_rate
        },
        riff == if 36 + data_size > u32::MAX {
            u32::MAX as int
        } else {
            36 + data_size
        },
    ensures
        ({
            let h = header_bytes(sample_rate as int, data_size as int);
            &&& h.len() == 44
            &&& h.subrange(0, 4) == seq![0x52u8, 0x49, 0x46, 0x46]
            &&& le::le32_value(h.subrange(4, 8)) == riff
            &&& h.subrange(8, 16) == seq![0x57u8, 0x41, 0x56, 0x45, 0x66, 0x6d, 0x74, 0x20]
            &&& h.subrange(16, 24) == seq![16u8, 0, 0, 0, 1, 0, 1, 0]
            &&& le::le32_value(h.subrange(24, 28)) == sample_rate
            &&& le::le32_value(h.subrange(28, 32)) == byte_rate
            &&& h.subrange(32, 40) == seq![2u8, 0, 16, 0, 0x64, 0x61, 0x74, 0x61]
            &&& le::le32_value(h.subrange(40, 44)) == data_size
        }),
{
    let h = header_bytes(sample_rate as int, data_size as int);
    assert(le::le32(16) =~= seq![16u8, 0, 0, 0]) by {
        reveal(le::le32);
    }
    assert(h.subrange(0, 4) =~= seq![0x52u8, 0x49, 0x46, 0x46]);
    assert(h.subrange(4, 8) =~= le::le32(riff as int));
    assert(h.subrange(8, 16) =~= seq![0x57u8, 0x41, 0x56, 0x45, 0x66, 0x6d, 0x74, 0x20]);
    assert(h.subrange(16, 24) =~= seq![16u8, 0, 0, 0, 1, 0, 1, 0]);
    assert(h.subrange(24, 28) =~= le::le32(sample_rate as int));
    assert(h.subrange(28, 32) =~= le::le32(byte_rate as int));
    assert(h.subrange(32, 40) =~= seq![2u8, 0, 16, 0, 0x64, 0x61, 0x74, 0x61]);
    assert(h.subrange(40, 44) =~= le::le32(data_size as int));
    le::le32_reads_back(riff as int);
    le::le32_reads_back(sample_rate as int);
    le::le32_reads_back(byte_rate as int);
    le::le32_reads_back(data_size as int);
}

/// A header gives a sample rate if and only if it reaches that far and has the
/// tags of a RIFF/WAVE file, and then the one that stands there.
pub proof fn sample_rate_stands_in_header(header: Seq<u8>)
    ensures
        header.len() < 28 ==> sample_rate_of(header) == Err::<u32, WavError>(WavError::TooShort),
        header.len() >= 28 ==> {
            let tagged = header.subrange(0, 4) == seq![0x52u8, 0x49, 0x46, 0x46]
                && header.subrange(8, 12) == seq![0x57u8, 0x41, 0x56, 0x45];
            match sample_rate_of(header) {
                Ok(rate) => tagged && rate == le::le32_value(header.subrange(24, 28)),
                Err(e) => !tagged && e == WavError::NotWave,
            }
        },
{
}

/// A stream that is refused is refused in its own words.
pub proof fn refusals_are_told()
    ensures
        WavError::TooShort.text() == "upstream WAV header too short"@,
        WavError::NotWave.text() == "upstream did not return a RIFF/WAVE stream"@,
{
}

} // verus!
