//! Audio samples as bit patterns.
//!
//! A sample is a single-precision number, kept as its 32 bits: one sign bit,
//! eight exponent bits, 23 fraction bits. The conversions to and from 16-bit
//! PCM are worked out on those bits with integers.

use bytes::{Bytes, BytesMut};
use crate::buffer;
use crate::le;
use vstd::arithmetic::power2::*;
use vstd::prelude::*;

verus! {

broadcast use le::group_le;

/// Whether the pattern's sign bit is set.
pub open spec fn is_negative(bits: u32) -> bool {
    bits >= 0x8000_0000
}

/// The biased exponent.
pub open spec fn exponent(bits: u32) -> nat {
    (bits as nat / 0x80_0000) % 256
}

/// The fraction field.
pub open spec fn fraction(bits: u32) -> nat {
    bits as nat % 0x80_0000
}

/// Whether the pattern stands for no number.
pub open spec fn is_nan(bits: u32) -> bool {
    exponent(bits) == 255 && fraction(bits) != 0
}

/// The significand: the magnitude of a finite pattern is
/// `significand * 2^-scale`.
pub open spec fn significand(bits: u32) -> nat {
    if exponent(bits) == 0 {
        fraction(bits)
    } else {
        0x80_0000 + fraction(bits)
    }
}

/// The power of two that divides the significand (150 for an exponent field of
/// 0, which means the same power as 1).
pub open spec fn scale(bits: u32) -> int {
    150 - if exponent(bits) == 0 {
        1
    } else {
        exponent(bits) as int
    }
}

/// The weight of the last of the 24 leading bits of `p`: 1 while `p` fits in 24
/// bits.
pub open spec fn last_place(p: nat) -> nat
    decreases p,
{
    if p < 0x100_0000 {
        1
    } else {
        2 * last_place(p / 2)
    }
}

/// `p` rounded to a multiple of `unit`, to the nearest one, and to the even one
/// of two that are equally near.
pub open spec fn round_even(p: nat, unit: nat) -> nat {
    let q = p / unit;
    let r = p % unit;
    if 2 * r < unit || (2 * r == unit && q % 2 == 0) {
        q * unit
    } else {
        (q + 1) * unit
    }
}

/// The magnitude of the PCM value of a sample: the sample's magnitude, at most
/// 1, times 32767, rounded to a 24-bit significand as single-precision
/// multiplication does, without what lies behind the point.
pub open spec fn pcm_magnitude(bits: u32) -> nat {
    if is_nan(bits) {
        0
    } else if exponent(bits) >= 127 {
        32767
    } else {
        let p = significand(bits) * 32767;
        round_even(p, last_place(p)) / pow2(scale(bits) as nat)
    }
}

/// The 16-bit PCM value of a sample.
pub open spec fn pcm16(bits: u32) -> int {
    if is_negative(bits) {
        -(pcm_magnitude(bits) as int)
    } else {
        pcm_magnitude(bits) as int
    }
}

/// The samples that a payload of little-endian patterns holds.
pub open spec fn samples_of(payload: Seq<u8>) -> Seq<u32> {
    Seq::new(
        payload.len() / 4,
        |i: int| le::le32_value(payload.subrange(4 * i, 4 * i + 4)) as u32,
    )
}

/// Samples as little-endian patterns.
pub open spec fn sample_bytes(samples: Seq<u32>) -> Seq<u8> {
    Seq::new(4 * samples.len(), |j: int| le::le32(samples[j / 4] as int)[j % 4])
}

/// Samples as little-endian 16-bit PCM, negative values in two's complement.
pub open spec fn pcm_bytes(samples: Seq<u32>) -> Seq<u8> {
    Seq::new(2 * samples.len(), |j: int| le::le16(pcm16(samples[j / 2]) % 65536)[j % 2])
}

proof fn last_place_of_leading(p: nat, extra: nat)
    requires
        pow2(23 + extra) <= p < pow2(24 + extra),
    ensures
        last_place(p) == pow2(extra),
    decreases extra,
{
    lemma2_to64();
    if extra > 0 {
        lemma_pow2_unfold(23 + extra);
        lemma_pow2_unfold(24 + extra);
        lemma_pow2_unfold(extra);
        assert((23 + extra - 1) as nat == 23 + (extra - 1) as nat);
        assert((24 + extra - 1) as nat == 24 + (extra - 1) as nat);
        last_place_of_leading(p / 2, (extra - 1) as nat);
        if extra > 1 {
            lemma_pow2_strictly_increases(24, 23 + extra);
        }
    }
}

proof fn last_place_bound(p: nat)
    ensures
        1 <= last_place(p),
        p >= 0x100_0000 ==> last_place(p) * 0x80_0000 <= p,
        p < 0x100_0000 ==> last_place(p) == 1,
    decreases p,
{
    if p >= 0x100_0000 {
        last_place_bound(p / 2);
    }
}

proof fn round_even_bound(p: nat, unit: nat)
    requires
        unit > 0,
    ensures
        round_even(p, unit) <= p + unit,
{
    let q = p / unit;
    assert(p == q * unit + p % unit) by (nonlinear_arith)
        requires
            q == p / unit,
            unit > 0,
    ;
    assert((q + 1) * unit == q * unit + unit) by (nonlinear_arith);
}

/// What the magnitude of a sample below 1 comes to: nothing for small samples,
/// and a division with a known rounding unit for the others.
proof fn magnitude_below_one(bits: u32)
    requires
        exponent(bits) < 127,
    ensures
        24 <= scale(bits) <= 149,
        significand(bits) * 32767 < 0x80_0000_0000,
        scale(bits) >= 40 ==> pcm_magnitude(bits) == 0,
        scale(bits) < 40 ==> {
            let p = significand(bits) * 32767;
            &&& exponent(bits) > 0
            &&& last_place(p) == if p < 0x40_0000_0000 {
                0x4000nat
            } else {
                0x8000nat
            }
        },
        pcm_magnitude(bits) <= 32767,
{
    let p = significand(bits) * 32767;
    let unit = last_place(p);
    let k = scale(bits) as nat;
    let rounded = round_even(p, unit);
    lemma2_to64();
    lemma2_to64_rest();
    lemma_pow2_pos(k);
    if k >= 40 {
        last_place_bound(p);
        round_even_bound(p, unit);
        if k > 40 {
            lemma_pow2_strictly_increases(40, k);
        }
        assert(rounded < pow2(k));
        vstd::arithmetic::div_mod::lemma_basic_div(rounded as int, pow2(k) as int);
    } else {
        if p < 0x40_0000_0000 {
            last_place_of_leading(p, 14);
        } else {
            last_place_of_leading(p, 15);
        }
        assert(significand(bits) < 0x100_0000);
        if p < 0x40_0000_0000 {
            assert(rounded <= p + 0x4000) by {
                round_even_bound(p, unit);
            }
        } else {
            let q = p / 0x8000;
            assert(q < 0x200 * 32767);
            assert(rounded == q * 0x8000 || rounded == (q + 1) * 0x8000);
            assert((q + 1) * 0x8000 <= 0x200 * 32767 * 0x8000);
        }
        assert(rounded <= 0x100_0000 * 32767);
        if k > 24 {
            lemma_pow2_strictly_increases(24, k);
        }
        vstd::arithmetic::div_mod::lemma_div_is_ordered_by_denominator(
            rounded as int,
            0x100_0000,
            pow2(k) as int,
        );
    }
}

/// No sample leaves the range of 16-bit PCM, and that range is symmetric.
pub proof fn pcm16_is_in_range(bits: u32)
    ensures
        -32767 <= pcm16(bits) <= 32767,
{
    if !is_nan(bits) && exponent(bits) < 127 {
        magnitude_below_one(bits);
    }
}

/// Turning a sample's sign bit turns the sign of its PCM value.
pub proof fn pcm16_is_odd(bits: u32)
    requires
        !is_negative(bits),
    ensures
        pcm16((bits + 0x8000_0000) as u32) == -pcm16(bits),
{
    let flipped = (bits + 0x8000_0000) as u32;
    assert(exponent(flipped) == exponent(bits));
    assert(fraction(flipped) == fraction(bits));
}

/// The PCM value of one sample, as its two's-complement 16 bits.
pub fn quantize(bits: u32) -> (v: u16)
    ensures
        v == pcm16(bits) % 65536,
{
    let e: u32 = (bits / 0x80_0000) % 256;
    let f: u32 = bits % 0x80_0000;
    let magnitude: u32 = if e == 255 && f != 0 {
        0
    } else if e >= 127 {
        32767
    } else {
        proof {
            magnitude_below_one(bits);
        }
        if e <= 110 {
            0
        } else {
            let p: u64 = (0x80_0000 + f as u64) * 32767;
            let unit: u64 = if p < 0x40_0000_0000 {
                0x4000
            } else {
                0x8000
            };
            let q: u64 = p / unit;
            let r: u64 = p % unit;
            let rounded: u64 = if 2 * r < unit || (2 * r == unit && q % 2 == 0) {
                q * unit
            } else {
                (q + 1) * unit
            };
            let k: u64 = (150 - e) as u64;
            proof {
                vstd::bits::lemma_u64_shr_is_div(rounded, k);
            }
            (rounded >> k) as u32
        }
    };
    assert(magnitude == pcm_magnitude(bits));
    proof {
        pcm16_is_in_range(bits);
    }
    if bits >= 0x8000_0000 && magnitude > 0 {
        (65536 - magnitude) as u16
    } else {
        magnitude as u16
    }
}

/// Why a chunk of samples cannot be converted.
#[derive(Debug, Clone, Copy, PartialEq, Eq, Structural)]
pub enum ChunkError {
    /// The payload does not divide into samples.
    Ragged,
}

impl ChunkError {
    /// The message for the user.
    pub fn message(self) -> (s: String)
        ensures
            s@ == "chunk payload not a multiple of 4 bytes"@,
    {
        "chunk payload not a multiple of 4 bytes".to_owned()
    }
}

/// Converts a payload of little-endian single-precision samples to 16-bit PCM.
pub fn samples_f32_le_to_pcm16(payload: &[u8]) -> (r: Result<Vec<u8>, ChunkError>)
    ensures
        match r {
            Ok(pcm) => payload@.len() % 4 == 0 && pcm@ == pcm_bytes(samples_of(payload@)),
            Err(e) => payload@.len() % 4 != 0 && e == ChunkError::Ragged,
        },
{
    if payload.len() % 4 != 0 {
        return Err(ChunkError::Ragged);
    }
    let ghost samples = samples_of(payload@);
    let mut out: Vec<u8> = Vec::new();
    let n: usize = payload.len() / 4;
    for i in 0..n
        invariant
            4 * n == payload.len(),
            samples == samples_of(payload@),
            out@ =~= pcm_bytes(samples.take(i as int)),
    {
        let bits = le::get_u32(payload, 4 * i);
        let v = quantize(bits);
        le::put_u16(&mut out, v);
        assert(samples[i as int] == bits);
        assert(out@ =~= pcm_bytes(samples.take(i + 1))) by {
            let before = pcm_bytes(samples.take(i as int));
            let after = pcm_bytes(samples.take(i + 1));
            assert forall|j: int| 0 <= j < 2 * i + 2 implies #[trigger] out@[j] == after[j] by {
                if j < 2 * i {
                    assert(before[j] == after[j]);
                } else {
                    assert(j / 2 == i);
                }
            }
        }
    }
    assert(samples.take(n as int) =~= samples);
    Ok(out)
}

/// Writes samples as little-endian patterns.
pub fn samples_to_le_bytes(samples: &[u32]) -> (b: Bytes)
    ensures
        buffer::bytes_of(b) == sample_bytes(samples@),
{
    let mut buf = BytesMut::new();
    for i in 0..samples.len()
        invariant
            buffer::bytes_mut_of(buf) =~= sample_bytes(samples@.take(i as int)),
    {
        let mut word: Vec<u8> = Vec::new();
        le::put_u32(&mut word, samples[i]);
        buf.extend_from_slice(word.as_slice());
        assert(buffer::bytes_mut_of(buf) =~= sample_bytes(samples@.take(i + 1))) by {
            let before = sample_bytes(samples@.take(i as int));
            let after = sample_bytes(samples@.take(i + 1));
            assert forall|j: int| 0 <= j < 4 * i + 4 implies #[trigger] buffer::bytes_mut_of(
                buf,
            )[j] == after[j] by {
                if j < 4 * i {
                    assert(before[j] == after[j]);
                } else {
                    assert(j / 4 == i);
                }
            }
        }
    }
    assert(samples@.take(samples@.len() as int) =~= samples@);
    buf.freeze()
}

/// Reading samples gives back what was written.
pub proof fn samples_read_back(samples: Seq<u32>)
    ensures
        sample_bytes(samples).len() % 4 == 0,
        samples_of(sample_bytes(samples)) == samples,
{
    let payload = sample_bytes(samples);
    assert forall|i: int| 0 <= i < samples.len() implies samples_of(payload)[i] == samples[i] by {
        let four = payload.subrange(4 * i, 4 * i + 4);
        assert(four =~= le::le32(samples[i] as int));
        le::le32_reads_back(samples[i] as int);
    }
    assert(samples_of(payload) =~= samples);
}

/// Payloads that divide into samples can be joined before or after conversion.
pub proof fn samples_join(a: Seq<u8>, b: Seq<u8>)
    requires
        a.len() % 4 == 0,
    ensures
        samples_of(a + b) == samples_of(a) + samples_of(b),
{
    assert forall|i: int| 0 <= i < samples_of(a + b).len() implies samples_of(a + b)[i] == (
    samples_of(a) + samples_of(b))[i] by {
        let s = (a + b).subrange(4 * i, 4 * i + 4);
        if i < a.len() / 4 {
            assert(s =~= a.subrange(4 * i, 4 * i + 4));
        } else {
            let k = i - a.len() / 4;
            assert(s =~= b.subrange(4 * k, 4 * k + 4));
        }
    }
    assert(samples_of(a + b) =~= samples_of(a) + samples_of(b));
}

/// Samples can be joined before or after they are written as PCM.
pub proof fn pcm_joins(a: Seq<u32>, b: Seq<u32>)
    ensures
        pcm_bytes(a + b) == pcm_bytes(a) + pcm_bytes(b),
{
    assert forall|j: int| 0 <= j < pcm_bytes(a + b).len() implies pcm_bytes(a + b)[j] == (pcm_bytes(
        a,
    ) + pcm_bytes(b))[j] by {
        if j < 2 * a.len() {
            assert((a + b)[j / 2] == a[j / 2]);
        } else {
            let k = j - 2 * a.len();
            assert(j / 2 == k / 2 + a.len());
            assert((a + b)[j / 2] == b[k / 2]);
        }
    }
    assert(pcm_bytes(a + b) =~= pcm_bytes(a) + pcm_bytes(b));
}

/// How often `n` must be doubled to reach 24 bits.
pub open spec fn doublings(n: nat) -> nat
    decreases 0x100_0000 - n,
{
    if n == 0 || n >= 0x80_0000 {
        0
    } else {
        1 + doublings(2 * n)
    }
}

/// The pattern of the sample `v / 32768`.
pub open spec fn unit_bits(v: int) -> u32 {
    if v == 0 {
        0
    } else {
        let n = if v < 0 {
            -v
        } else {
            v
        } as nat;
        let d = doublings(n);
        let sign: int = if v < 0 {
            0x8000_0000
        } else {
            0
        };
        (sign + (135 - d) * 0x80_0000 + (n * pow2(d) - 0x80_0000)) as u32
    }
}

/// The signed number that 16 bits stand for in two's complement.
pub open spec fn signed16(raw: int) -> int {
    if raw >= 32768 {
        raw - 65536
    } else {
        raw
    }
}

/// The samples that 16-bit PCM bytes stand for; an odd last byte counts for
/// nothing.
pub open spec fn pcm_samples(pcm: Seq<u8>) -> Seq<u32> {
    Seq::new(
        pcm.len() / 2,
        |i: int| unit_bits(signed16(le::le16_value(pcm.subrange(2 * i, 2 * i + 2)))),
    )
}

proof fn doublings_normalize(n: nat)
    requires
        0 < n < 0x100_0000,
    ensures
        0x80_0000 <= n * pow2(doublings(n)) < 0x100_0000,
        doublings(n) <= 23,
    decreases 0x100_0000 - n,
{
    lemma2_to64();
    doublings_bound(n, 23);
    if n < 0x80_0000 {
        doublings_normalize(2 * n);
        let d = doublings(2 * n);
        lemma_pow2_unfold(d + 1);
        assert(n * pow2(d + 1) == 2 * n * pow2(d)) by (nonlinear_arith)
            requires
                pow2(d + 1) == 2 * pow2(d),
        ;
    } else {
        assert(n * pow2(0) == n) by (nonlinear_arith)
            requires
                pow2(0) == 1,
        ;
    }
}

proof fn doublings_bound(n: nat, k: nat)
    requires
        0 < n,
        n * pow2(k) >= 0x80_0000,
    ensures
        doublings(n) <= k,
    decreases k,
{
    lemma2_to64();
    if n < 0x80_0000 {
        if k == 0 {
            assert(n * pow2(k) == n) by (nonlinear_arith)
                requires
                    pow2(k) == 1,
            ;
        }
        lemma_pow2_unfold(k);
        assert(2 * n * pow2((k - 1) as nat) == n * pow2(k)) by (nonlinear_arith)
            requires
                pow2(k) == 2 * pow2((k - 1) as nat),
        ;
        doublings_bound(2 * n, (k - 1) as nat);
    }
}

/// A PCM value turns into a sample without any loss: the pattern's value is
/// `v / 32768` exactly.
pub proof fn unit_bits_is_exact(v: int)
    requires
        -32768 <= v <= 32767,
    ensures
        v == 0 ==> unit_bits(v) == 0,
        v != 0 ==> {
            let n = if v < 0 {
                -v
            } else {
                v
            };
            let b = unit_bits(v);
            &&& is_negative(b) == (v < 0)
            &&& 112 <= exponent(b) <= 127
            &&& significand(b) * pow2(exponent(b)) == n * pow2(135)
        },
{
    if v != 0 {
        let n = if v < 0 {
            -v
        } else {
            v
        } as nat;
        let d = doublings(n);
        lemma2_to64();
        doublings_normalize(n);
        assert(n * pow2(23) >= 0x80_0000);
        if d < 8 {
            if d < 7 {
                lemma_pow2_strictly_increases(d, 7);
            }
            assert(n * pow2(d) <= 32768 * 128) by (nonlinear_arith)
                requires
                    n <= 32768,
                    pow2(d) <= 128,
            ;
        }
        let norm = n * pow2(d);
        let sign: int = if v < 0 {
            0x8000_0000
        } else {
            0
        };
        let b = unit_bits(v);
        assert(b == sign + (135 - d) * 0x80_0000 + (norm - 0x80_0000));
        assert(exponent(b) == 135 - d);
        assert(fraction(b) == norm - 0x80_0000);
        lemma_pow2_adds(d, (135 - d) as nat);
        assert(norm * pow2((135 - d) as nat) == n * pow2(135)) by (nonlinear_arith)
            requires
                norm == n * pow2(d),
                pow2(135) == pow2(d) * pow2((135 - d) as nat),
        ;
    }
}

/// The sample that two PCM bytes stand for.
pub fn unit_sample(lo: u8, hi: u8) -> (bits: u32)
    ensures
        bits == unit_bits(signed16(lo + 256 * hi)),
{
    let raw: u32 = lo as u32 + 256 * hi as u32;
    let ghost v = signed16(raw as int);
    if raw == 0 {
        return 0;
    }
    let negative: bool = raw >= 32768;
    let n: u32 = if negative {
        65536 - raw
    } else {
        raw
    };
    proof {
        unit_bits_is_exact(v);
        doublings_normalize(n as nat);
        lemma2_to64();
    }
    let mut norm: u32 = n;
    let mut d: u32 = 0;
    while norm < 0x80_0000
        invariant
            0 < n <= 32768,
            0 < norm < 0x100_0000,
            norm == n * pow2(d as nat),
            doublings(n as nat) == d + doublings(norm as nat),
            doublings(n as nat) <= 23,
        decreases 0x100_0000 - norm,
    {
        proof {
            lemma_pow2_unfold((d + 1) as nat);
            assert(2 * (n * pow2(d as nat)) == n * pow2((d + 1) as nat)) by (nonlinear_arith)
                requires
                    pow2((d + 1) as nat) == 2 * pow2(d as nat),
            ;
        }
        norm = 2 * norm;
        d = d + 1;
    }
    let sign: u32 = if negative {
        0x8000_0000
    } else {
        0
    };
    sign + (135 - d) * 0x80_0000 + (norm - 0x80_0000)
}

/// The number nearest to `p` among the multiples of `unit`, with ties going to
/// the even multiple, is what rounding gives.
proof fn nearest_is_unique(p: nat, unit: nat, q: nat)
    requires
        unit > 0,
        -(unit as int) <= 2 * (p - q * unit) <= unit,
        2 * (p - q * unit) == unit || 2 * (p - q * unit) == -(unit as int) ==> q % 2 == 0,
    ensures
        round_even(p, unit) == q * unit,
{
    let q0 = p / unit;
    let r = p % unit;
    assert(p == q0 * unit + r && 0 <= r < unit) by (nonlinear_arith)
        requires
            q0 == p / unit,
            r == p % unit,
            unit > 0,
    ;
    let d = q - q0;
    assert(q * unit == q0 * unit + d * unit) by (nonlinear_arith)
        requires
            d == q - q0,
    ;
    assert(d >= 2 ==> d * unit >= 2 * unit) by (nonlinear_arith)
        requires
            unit > 0,
    ;
    assert(d <= -1 ==> d * unit <= -(unit as int)) by (nonlinear_arith)
        requires
            unit > 0,
    ;
    assert(d == 0 || d == 1);
    assert((q0 + 1) * unit == q0 * unit + unit) by (nonlinear_arith);
}

/// The PCM value of a sample below full scale is its value times 32767, rounded
/// as single-precision numbers are and then cut off at the point. The sample
/// has the sign `negative`, the exponent field `e` and the fraction field `f`,
/// so that its magnitude is `m / 2^(150 - max(e, 1))`. The product has its last
/// of 24 leading bits at `2^k`; `q` counts those in the nearest number, with
/// ties going to the even one; and `v` is the whole part of that number.
pub proof fn pcm16_is_rounded_product(
    bits: u32,
    negative: bool,
    e: nat,
    f: nat,
    k: nat,
    q: nat,
    v: nat,
)
    requires
        e < 127,
        f < 0x80_0000,
        bits == (if negative {
            0x8000_0000int
        } else {
            0
        }) + e * 0x80_0000 + f,
        ({
            let m = if e == 0 {
                f
            } else {
                0x80_0000 + f
            };
            let p = m * 32767;
            let below = pow2((150 - if e == 0 {
                1
            } else {
                e as int
            }) as nat);
            &&& p < pow2(24 + k)
            &&& k > 0 ==> pow2(23 + k) <= p
            &&& -(pow2(k) as int) <= 2 * (p - q * pow2(k)) <= pow2(k)
            &&& 2 * (p - q * pow2(k)) == pow2(k) || 2 * (p - q * pow2(k)) == -(pow2(k) as int)
                ==> q % 2 == 0
            &&& v * below <= q * pow2(k) < (v + 1) * below
        }),
    ensures
        pcm16(bits) == if negative {
            -(v as int)
        } else {
            v as int
        },
{
    let m = if e == 0 {
        f
    } else {
        0x80_0000 + f
    };
    let p = m * 32767;
    let below = pow2((150 - if e == 0 {
        1
    } else {
        e as int
    }) as nat);
    assert(exponent(bits) == e);
    assert(fraction(bits) == f);
    assert(is_negative(bits) == negative);
    lemma2_to64();
    lemma_pow2_pos(k);
    if k > 0 {
        last_place_of_leading(p, k);
    } else {
        assert(pow2(24) == 0x100_0000);
    }
    assert(last_place(p) == pow2(k));
    nearest_is_unique(p, pow2(k), q);
    let rounded = q * pow2(k);
    lemma_pow2_pos((150 - if e == 0 {
        1
    } else {
        e as int
    }) as nat);
    assert(rounded / below == v) by (nonlinear_arith)
        requires
            below > 0,
            v * below <= rounded < (v + 1) * below,
    ;
}

/// A sample at full scale or beyond has the largest PCM value, with its sign;
/// what is no number has 0.
pub proof fn pcm16_is_clamped(bits: u32, negative: bool, e: nat, f: nat)
    requires
        127 <= e <= 255,
        f < 0x80_0000,
        bits == (if negative {
            0x8000_0000int
        } else {
            0
        }) + e * 0x80_0000 + f,
    ensures
        pcm16(bits) == if e == 255 && f != 0 {
            0
        } else if negative {
            -32767
        } else {
            32767int
        },
{
    assert(exponent(bits) == e);
    assert(fraction(bits) == f);
    assert(is_negative(bits) == negative);
}

/// Of PCM bytes, each two spell the value of one sample in two's complement,
/// the low byte first.
pub proof fn pcm_bytes_spell_values(samples: Seq<u32>, i: int)
    requires
        0 <= i < samples.len(),
    ensures
        pcm_bytes(samples).len() == 2 * samples.len(),
        ({
            let raw = pcm_bytes(samples)[2 * i] + 256 * pcm_bytes(samples)[2 * i + 1];
            let v = pcm16(samples[i]);
            raw == if v < 0 {
                v + 65536
            } else {
                v
            }
        }),
{
    pcm16_is_in_range(samples[i]);
    assert((2 * i) / 2 == i && (2 * i) % 2 == 0);
    assert((2 * i + 1) / 2 == i && (2 * i + 1) % 2 == 1);
    le::le16_spells(pcm16(samples[i]) % 65536);
}

/// Of sample bytes, each four spell the pattern of one sample, the lowest byte
/// first.
pub proof fn sample_bytes_spell_patterns(samples: Seq<u32>, i: int)
    requires
        0 <= i < samples.len(),
    ensures
        sample_bytes(samples).len() == 4 * samples.len(),
        ({
            let b = sample_bytes(samples);
            b[4 * i] + 256 * b[4 * i + 1] + 65536 * b[4 * i + 2] + 16777216 * b[4 * i + 3]
                == samples[i]
        }),
{
    assert((4 * i) / 4 == i && (4 * i) % 4 == 0);
    assert((4 * i + 1) / 4 == i && (4 * i + 1) % 4 == 1);
    assert((4 * i + 2) / 4 == i && (4 * i + 2) % 4 == 2);
    assert((4 * i + 3) / 4 == i && (4 * i + 3) % 4 == 3);
    le::le32_spells(samples[i] as int);
}

/// The samples of a payload are the patterns that each four bytes spell.
pub proof fn samples_are_spelled(payload: Seq<u8>, i: int)
    requires
        0 <= i < payload.len() / 4,
    ensures
        samples_of(payload).len() == payload.len() / 4,
        samples_of(payload)[i] == payload[4 * i] + 256 * payload[4 * i + 1] + 65536 * payload[4 * i
            + 2] + 16777216 * payload[4 * i + 3],
{
    let four = payload.subrange(4 * i, 4 * i + 4);
    assert(four =~= seq![payload[4 * i], payload[4 * i + 1], payload[4 * i + 2], payload[4 * i + 3]]);
    le::bytes_spell(payload[4 * i], payload[4 * i + 1], payload[4 * i + 2], payload[4 * i + 3]);
}

/// The samples of PCM bytes: each two bytes spell a number `v` in two's
/// complement, and the sample's value is exactly `v / 32768`. Its pattern has
/// the sign of `v`, an exponent field `e` and 24 significant bits `m`, and
/// `m / 2^(150 - e)` is that value.
pub proof fn pcm_samples_have_values(pcm: Seq<u8>, i: int)
    requires
        0 <= i < pcm.len() / 2,
    ensures
        pcm_samples(pcm).len() == pcm.len() / 2,
        ({
            let raw = pcm[2 * i] + 256 * pcm[2 * i + 1];
            let v = if raw >= 32768 {
                raw - 65536
            } else {
                raw
            };
            let b = pcm_samples(pcm)[i] as int;
            let e = b % 0x8000_0000 / 0x80_0000;
            let m = 0x80_0000 + b % 0x80_0000;
            &&& v == 0 ==> b == 0
            &&& v != 0 ==> (b >= 0x8000_0000 <==> v < 0) && 0 < e < 150 && m * pow2(e as nat) == (
            if v < 0 {
                -v
            } else {
                v
            }) * pow2(135)
        }),
{
    let two = pcm.subrange(2 * i, 2 * i + 2);
    assert(two =~= seq![pcm[2 * i], pcm[2 * i + 1]]);
    le::bytes_spell(pcm[2 * i], pcm[2 * i + 1], 0, 0);
    let raw = pcm[2 * i] + 256 * pcm[2 * i + 1];
    let v = if raw >= 32768 {
        raw - 65536
    } else {
        raw
    };
    unit_bits_is_exact(v);
    let b = pcm_samples(pcm)[i];
    assert(b == unit_bits(v));
    assert(exponent(b) == b as int % 0x8000_0000 / 0x80_0000);
}

/// A payload of samples is converted if and only if its samples are whole. Then
/// there are two bytes for each four, and they spell, in two's complement and
/// with the low byte first, the PCM value of the pattern that the four spell.
pub proof fn every_sample_is_converted(payload: &[u8], r: Result<Vec<u8>, ChunkError>, i: int)
    requires
        call_ensures(samples_f32_le_to_pcm16, (payload,), r),
        0 <= i < payload@.len() / 4,
    ensures
        r is Ok <==> payload@.len() % 4 == 0,
        r matches Ok(pcm) ==> {
            let bits = payload@[4 * i] + 256 * payload@[4 * i + 1] + 65536 * payload@[4 * i + 2]
                + 16777216 * payload@[4 * i + 3];
            let raw = pcm@[2 * i] + 256 * pcm@[2 * i + 1];
            let v = pcm16(bits as u32);
            &&& 2 * pcm@.len() == payload@.len()
            &&& raw == if v < 0 {
                v + 65536
            } else {
                v
            }
        },
{
    samples_are_spelled(payload@, i);
    pcm_bytes_spell_values(samples_of(payload@), i);
}

/// Writing samples and converting them gives, for each, its PCM value.
pub proof fn written_samples_are_converted(
    samples: &[u32],
    b: Bytes,
    payload: &[u8],
    r: Result<Vec<u8>, ChunkError>,
    i: int,
)
    requires
        call_ensures(samples_to_le_bytes, (samples,), b),
        payload@ == buffer::bytes_of(b),
        call_ensures(samples_f32_le_to_pcm16, (payload,), r),
        0 <= i < samples@.len(),
    ensures
        r matches Ok(pcm) && pcm@.len() == 2 * samples@.len() && pcm@[2 * i] + 256 * pcm@[2 * i + 1]
            == if pcm16(samples@[i]) < 0 {
            pcm16(samples@[i]) + 65536
        } else {
            pcm16(samples@[i])
        },
{
    samples_read_back(samples@);
    pcm_bytes_spell_values(samples@, i);
}

} // verus!
