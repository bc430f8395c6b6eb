//! Samples and WAV headers against the arithmetic of the machine.

use mii_sound::sample::{quantize, unit_sample};

fn machine_pcm(bits: u32) -> i16 {
    let s = f32::from_bits(bits).clamp(-1.0, 1.0);
    (s * i16::MAX as f32) as i16
}

#[test]
fn quantize_agrees_with_the_machine() {
    let mut bits: u32 = 0;
    loop {
        assert_eq!(quantize(bits) as i16, machine_pcm(bits), "{bits:#x}");
        match bits.checked_add(1009) {
            Some(b) => bits = b,
            None => break,
        }
    }
}

#[test]
fn quantize_agrees_at_every_rounding_edge() {
    for exponent in 108u32..=127 {
        let mut fraction = 0u32;
        while fraction < 0x80_0000 {
            let bits = (exponent << 23) | fraction;
            assert_eq!(quantize(bits) as i16, machine_pcm(bits), "{bits:#x}");
            fraction += 3;
        }
    }
}

#[test]
fn unit_samples_agree_with_the_machine() {
    for v in i16::MIN..=i16::MAX {
        let [lo, hi] = v.to_le_bytes();
        let expected = (v as f32 / 32768.0).to_bits();
        assert_eq!(unit_sample(lo, hi), expected, "{v}");
    }
}
