//! Little-endian integers in byte sequences.

use vstd::prelude::*;

verus! {

/// The two bytes of `v`, least significant first.
pub open spec fn le16(v: int) -> Seq<u8> {
    seq![(v % 256) as u8, (v / 256 % 256) as u8]
}

/// The four bytes of `v`, least significant first.
#[verifier::opaque]
pub open spec fn le32(v: int) -> Seq<u8> {
    seq![
        (v % 256) as u8,
        (v / 256 % 256) as u8,
        (v / 65536 % 256) as u8,
        (v / 16777216 % 256) as u8,
    ]
}

/// The number that the first two bytes of `s` spell.
pub open spec fn le16_value(s: Seq<u8>) -> int {
    s[0] + 256 * s[1]
}

/// The number that the first four bytes of `s` spell.
#[verifier::opaque]
pub open spec fn le32_value(s: Seq<u8>) -> int {
    s[0] + 256 * s[1] + 65536 * s[2] + 16777216 * s[3]
}

/// Four bytes spell a number of 32 bits.
pub broadcast proof fn le32_value_range(s: Seq<u8>)
    ensures
        0 <= #[trigger] le32_value(s) < 0x1_0000_0000,
{
    reveal(le32_value);
}

/// A number of 32 bits takes four bytes.
pub broadcast proof fn le32_len(v: int)
    ensures
        #[trigger] le32(v).len() == 4,
{
    reveal(le32);
}

pub broadcast group group_le {
    le32_value_range,
    le32_len,
}

/// Reading four bytes gives back the number that was written.
pub proof fn le32_reads_back(v: int)
    requires
        0 <= v < 0x1_0000_0000,
    ensures
        le32(v).len() == 4,
        le32_value(le32(v)) == v,
{
    reveal(le32);
    reveal(le32_value);
}

/// Writing the number that four bytes spell gives back the bytes.
pub proof fn le32_writes_back(s: Seq<u8>)
    requires
        s.len() == 4,
    ensures
        0 <= le32_value(s) < 0x1_0000_0000,
        le32(le32_value(s)) == s,
{
    reveal(le32);
    reveal(le32_value);
    let v = le32_value(s);
    assert(v / 256 == s[1] + 256 * s[2] + 65536 * s[3] && v % 256 == s[0]);
    assert(v / 65536 == s[2] + 256 * s[3]);
    assert(v / 16777216 == s[3]);
    assert(v / 256 % 256 == s[1]);
    assert(v / 65536 % 256 == s[2]);
    assert(v / 16777216 % 256 == s[3]);
    assert(le32(v) =~= s);
}

/// Appends the four bytes of `v`.
pub fn put_u32(out: &mut Vec<u8>, v: u32)
    ensures
        final(out)@ == old(out)@ + le32(v as int),
{
    out.push((v % 256) as u8);
    out.push((v / 256 % 256) as u8);
    out.push((v / 65536 % 256) as u8);
    out.push((v / 16777216) as u8);
    proof {
        reveal(le32);
    }
    assert(out@ =~= old(out)@ + le32(v as int));
}

/// Appends the two bytes of `v`.
pub fn put_u16(out: &mut Vec<u8>, v: u16)
    ensures
        final(out)@ == old(out)@ + le16(v as int),
{
    out.push((v % 256) as u8);
    out.push((v / 256) as u8);
    assert(out@ =~= old(out)@ + le16(v as int));
}

/// Appends a slice.
pub fn put_slice(out: &mut Vec<u8>, s: &[u8])
    ensures
        final(out)@ == old(out)@ + s@,
{
    out.extend_from_slice(s);
    assert(out@ =~= old(out)@ + s@);
}

/// The number that the four bytes at `at` spell.
pub fn get_u32(s: &[u8], at: usize) -> (v: u32)
    requires
        at + 4 <= s@.len(),
    ensures
        v == le32_value(s@.subrange(at as int, at + 4)),
{
    proof {
        reveal(le32_value);
    }
    (s[at] as u32) + 256 * (s[at + 1] as u32) + 65536 * (s[at + 2] as u32) + 16777216 * (s[at + 3] as u32)
}

/// The bytes of a number of 32 bits are its digits to the base 256, the lowest
/// first.
pub proof fn le32_spells(v: int)
    requires
        0 <= v < 0x1_0000_0000,
    ensures
        le32(v).len() == 4,
        le32(v)[0] + 256 * le32(v)[1] + 65536 * le32(v)[2] + 16777216 * le32(v)[3] == v,
{
    reveal(le32);
}

/// The bytes of a number of 16 bits are its digits to the base 256, the lowest
/// first.
pub proof fn le16_spells(v: int)
    requires
        0 <= v < 65536,
    ensures
        le16(v).len() == 2,
        le16(v)[0] + 256 * le16(v)[1] == v,
{
}

/// Four bytes, and two, are read as digits to the base 256, the lowest first.
pub proof fn bytes_spell(a: u8, b: u8, c: u8, d: u8)
    ensures
        le32_value(seq![a, b, c, d]) == a + 256 * b + 65536 * c + 16777216 * d,
        le16_value(seq![a, b]) == a + 256 * b,
{
    reveal(le32_value);
}

} // verus!
