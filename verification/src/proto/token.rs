//! The token that a TCP client sends before its request.

use crate::proto::wire;
use crate::proto::wire::{Read, Span};
use crate::proto::{Part, ProtoError, MAX_TOKEN};
use crate::text;
use vstd::prelude::*;
use vstd::utf8::*;

verus! {

/// The token at the start of `s`.
pub open spec fn parse_token(s: Seq<u8>) -> wire::Parsed<Seq<char>> {
    match wire::parse_part(s, Part::Token) {
        wire::Parsed::More(n) => wire::Parsed::More(n),
        wire::Parsed::Fail(e) => wire::Parsed::Fail(e),
        wire::Parsed::Done(data, n) => if valid_utf8(data) {
            wire::Parsed::Done(decode_utf8(data), n)
        } else {
            wire::Parsed::Fail(
                ProtoError::TokenNotUtf8(text::utf8_fault(data).0, text::utf8_fault(data).1),
            )
        },
    }
}

/// The bytes that carry a token.
pub fn write_token(token: &str) -> (r: Result<Vec<u8>, ProtoError>)
    ensures
        match r {
            Ok(out) => encode_utf8(token@).len() <= MAX_TOKEN && out@ == wire::part_bytes(
                encode_utf8(token@),
            ),
            Err(e) => encode_utf8(token@).len() > MAX_TOKEN && e == ProtoError::TokenTooLong,
        },
{
    let bytes = token.as_bytes();
    if bytes.len() as u64 > MAX_TOKEN as u64 {
        return Err(ProtoError::TokenTooLong);
    }
    let mut out: Vec<u8> = Vec::new();
    wire::put_part(&mut out, bytes);
    assert(out@ =~= wire::part_bytes(encode_utf8(token@)));
    Ok(out)
}

/// Reads a token.
pub fn read_token(input: &[u8]) -> (r: Read<String>)
    ensures
        wire::reads(r, parse_token(input@)),
{
    assert(input@.skip(0) =~= input@);
    match wire::find_part(input, 0, Part::Token) {
        Span::More(n) => Read::More(n),
        Span::Fail(e) => Read::Fail(e),
        Span::Done(from, to) => {
            let data = vstd::slice::slice_subrange(input, from, to);
            match text::utf8_text(data) {
                Ok(token) => Read::Done(token.to_owned(), to),
                Err((at, len)) => Read::Fail(ProtoError::TokenNotUtf8(at, len)),
            }
        },
    }
}

/// Reading a token gives back the token that was written, whatever follows.
pub proof fn token_reads_back(token: Seq<char>, rest: Seq<u8>)
    requires
        encode_utf8(token).len() <= MAX_TOKEN,
    ensures
        parse_token(wire::part_bytes(encode_utf8(token)) + rest) == wire::Parsed::Done(
            token,
            wire::part_bytes(encode_utf8(token)).len(),
        ),
{
    wire::part_reads_back(encode_utf8(token), Part::Token, rest);
    encode_utf8_valid_utf8(token);
    encode_utf8_decode_utf8(token);
}

/// Reading a token decides nothing too early and asks for nothing beyond it.
pub proof fn token_is_exact(s: Seq<u8>, t: Seq<u8>)
    ensures
        wire::extends(parse_token(s), s.len(), t.len(), parse_token(s + t)),
{
    wire::part_is_exact(s, t, Part::Token);
}

/// A token that has arrived is refused if and only if it is not UTF-8, with
/// where the fault lies; else it is the text that its bytes spell.
pub proof fn token_is_its_bytes(data: Seq<u8>, rest: Seq<u8>)
    requires
        data.len() <= 4096,
    ensures
        match parse_token(wire::part_bytes(data) + rest) {
            wire::Parsed::Done(token, n) => valid_utf8(data) && encode_utf8(token) == data && n == 4
                + data.len(),
            wire::Parsed::Fail(e) => !valid_utf8(data) && e == ProtoError::TokenNotUtf8(
                text::utf8_fault(data).0,
                text::utf8_fault(data).1,
            ),
            wire::Parsed::More(_) => false,
        },
{
    wire::part_reads_back(data, Part::Token, rest);
    if valid_utf8(data) {
        decode_utf8_encode_utf8(data);
    }
}

/// A token is written if and only if it is short enough, and then it is read
/// as it was, whatever follows it.
pub proof fn written_tokens_are_read(
    token: &str,
    w: Result<Vec<u8>, ProtoError>,
    rest: Seq<u8>,
    input: &[u8],
    r: Read<String>,
)
    requires
        call_ensures(write_token, (token,), w),
        w matches Ok(out) ==> input@ == out@ + rest,
        call_ensures(read_token, (input,), r),
    ensures
        w is Ok <==> encode_utf8(token@).len() <= 4096,
        w matches Err(e) ==> e == ProtoError::TokenTooLong,
        w matches Ok(out) ==> (r matches Read::Done(back, n) && back@ == token@ && n == out@.len()),
{
    if w is Ok {
        encode_utf8_valid_utf8(token@);
        encode_utf8_decode_utf8(token@);
        wire::part_reads_back(encode_utf8(token@), Part::Token, rest);
    }
}

/// A token that is announced as longer than 4096 bytes is refused for that, at
/// once; one that is not is awaited.
pub proof fn long_tokens_are_refused(s: Seq<u8>, n: int)
    requires
        s.len() >= 4,
        n == s[0] + 256 * s[1] + 65536 * s[2] + 16777216 * s[3],
    ensures
        n > 4096 <==> parse_token(s) == wire::Parsed::<Seq<char>>::Fail(
            ProtoError::TooLarge(Part::Token, n as u32),
        ),
        n <= 4096 && s.len() < 4 + n ==> (parse_token(s) matches wire::Parsed::More(m) && s.len()
            + m == 4 + n),
{
    wire::part_is_what_is_announced(s, Part::Token, n);
}

} // verus!
