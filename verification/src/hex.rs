//! Hexadecimal encoding and decoding of binary payloads, as the wallet's
//! boundary encodings use them.  The byte-level work is done by an external
//! codec; the spec functions here state its behaviour exactly, so callers'
//! contracts can speak of the precise bytes and characters involved.

use vstd::prelude::*;
use crate::errors::EnumError;

verus! {

/// Whether `c` is a hexadecimal digit, upper or lower case.
pub open spec fn is_hex_digit(c: char) -> bool {
    ('0' as u32 <= c as u32 && c as u32 <= '9' as u32)
    || ('a' as u32 <= c as u32 && c as u32 <= 'f' as u32)
    || ('A' as u32 <= c as u32 && c as u32 <= 'F' as u32)
}

/// The numeric value of a hexadecimal digit.
pub open spec fn hex_digit_val(c: char) -> int
    recommends
        is_hex_digit(c),
{
    if '0' as u32 <= c as u32 && c as u32 <= '9' as u32 {
        c as u32 - '0' as u32
    } else if 'a' as u32 <= c as u32 && c as u32 <= 'f' as u32 {
        c as u32 - 'a' as u32 + 10
    } else {
        c as u32 - 'A' as u32 + 10
    }
}

/// A leading `0x` or `0X`, removed if present.
pub open spec fn strip_hex_prefix(s: Seq<char>) -> Seq<char> {
    if s.len() >= 2 && s[0] == '0' && (s[1] == 'x' || s[1] == 'X') {
        s.skip(2)
    } else {
        s
    }
}

/// Whether `s` decodes as hex: an even number of characters, and, after an
/// optional `0x`/`0X` prefix, hexadecimal digits only.
pub open spec fn hex_decode_ok(s: Seq<char>) -> bool {
    s.len() % 2 == 0 && forall|i: int|
        0 <= i < strip_hex_prefix(s).len() ==> is_hex_digit(#[trigger] strip_hex_prefix(s)[i])
}

/// The bytes a well-formed hex string denotes, two digits per byte, high
/// digit first.
pub open spec fn hex_decode_bytes(s: Seq<char>) -> Seq<u8>
    recommends
        hex_decode_ok(s),
{
    let t = strip_hex_prefix(s);
    Seq::new(t.len() / 2, |i: int| (hex_digit_val(t[2 * i]) * 16 + hex_digit_val(t[2 * i + 1])) as u8)
}

/// The lowercase hexadecimal digit of value `n`.
pub open spec fn hex_digit_char(n: int) -> char
    recommends
        0 <= n < 16,
{
    if n == 0 { '0' }
    else if n == 1 { '1' }
    else if n == 2 { '2' }
    else if n == 3 { '3' }
    else if n == 4 { '4' }
    else if n == 5 { '5' }
    else if n == 6 { '6' }
    else if n == 7 { '7' }
    else if n == 8 { '8' }
    else if n == 9 { '9' }
    else if n == 10 { 'a' }
    else if n == 11 { 'b' }
    else if n == 12 { 'c' }
    else if n == 13 { 'd' }
    else if n == 14 { 'e' }
    else { 'f' }
}

/// The lowercase hex rendering of `b`: two digits per byte, no prefix.
pub open spec fn hex_encode_chars(b: Seq<u8>) -> Seq<char> {
    Seq::new(
        b.len() * 2,
        |i: int|
            if i % 2 == 0 {
                hex_digit_char(b[i / 2] as int / 16)
            } else {
                hex_digit_char(b[i / 2] as int % 16)
            },
    )
}

/// A hex digit of a given value is a digit of that value: rendering is
/// left inverse to digit reading, and never produces a prefix character.
proof fn lemma_hex_digit_char_props(n: int)
    requires
        0 <= n < 16,
    ensures
        is_hex_digit(hex_digit_char(n)),
        hex_digit_val(hex_digit_char(n)) == n,
        hex_digit_char(n) != 'x',
        hex_digit_char(n) != 'X',
{
}

/// Law: the hex rendering of any byte sequence decodes, and decodes back
/// to exactly that sequence.
pub proof fn lemma_hex_round_trip(b: Seq<u8>)
    ensures
        hex_decode_ok(hex_encode_chars(b)),
        hex_decode_bytes(hex_encode_chars(b)) == b,
{
    let s = hex_encode_chars(b);
    assert forall|i: int| 0 <= i < s.len() implies is_hex_digit(#[trigger] s[i])
        && hex_digit_val(s[i]) < 16 by {
        if i % 2 == 0 {
            lemma_hex_digit_char_props(b[i / 2] as int / 16);
        } else {
            lemma_hex_digit_char_props(b[i / 2] as int % 16);
        }
    }
    if s.len() >= 2 {
        lemma_hex_digit_char_props(b[0] as int % 16);
        assert(s[1] != 'x' && s[1] != 'X');
    }
    assert(strip_hex_prefix(s) == s);
    assert forall|i: int| 0 <= i < b.len() implies #[trigger] hex_decode_bytes(s)[i] == b[i] by {
        lemma_hex_digit_char_props(b[i] as int / 16);
        lemma_hex_digit_char_props(b[i] as int % 16);
        assert(s[2 * i] == hex_digit_char(b[i] as int / 16));
        assert(s[2 * i + 1] == hex_digit_char(b[i] as int % 16));
        assert((b[i] as int / 16) * 16 + (b[i] as int % 16) == b[i] as int);
    }
    assert(hex_decode_bytes(s) =~= b);
}

/// Relies on `const_hex::decode`: it strips one optional `0x` or `0X`
/// prefix, requires an even input length and case-insensitive hex digits,
/// and returns the denoted bytes, two digits per byte.
#[verifier::external_body]
pub(crate) fn hex_decode_raw(s: &String) -> (r: Option<Vec<u8>>)
    ensures
        r is Some <==> hex_decode_ok(s@),
        r matches Some(v) ==> v@ == hex_decode_bytes(s@),
{
    const_hex::decode(s.as_str()).ok()
}

/// Relies on `const_hex::encode`: lowercase hex output, exactly two digits
/// per input byte, no prefix.
#[verifier::external_body]
pub(crate) fn hex_encode_raw(b: &Vec<u8>) -> (r: String)
    ensures
        r@ == hex_encode_chars(b@),
{
    const_hex::encode(b.as_slice())
}

/// Decodes a hex string to its bytes, or fails with `DecodeError` exactly
/// when the string is not well-formed hex.
pub fn decode_hex(s: &String) -> (r: Result<Vec<u8>, EnumError>)
    ensures
        r is Ok <==> hex_decode_ok(s@),
        r matches Ok(v) ==> v@ == hex_decode_bytes(s@),
        r matches Err(e) ==> e is DecodeError,
{
    match hex_decode_raw(s) {
        Some(v) => Ok(v),
        None => Err(EnumError::DecodeError { msg: "malformed hex string".to_owned() }),
    }
}

} // verus!
