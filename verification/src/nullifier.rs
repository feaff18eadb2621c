//! Preparation of a nullifier computation: the hex-encoded note and the
//! decimal position a caller supplies are decoded and validated before
//! the external library derives the nullifier from them.

use vstd::prelude::*;
use crate::decimal::{dec_parse_ok, dec_value, parse_u64, strip_plus};
use crate::errors::EnumError;
use crate::hex::{decode_hex, hex_decode_bytes, hex_decode_ok};

verus! {

/// Decodes a nullifier request's note bytes from hex and its tree
/// position from decimal.  Fails with `DecodeError` exactly where the
/// note is not well-formed hex — checked first — or the position is not
/// a decimal number fitting 64 bits.
pub fn prepare_nullifier_request(note: &String, position: &String) -> (r: Result<
    (Vec<u8>, u64),
    EnumError,
>)
    ensures
        r is Ok <==> hex_decode_ok(note@) && dec_parse_ok(position@),
        r matches Ok(p) ==> p.0@ == hex_decode_bytes(note@) && p.1 as nat == dec_value(
            strip_plus(position@),
        ),
        r matches Err(e) ==> e is DecodeError,
{
    let bytes = decode_hex(note)?;
    match parse_u64(position) {
        Some(pos) => Ok((bytes, pos)),
        None => Err(EnumError::DecodeError { msg: "malformed note position".to_owned() }),
    }
}

} // verus!
