//! Gzip decompression of a byte archive.  The inflation itself is done by
//! an external decompressor; its result is a function of the input bytes
//! alone, named here so callers' contracts can speak of it.

use vstd::prelude::*;
use crate::errors::EnumError;

verus! {

/// What decompressing `data` as a gzip archive yields: the decompressed
/// bytes, or nothing where the archive is malformed.
pub uninterp spec fn gunzip_result(data: Seq<u8>) -> Option<Seq<u8>>;

/// Relies on `zune_inflate::DeflateDecoder::decode_gzip`: the result
/// depends on the input bytes alone, and a malformed archive is an error,
/// never a panic.
#[verifier::external_body]
fn gunzip_raw(data: &Vec<u8>) -> (r: Option<Vec<u8>>)
    ensures
        r is Some <==> gunzip_result(data@) is Some,
        r matches Some(v) ==> Some(v@) == gunzip_result(data@),
{
    let mut decoder = zune_inflate::DeflateDecoder::new(data.as_slice());
    decoder.decode_gzip().ok()
}

/// Decompresses a gzip archive, failing with `DecodeError` exactly where
/// the archive does not decompress.
pub fn unpack_gzip_bytes(data: &Vec<u8>) -> (r: Result<Vec<u8>, EnumError>)
    ensures
        r is Ok <==> gunzip_result(data@) is Some,
        r matches Ok(v) ==> Some(v@) == gunzip_result(data@),
        r matches Err(e) ==> e matches EnumError::DecodeError { msg } && msg@
            == "malformed gzip data"@,
{
    match gunzip_raw(data) {
        Some(v) => Ok(v),
        None => Err(EnumError::DecodeError { msg: "malformed gzip data".to_owned() }),
    }
}

} // verus!
