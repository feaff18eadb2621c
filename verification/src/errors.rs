//! The single typed error surfaced by every fallible operation of this
//! crate, one variant per failure kind.

use vstd::prelude::*;

verus! {

/// Every failure of the wallet core, as a closed taxonomy.  Variants that
/// arise from malformed caller input carry the offending value or a
/// human-readable message; none is ever recovered internally except in the
/// batch-decryption pipeline, which omits failed items instead of failing.
#[derive(Debug, Clone, PartialEq, Eq)]
pub enum EnumError {
    /// A spending or viewing key did not decode.
    InvalidKeyEncoding { msg: String },
    /// A language code outside the eight supported languages.
    InvalidLanguageCode { code: i32 },
    /// The external wordlist encoder failed.
    MnemonicEncodingError { msg: String },
    /// The external wordlist decoder failed (bad checksum, unknown words,
    /// wrong word count).
    MnemonicDecodingError { msg: String },
    /// A witness node's side tag was neither of the two accepted literals.
    InvalidWitnessSide { msg: String },
    /// Malformed note, hash, address or hex bytes.
    DecodeError { msg: String },
    /// A transaction version outside the supported enumeration.
    UnsupportedTransactionVersion { version: u8 },
    /// Proof generation or signing failed while posting a transaction.
    TransactionPostingError { msg: String },
}

} // verus!
