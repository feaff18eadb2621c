//! The key bundle a wallet account is built from.  All six fields are
//! fixed-length binary values rendered as lowercase hex, and all are
//! deterministically derivable from the spending key alone by the
//! external key-derivation library; the bundle is immutable once
//! produced.

use vstd::prelude::*;

verus! {

/// A full set of account keys: the root spending key, the derived
/// viewing keys, the public address and the proof-authorizing key, each
/// as a lowercase hex string.
#[derive(Debug, Clone, PartialEq, Eq)]
pub struct Key {
    pub spending_key: String,
    pub view_key: String,
    pub incoming_view_key: String,
    pub outgoing_view_key: String,
    pub public_address: String,
    pub proof_authorizing_key: String,
}

} // verus!
