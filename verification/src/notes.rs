//! Preparation of a plaintext note's fields before the external library
//! encrypts it: the memo is truncated or zero-padded to its fixed size,
//! the asset identifier is cut to its fixed length, and owner and sender
//! addresses are cut to the address length, each after checking that
//! enough bytes were supplied.

use vstd::prelude::*;
use vstd::slice::{slice_to_vec, slice_subrange};
use crate::errors::EnumError;

verus! {

/// The fixed byte size of a note's memo field.
pub const MEMO_SIZE: usize = 32;

/// The byte length of an asset identifier.
pub const ASSET_ID_LENGTH: usize = 32;

/// The byte length of a public address.
pub const PUBLIC_ADDRESS_LENGTH: usize = 32;

/// The fields a caller supplies to construct a plaintext note, before any
/// normalization.
#[derive(Debug, Clone, PartialEq, Eq)]
pub struct NoteParams {
    pub owner: Vec<u8>,
    pub value: u64,
    pub memo: Vec<u8>,
    pub asset_id: Vec<u8>,
    pub sender: Vec<u8>,
}

/// A note's fields normalized for the external library: every binary
/// field cut or padded to its fixed length.
#[derive(Debug, Clone, PartialEq, Eq)]
pub struct NotePlan {
    pub owner: Vec<u8>,
    pub value: u64,
    pub memo: Vec<u8>,
    pub asset_id: Vec<u8>,
    pub sender: Vec<u8>,
}

impl NotePlan {
    /// Every field has its wire length.
    pub open spec fn wf(self) -> bool {
        &&& self.owner@.len() == PUBLIC_ADDRESS_LENGTH
        &&& self.memo@.len() == MEMO_SIZE
        &&& self.asset_id@.len() == ASSET_ID_LENGTH
        &&& self.sender@.len() == PUBLIC_ADDRESS_LENGTH
    }
}

/// The memo a caller supplied, truncated to the fixed memo size or padded
/// with zero bytes up to it.
pub open spec fn memo_norm(m: Seq<u8>) -> Seq<u8> {
    if m.len() >= MEMO_SIZE {
        m.take(MEMO_SIZE as int)
    } else {
        m + Seq::new((MEMO_SIZE - m.len()) as nat, |i: int| 0u8)
    }
}

/// Truncates or zero-pads a memo to the fixed memo size.  Bytes past the
/// size are dropped silently; a shorter memo keeps its bytes, followed by
/// zeros.
pub fn normalize_memo(memo: &Vec<u8>) -> (r: Vec<u8>)
    ensures
        r@ == memo_norm(memo@),
        r@.len() == MEMO_SIZE,
{
    if memo.len() >= MEMO_SIZE {
        let r = slice_to_vec(slice_subrange(memo.as_slice(), 0, MEMO_SIZE));
        proof {
            assert(r@ =~= memo_norm(memo@));
        }
        r
    } else {
        let mut r = slice_to_vec(memo.as_slice());
        let pad = MEMO_SIZE - memo.len();
        for k in 0..pad
            invariant
                pad == MEMO_SIZE - memo@.len(),
                r@.len() == memo@.len() + k,
                r@ == memo@ + Seq::new(k as nat, |i: int| 0u8),
        {
            r.push(0u8);
            proof {
                assert(r@ =~= memo@ + Seq::new((k + 1) as nat, |i: int| 0u8));
            }
        }
        proof {
            assert(r@ =~= memo_norm(memo@));
        }
        r
    }
}

/// Normalizes a note's fields for the external library.  The memo is
/// truncated or zero-padded to the memo size; the asset identifier,
/// owner and sender must supply at least their fixed lengths and are cut
/// to them; too few bytes in any of the three is a decode error naming
/// the field.
pub fn plan_note(params: &NoteParams) -> (r: Result<NotePlan, EnumError>)
    ensures
        r is Ok <==> {
            &&& params.owner@.len() >= PUBLIC_ADDRESS_LENGTH
            &&& params.asset_id@.len() >= ASSET_ID_LENGTH
            &&& params.sender@.len() >= PUBLIC_ADDRESS_LENGTH
        },
        r matches Ok(p) ==> {
            &&& p.wf()
            &&& p.owner@ == params.owner@.take(PUBLIC_ADDRESS_LENGTH as int)
            &&& p.value == params.value
            &&& p.memo@ == memo_norm(params.memo@)
            &&& p.asset_id@ == params.asset_id@.take(ASSET_ID_LENGTH as int)
            &&& p.sender@ == params.sender@.take(PUBLIC_ADDRESS_LENGTH as int)
        },
        r matches Err(e) ==> {
            &&& e is DecodeError
            &&& if params.owner@.len() < PUBLIC_ADDRESS_LENGTH {
                e matches EnumError::DecodeError { msg } && msg@ == "owner address too short"@
            } else if params.asset_id@.len() < ASSET_ID_LENGTH {
                e matches EnumError::DecodeError { msg } && msg@ == "asset identifier too short"@
            } else {
                e matches EnumError::DecodeError { msg } && msg@ == "sender address too short"@
            }
        },
{
    if params.owner.len() < PUBLIC_ADDRESS_LENGTH {
        return Err(EnumError::DecodeError { msg: "owner address too short".to_owned() });
    }
    if params.asset_id.len() < ASSET_ID_LENGTH {
        return Err(EnumError::DecodeError { msg: "asset identifier too short".to_owned() });
    }
    if params.sender.len() < PUBLIC_ADDRESS_LENGTH {
        return Err(EnumError::DecodeError { msg: "sender address too short".to_owned() });
    }
    Ok(NotePlan {
        owner: slice_to_vec(slice_subrange(params.owner.as_slice(), 0, PUBLIC_ADDRESS_LENGTH)),
        value: params.value,
        memo: normalize_memo(&params.memo),
        asset_id: slice_to_vec(slice_subrange(params.asset_id.as_slice(), 0, ASSET_ID_LENGTH)),
        sender: slice_to_vec(slice_subrange(params.sender.as_slice(), 0, PUBLIC_ADDRESS_LENGTH)),
    })
}

} // verus!
