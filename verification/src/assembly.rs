//! Assembly of an unposted transaction from previously computed
//! components.  The version is validated against the closed set of
//! supported versions, each spend's witness is reconstructed from its
//! wire form in input order, and outputs, expiration, fee and spending
//! key are carried over unchanged.  A malformed spend aborts the whole
//! call with an error naming the spend's index — unlike batch note
//! decryption, nothing here is best-effort, because one malformed spend
//! corrupts the whole transaction.  Spend and output order is preserved
//! exactly: the posting step commits them in registration order.

use vstd::prelude::*;
use vstd::slice::slice_to_vec;
use vstd::string::StringExecFns;
use crate::decimal::{dec_digits, u64_to_dec};
use crate::errors::EnumError;
use crate::witness::{
    bad_node_at, node_good, reconstruct_witness, side_right, Witness, WitnessNode,
    SIBLING_HASH_LENGTH,
};

verus! {

/// One spend input as it crosses the wire: the plaintext note bytes and
/// the flat representation of its Merkle witness.
#[derive(Debug, Clone, PartialEq, Eq)]
pub struct SpendComponents {
    pub note: Vec<u8>,
    pub witness_root_hash: Vec<u8>,
    pub witness_tree_size: u64,
    pub witness_auth_path: Vec<WitnessNode>,
}

/// One spend ready for registration: the note bytes and the reconstructed
/// witness.
#[derive(Debug, Clone, PartialEq, Eq)]
pub struct SpendPlan {
    pub note: Vec<u8>,
    pub witness: Witness,
}

/// A validated transaction, ready for the external posting operation:
/// spends and outputs in registration order, with the version, fee,
/// expiration and spending key to post under.
#[derive(Debug, Clone, PartialEq, Eq)]
pub struct TransactionPlan {
    pub version: u8,
    pub fee: u64,
    pub expiration_sequence: u32,
    pub spends: Vec<SpendPlan>,
    pub outputs: Vec<Vec<u8>>,
    pub spending_key: Vec<u8>,
}

/// Whether `version` names a supported transaction version.
pub open spec fn version_supported(version: u8) -> bool {
    version == 1 || version == 2
}

/// Whether every witness node of a spend is well-formed.
pub open spec fn spend_good(s: SpendComponents) -> bool {
    forall|j: int|
        0 <= j < s.witness_auth_path@.len() ==> node_good(#[trigger] s.witness_auth_path@[j])
}

/// Whether position `k` holds the first malformed spend of a batch.
pub open spec fn first_bad_spend(spends: Seq<SpendComponents>, k: int) -> bool {
    &&& 0 <= k < spends.len()
    &&& !spend_good(spends[k])
    &&& forall|j: int| 0 <= j < k ==> spend_good(#[trigger] spends[j])
}

/// The message of an error raised by spend number `index`: the index,
/// then the underlying complaint.
pub open spec fn spend_error_msg(index: nat, inner: Seq<char>) -> Seq<char> {
    "spend "@ + dec_digits(index) + ": "@ + inner
}

/// The error a malformed spend produces: the error of its first malformed
/// witness node, with the spend's index prefixed to the message.
pub open spec fn spend_error_matches(s: SpendComponents, k: int, e: EnumError) -> bool {
    exists|m: int| #[trigger] bad_node_at(s.witness_auth_path@, m) && {
        let n = s.witness_auth_path@[m];
        if n.hash_of_sibling@.len() != SIBLING_HASH_LENGTH {
            e matches EnumError::DecodeError { msg } && msg@ == spend_error_msg(
                k as nat,
                "witness sibling hash must be 32 bytes"@,
            )
        } else {
            e matches EnumError::InvalidWitnessSide { msg } && msg@ == spend_error_msg(
                k as nat,
                "Invalid side"@,
            )
        }
    }
}

/// Builds the message prefix naming a spend.
fn spend_msg_prefix(index: u64) -> (r: String)
    ensures
        r@ == "spend "@ + dec_digits(index as nat) + ": "@,
{
    let mut r = "spend ".to_owned();
    let digits = u64_to_dec(index);
    r.append(digits.as_str());
    r.append(": ");
    r
}

/// Prefixes a witness error's message with the index of the spend it
/// arose in; errors of other kinds pass through unchanged.
fn itemize_spend_error(index: u64, e: EnumError) -> (r: EnumError)
    ensures
        e matches EnumError::DecodeError { msg } ==> (r matches EnumError::DecodeError {
            msg: m,
        } && m@ == spend_error_msg(index as nat, msg@)),
        e matches EnumError::InvalidWitnessSide { msg } ==> (
        r matches EnumError::InvalidWitnessSide { msg: m } && m@ == spend_error_msg(
            index as nat,
            msg@,
        )),
        !(e is DecodeError || e is InvalidWitnessSide) ==> r == e,
{
    match e {
        EnumError::DecodeError { msg } => {
            let mut m = spend_msg_prefix(index);
            m.append(msg.as_str());
            proof {
                assert(m@ =~= spend_error_msg(index as nat, msg@));
            }
            EnumError::DecodeError { msg: m }
        },
        EnumError::InvalidWitnessSide { msg } => {
            let mut m = spend_msg_prefix(index);
            m.append(msg.as_str());
            proof {
                assert(m@ =~= spend_error_msg(index as nat, msg@));
            }
            EnumError::InvalidWitnessSide { msg: m }
        },
        other => other,
    }
}

/// Validates and assembles a transaction from its components.  The
/// version must be supported; each spend's witness is reconstructed in
/// input order, and the first malformed spend aborts the call with its
/// witness error, the spend's index prefixed to the message; outputs,
/// fee, expiration and spending key are carried over verbatim, in order.
/// No partial plan is ever returned.
pub fn plan_transaction(
    transaction_version: u8,
    transaction_fee: u64,
    expiration_sequence: u32,
    spend_components: &Vec<SpendComponents>,
    outputs: &Vec<Vec<u8>>,
    spending_key: &Vec<u8>,
) -> (r: Result<TransactionPlan, EnumError>)
    ensures
        r is Ok <==> version_supported(transaction_version) && (forall|i: int|
            0 <= i < spend_components@.len() ==> spend_good(#[trigger] spend_components@[i])),
        r matches Ok(p) ==> {
            &&& p.version == transaction_version
            &&& p.fee == transaction_fee
            &&& p.expiration_sequence == expiration_sequence
            &&& p.spending_key@ == spending_key@
            &&& p.outputs@.len() == outputs@.len()
            &&& (forall|i: int| 0 <= i < outputs@.len() ==> (#[trigger] p.outputs@[i])@
                == outputs@[i]@)
            &&& p.spends@.len() == spend_components@.len()
            &&& (forall|i: int| 0 <= i < spend_components@.len() ==> {
                let sc = #[trigger] spend_components@[i];
                let sp = p.spends@[i];
                &&& sp.note@ == sc.note@
                &&& sp.witness.root_hash@ == sc.witness_root_hash@
                &&& sp.witness.tree_size == sc.witness_tree_size
                &&& sp.witness.auth_path@.len() == sc.witness_auth_path@.len()
                &&& (forall|j: int| 0 <= j < sc.witness_auth_path@.len() ==> {
                    &&& (#[trigger] sp.witness.auth_path@[j]).right == side_right(
                        sc.witness_auth_path@[j].side@,
                    )
                    &&& sp.witness.auth_path@[j].hash_of_sibling@
                        == sc.witness_auth_path@[j].hash_of_sibling@
                })
            })
        },
        !version_supported(transaction_version) ==> (r matches Err(
            EnumError::UnsupportedTransactionVersion { version },
        ) && version == transaction_version),
        version_supported(transaction_version) ==> (r matches Err(e) ==> exists|k: int|
            #[trigger] first_bad_spend(spend_components@, k) && spend_error_matches(
                spend_components@[k],
                k,
                e,
            )),
{
    if !(transaction_version == 1 || transaction_version == 2) {
        return Err(EnumError::UnsupportedTransactionVersion { version: transaction_version });
    }
    let mut spends: Vec<SpendPlan> = Vec::new();
    let n = spend_components.len();
    for i in 0..n
        invariant
            version_supported(transaction_version),
            n == spend_components@.len(),
            spends@.len() == i,
            forall|j: int| 0 <= j < i ==> spend_good(#[trigger] spend_components@[j]),
            forall|j: int| 0 <= j < i ==> {
                let sc = #[trigger] spend_components@[j];
                let sp = spends@[j];
                &&& sp.note@ == sc.note@
                &&& sp.witness.root_hash@ == sc.witness_root_hash@
                &&& sp.witness.tree_size == sc.witness_tree_size
                &&& sp.witness.auth_path@.len() == sc.witness_auth_path@.len()
                &&& (forall|m: int| 0 <= m < sc.witness_auth_path@.len() ==> {
                    &&& (#[trigger] sp.witness.auth_path@[m]).right == side_right(
                        sc.witness_auth_path@[m].side@,
                    )
                    &&& sp.witness.auth_path@[m].hash_of_sibling@
                        == sc.witness_auth_path@[m].hash_of_sibling@
                })
            },
    {
        let sc = &spend_components[i];
        match reconstruct_witness(&sc.witness_root_hash, sc.witness_tree_size, &sc.witness_auth_path) {
            Ok(w) => {
                spends.push(SpendPlan { note: slice_to_vec(sc.note.as_slice()), witness: w });
            },
            Err(e) => {
                let itemized = itemize_spend_error(i as u64, e);
                proof {
                    let m = choose|m: int|
                        #[trigger] bad_node_at(spend_components@[i as int].witness_auth_path@, m)
                            && crate::witness::node_error_matches(
                            spend_components@[i as int].witness_auth_path@[m],
                            e,
                        );
                    assert(!spend_good(spend_components@[i as int]));
                    assert(first_bad_spend(spend_components@, i as int));
                    assert(bad_node_at(spend_components@[i as int].witness_auth_path@, m)
                        && spend_error_matches(spend_components@[i as int], i as int, itemized));
                }
                return Err(itemized);
            },
        }
    }
    let mut planned_outputs: Vec<Vec<u8>> = Vec::new();
    let no = outputs.len();
    for i in 0..no
        invariant
            no == outputs@.len(),
            planned_outputs@.len() == i,
            forall|j: int| 0 <= j < i ==> (#[trigger] planned_outputs@[j])@ == outputs@[j]@,
    {
        planned_outputs.push(slice_to_vec(outputs[i].as_slice()));
    }
    Ok(TransactionPlan {
        version: transaction_version,
        fee: transaction_fee,
        expiration_sequence,
        spends,
        outputs: planned_outputs,
        spending_key: slice_to_vec(spending_key.as_slice()),
    })
}

} // verus!
