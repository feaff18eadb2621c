//! Reconstruction of a Merkle authentication path from its flat wire
//! representation.  Each wire node carries a sibling hash and a side tag;
//! the tag must be exactly one of the two accepted literals — anything
//! else is a hard error, never a silent default.  Root hash and tree size
//! are copied verbatim from the wire record: downstream posting, not this
//! step, validates their consistency.

use vstd::prelude::*;
use vstd::slice::slice_to_vec;
use crate::errors::EnumError;

verus! {

/// The byte length of a sibling hash on the wire.
pub const SIBLING_HASH_LENGTH: usize = 32;

/// One node of a witness authentication path as it crosses the wire: a
/// side tag (`"Left"` or `"Right"`) and the hash of the sibling subtree.
#[derive(Debug, Clone, PartialEq, Eq)]
pub struct WitnessNode {
    pub side: String,
    pub hash_of_sibling: Vec<u8>,
}

/// One reconstructed node: the side decoded to a flag (`right` is true
/// for `"Right"`), the sibling hash kept as its 32 bytes.
#[derive(Debug, Clone, PartialEq, Eq)]
pub struct SiblingNode {
    pub right: bool,
    pub hash_of_sibling: Vec<u8>,
}

/// A reconstructed Merkle inclusion proof: root hash and tree size as the
/// caller supplied them, and the ordered, decoded authentication path.
#[derive(Debug, Clone, PartialEq, Eq)]
pub struct Witness {
    pub root_hash: Vec<u8>,
    pub tree_size: u64,
    pub auth_path: Vec<SiblingNode>,
}

/// Whether a side tag is one of the two accepted literals.
pub open spec fn side_ok(s: Seq<char>) -> bool {
    s == "Left"@ || s == "Right"@
}

/// Whether a side tag names the right-hand side.
pub open spec fn side_right(s: Seq<char>) -> bool {
    s == "Right"@
}

/// Whether a wire node is well-formed: a 32-byte sibling hash and a
/// recognized side tag.
pub open spec fn node_good(n: WitnessNode) -> bool {
    n.hash_of_sibling@.len() == SIBLING_HASH_LENGTH && side_ok(n.side@)
}

/// The error a malformed wire node produces: a short hash is a decode
/// error; with the hash well-formed, the side tag must be at fault.
pub open spec fn node_error_matches(n: WitnessNode, e: EnumError) -> bool {
    if n.hash_of_sibling@.len() != SIBLING_HASH_LENGTH {
        e matches EnumError::DecodeError { msg } && msg@ == "witness sibling hash must be 32 bytes"@
    } else {
        !side_ok(n.side@) && (e matches EnumError::InvalidWitnessSide { msg } && msg@
            == "Invalid side"@)
    }
}

/// Whether position `k` holds the first malformed node of a wire path.
pub open spec fn bad_node_at(nodes: Seq<WitnessNode>, k: int) -> bool {
    &&& 0 <= k < nodes.len()
    &&& !node_good(nodes[k])
    &&& forall|j: int| 0 <= j < k ==> node_good(#[trigger] nodes[j])
}

/// Rebuilds a Merkle authentication path from its wire form.  Succeeds
/// exactly when every node carries a 32-byte sibling hash and one of the
/// two accepted side tags; the first malformed node aborts the call with
/// its error.  On success the root hash and tree size are copied verbatim
/// and node `i` of the path decodes wire node `i`, in order.
pub fn reconstruct_witness(root_hash: &Vec<u8>, tree_size: u64, nodes: &Vec<WitnessNode>) -> (r:
    Result<Witness, EnumError>)
    ensures
        r is Ok <==> (forall|i: int| 0 <= i < nodes@.len() ==> node_good(#[trigger] nodes@[i])),
        r matches Ok(w) ==> {
            &&& w.root_hash@ == root_hash@
            &&& w.tree_size == tree_size
            &&& w.auth_path@.len() == nodes@.len()
            &&& forall|i: int| 0 <= i < nodes@.len() ==> {
                &&& (#[trigger] w.auth_path@[i]).right == side_right(nodes@[i].side@)
                &&& w.auth_path@[i].hash_of_sibling@ == nodes@[i].hash_of_sibling@
            }
        },
        r matches Err(e) ==> exists|k: int| #[trigger] bad_node_at(nodes@, k)
            && node_error_matches(nodes@[k], e),
{
    let left: String = "Left".to_owned();
    let right: String = "Right".to_owned();
    let mut auth_path: Vec<SiblingNode> = Vec::new();
    let n = nodes.len();
    for i in 0..n
        invariant
            n == nodes@.len(),
            auth_path@.len() == i,
            left@ == "Left"@,
            right@ == "Right"@,
            forall|j: int| 0 <= j < i ==> node_good(#[trigger] nodes@[j]),
            forall|j: int| 0 <= j < i ==> {
                &&& (#[trigger] auth_path@[j]).right == side_right(nodes@[j].side@)
                &&& auth_path@[j].hash_of_sibling@ == nodes@[j].hash_of_sibling@
            },
    {
        proof {
            reveal_strlit("Left");
            reveal_strlit("Right");
        }
        let node = &nodes[i];
        if node.hash_of_sibling.len() != SIBLING_HASH_LENGTH {
            let e = EnumError::DecodeError { msg: "witness sibling hash must be 32 bytes".to_owned() };
            proof {
                assert(bad_node_at(nodes@, i as int) && node_error_matches(nodes@[i as int], e));
            }
            return Err(e);
        }
        proof {
            assert("Left"@ != "Right"@) by {
                assert("Left"@.len() == 4 && "Right"@.len() == 5);
            }
        }
        let is_right: bool;
        if node.side == left {
            is_right = false;
        } else if node.side == right {
            is_right = true;
        } else {
            let e = EnumError::InvalidWitnessSide { msg: "Invalid side".to_owned() };
            proof {
                assert(bad_node_at(nodes@, i as int) && node_error_matches(nodes@[i as int], e));
            }
            return Err(e);
        }
        auth_path.push(SiblingNode { right: is_right, hash_of_sibling: slice_to_vec(node.hash_of_sibling.as_slice()) });
    }
    Ok(Witness { root_hash: slice_to_vec(root_hash.as_slice()), tree_size, auth_path })
}

} // verus!
