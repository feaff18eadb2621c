use ironfish_wallet::assembly::{plan_transaction, SpendComponents};
use ironfish_wallet::errors::EnumError;
use ironfish_wallet::witness::WitnessNode;

fn spend(side: &str, tag: u8) -> SpendComponents {
    SpendComponents {
        note: vec![tag; 8],
        witness_root_hash: vec![tag; 32],
        witness_tree_size: tag as u64 * 10,
        witness_auth_path: vec![
            WitnessNode { side: side.to_string(), hash_of_sibling: vec![tag; 32] },
            WitnessNode { side: "Right".to_string(), hash_of_sibling: vec![tag + 1; 32] },
        ],
    }
}

#[test]
fn unsupported_version_is_rejected_before_anything_else() {
    for version in [0u8, 3, 255] {
        match plan_transaction(version, 1, 2, &vec![spend("Up", 1)], &Vec::new(), &vec![0u8; 32]) {
            Err(EnumError::UnsupportedTransactionVersion { version: v }) => {
                assert_eq!(v, version)
            }
            other => panic!("expected UnsupportedTransactionVersion, got {:?}", other),
        }
    }
}

#[test]
fn valid_components_assemble_in_order() {
    let spends = vec![spend("Left", 1), spend("Right", 5)];
    let outputs = vec![vec![9u8; 4], vec![8u8; 4]];
    let key = vec![7u8; 32];
    let plan = plan_transaction(2, 100, 55, &spends, &outputs, &key).unwrap();
    assert_eq!(plan.version, 2);
    assert_eq!(plan.fee, 100);
    assert_eq!(plan.expiration_sequence, 55);
    assert_eq!(plan.spending_key, key);
    assert_eq!(plan.outputs, outputs);
    assert_eq!(plan.spends.len(), 2);
    assert_eq!(plan.spends[0].note, vec![1u8; 8]);
    assert_eq!(plan.spends[1].note, vec![5u8; 8]);
    assert_eq!(plan.spends[0].witness.root_hash, vec![1u8; 32]);
    assert_eq!(plan.spends[0].witness.tree_size, 10);
    assert!(!plan.spends[0].witness.auth_path[0].right);
    assert!(plan.spends[0].witness.auth_path[1].right);
    assert!(plan.spends[1].witness.auth_path[0].right);
    assert_eq!(plan.spends[1].witness.auth_path[1].hash_of_sibling, vec![6u8; 32]);
}

#[test]
fn bad_spend_aborts_with_its_index_in_the_message() {
    let spends = vec![spend("Left", 1), spend("Up", 2)];
    match plan_transaction(1, 0, 0, &spends, &Vec::new(), &vec![0u8; 32]) {
        Err(EnumError::InvalidWitnessSide { msg }) => {
            assert_eq!(msg, "spend 1: Invalid side")
        }
        other => panic!("expected InvalidWitnessSide, got {:?}", other),
    }
}

#[test]
fn short_witness_hash_aborts_with_itemized_decode_error() {
    let mut bad = spend("Left", 3);
    bad.witness_auth_path[1].hash_of_sibling = vec![0u8; 2];
    let spends = vec![spend("Left", 1), spend("Right", 2), bad];
    match plan_transaction(1, 0, 0, &spends, &Vec::new(), &vec![0u8; 32]) {
        Err(EnumError::DecodeError { msg }) => {
            assert_eq!(msg, "spend 2: witness sibling hash must be 32 bytes")
        }
        other => panic!("expected DecodeError, got {:?}", other),
    }
}

#[test]
fn empty_transaction_assembles() {
    let plan = plan_transaction(1, 0, 0, &Vec::new(), &Vec::new(), &Vec::new()).unwrap();
    assert!(plan.spends.is_empty());
    assert!(plan.outputs.is_empty());
}
