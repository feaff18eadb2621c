use ironfish_wallet::errors::EnumError;
use ironfish_wallet::witness::{reconstruct_witness, WitnessNode};

fn node(side: &str, hash_byte: u8) -> WitnessNode {
    WitnessNode { side: side.to_string(), hash_of_sibling: vec![hash_byte; 32] }
}

#[test]
fn reconstructs_left_and_right_nodes_in_order() {
    let root = vec![9u8; 32];
    let nodes = vec![node("Left", 1), node("Right", 2), node("Left", 3)];
    let w = reconstruct_witness(&root, 77, &nodes).unwrap();
    assert_eq!(w.root_hash, root);
    assert_eq!(w.tree_size, 77);
    assert_eq!(w.auth_path.len(), 3);
    assert!(!w.auth_path[0].right);
    assert!(w.auth_path[1].right);
    assert!(!w.auth_path[2].right);
    assert_eq!(w.auth_path[0].hash_of_sibling, vec![1u8; 32]);
    assert_eq!(w.auth_path[1].hash_of_sibling, vec![2u8; 32]);
    assert_eq!(w.auth_path[2].hash_of_sibling, vec![3u8; 32]);
}

#[test]
fn empty_auth_path_reconstructs() {
    let w = reconstruct_witness(&vec![0u8; 32], 0, &Vec::new()).unwrap();
    assert_eq!(w.auth_path.len(), 0);
    assert_eq!(w.tree_size, 0);
}

#[test]
fn side_up_fails_with_invalid_witness_side() {
    let nodes = vec![node("Left", 1), node("Up", 2)];
    match reconstruct_witness(&vec![0u8; 32], 4, &nodes) {
        Err(EnumError::InvalidWitnessSide { msg }) => assert_eq!(msg, "Invalid side"),
        other => panic!("expected InvalidWitnessSide, got {:?}", other),
    }
}

#[test]
fn lowercase_side_is_not_coerced() {
    let nodes = vec![node("left", 1)];
    assert!(matches!(
        reconstruct_witness(&vec![0u8; 32], 4, &nodes),
        Err(EnumError::InvalidWitnessSide { .. })
    ));
}

#[test]
fn short_sibling_hash_fails_with_decode_error() {
    let nodes = vec![WitnessNode { side: "Left".to_string(), hash_of_sibling: vec![1u8; 31] }];
    match reconstruct_witness(&vec![0u8; 32], 4, &nodes) {
        Err(EnumError::DecodeError { msg }) => {
            assert_eq!(msg, "witness sibling hash must be 32 bytes")
        }
        other => panic!("expected DecodeError, got {:?}", other),
    }
}

#[test]
fn bad_hash_is_reported_before_bad_side() {
    let nodes = vec![WitnessNode { side: "Up".to_string(), hash_of_sibling: vec![1u8; 3] }];
    assert!(matches!(
        reconstruct_witness(&vec![0u8; 32], 4, &nodes),
        Err(EnumError::DecodeError { .. })
    ));
}
