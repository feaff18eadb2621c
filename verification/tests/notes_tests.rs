use ironfish_wallet::errors::EnumError;
use ironfish_wallet::notes::{normalize_memo, plan_note, NoteParams, MEMO_SIZE};

fn params() -> NoteParams {
    NoteParams {
        owner: vec![1u8; 32],
        value: 42,
        memo: b"hi".to_vec(),
        asset_id: vec![2u8; 32],
        sender: vec![3u8; 32],
    }
}

#[test]
fn short_memo_is_zero_padded() {
    let memo = normalize_memo(&b"hello".to_vec());
    assert_eq!(memo.len(), MEMO_SIZE);
    assert_eq!(&memo[..5], b"hello");
    assert!(memo[5..].iter().all(|b| *b == 0));
}

#[test]
fn long_memo_is_truncated() {
    let long: Vec<u8> = (0u8..40).collect();
    let memo = normalize_memo(&long);
    assert_eq!(memo.len(), MEMO_SIZE);
    assert_eq!(memo, (0u8..32).collect::<Vec<u8>>());
}

#[test]
fn exact_size_memo_is_kept() {
    let exact = vec![7u8; 32];
    assert_eq!(normalize_memo(&exact), exact);
}

#[test]
fn plan_note_normalizes_every_field() {
    let mut p = params();
    p.owner = (0u8..40).collect();
    p.sender = (10u8..50).collect();
    p.asset_id = (20u8..60).collect();
    let plan = plan_note(&p).unwrap();
    assert_eq!(plan.owner, (0u8..32).collect::<Vec<u8>>());
    assert_eq!(plan.sender, (10u8..42).collect::<Vec<u8>>());
    assert_eq!(plan.asset_id, (20u8..52).collect::<Vec<u8>>());
    assert_eq!(plan.value, 42);
    assert_eq!(&plan.memo[..2], b"hi");
    assert_eq!(plan.memo.len(), MEMO_SIZE);
}

#[test]
fn short_asset_id_is_a_decode_error() {
    let mut p = params();
    p.asset_id = vec![2u8; 31];
    match plan_note(&p) {
        Err(EnumError::DecodeError { msg }) => assert_eq!(msg, "asset identifier too short"),
        other => panic!("expected DecodeError, got {:?}", other),
    }
}

#[test]
fn short_owner_is_reported_before_short_asset_id() {
    let mut p = params();
    p.owner = vec![1u8; 5];
    p.asset_id = Vec::new();
    match plan_note(&p) {
        Err(EnumError::DecodeError { msg }) => assert_eq!(msg, "owner address too short"),
        other => panic!("expected DecodeError, got {:?}", other),
    }
}

#[test]
fn short_sender_is_a_decode_error() {
    let mut p = params();
    p.sender = Vec::new();
    match plan_note(&p) {
        Err(EnumError::DecodeError { msg }) => assert_eq!(msg, "sender address too short"),
        other => panic!("expected DecodeError, got {:?}", other),
    }
}
