use ironfish_wallet::batch::{collect_decrypted, decode_ciphertexts, DecryptedNote};

#[test]
fn decodes_well_formed_ciphertexts_and_omits_malformed_ones() {
    let inputs = vec![
        "00ff".to_string(),
        "0x0aFF".to_string(),
        "not-hex".to_string(),
        "123".to_string(),
        "".to_string(),
    ];
    let out = decode_ciphertexts(&inputs);
    assert_eq!(out.len(), 5);
    assert_eq!(out[0], Some(vec![0x00, 0xff]));
    assert_eq!(out[1], Some(vec![0x0a, 0xff]));
    assert_eq!(out[2], None);
    assert_eq!(out[3], None, "odd-length hex must not decode");
    assert_eq!(out[4], Some(Vec::new()));
}

#[test]
fn collect_keeps_original_positions_and_hex_renders_plaintexts() {
    let results: Vec<Option<Vec<u8>>> = vec![
        Some(vec![0x00, 0xff]),
        None,
        Some(vec![0xab]),
        None,
        Some(Vec::new()),
    ];
    let out: Vec<DecryptedNote> = collect_decrypted(&results);
    assert_eq!(out.len(), 3);
    assert_eq!(out[0].index, 0);
    assert_eq!(out[0].note, "00ff");
    assert_eq!(out[1].index, 2);
    assert_eq!(out[1].note, "ab");
    assert_eq!(out[2].index, 4);
    assert_eq!(out[2].note, "");
}

#[test]
fn collect_of_all_failures_is_empty_not_an_error() {
    let results: Vec<Option<Vec<u8>>> = vec![None, None, None];
    assert!(collect_decrypted(&results).is_empty());
}

#[test]
fn empty_batch_collects_to_empty() {
    let results: Vec<Option<Vec<u8>>> = Vec::new();
    assert!(collect_decrypted(&results).is_empty());
    assert!(decode_ciphertexts(&Vec::new()).is_empty());
}

#[test]
fn hex_rendering_is_lowercase_two_digits_per_byte() {
    let results: Vec<Option<Vec<u8>>> = vec![Some(vec![0xDE, 0xAD, 0xBE, 0xEF, 0x01])];
    let out = collect_decrypted(&results);
    assert_eq!(out[0].note, "deadbeef01");
}
