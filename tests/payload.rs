use age_rollup::error::VerifyError;
use age_rollup::payload::{decode_payload, parse_identity, strip_hex_prefix_str, IMAGE_ID_SIZE};
use age_rollup::receipt::AGE_VERIFY_ID;

fn identity_bytes(words: &[u32; 8]) -> Vec<u8> {
    let mut v = Vec::new();
    for w in words.iter() {
        v.extend_from_slice(&w.to_le_bytes());
    }
    v
}

#[test]
fn decode_splits_receipt_and_identity() {
    let receipt = vec![0xde, 0xad, 0xbe, 0xef, 0x01];
    let identity: Vec<u8> = (0..32u8).collect();
    let mut all = receipt.clone();
    all.extend_from_slice(&identity);
    let text = format!("0x{}", hex::encode(&all));
    let p = decode_payload(&text).unwrap();
    assert_eq!(p.receipt, receipt);
    assert_eq!(p.identity, identity);
    let p = decode_payload(&hex::encode(&all)).unwrap();
    assert_eq!(p.receipt, receipt);
    assert_eq!(p.identity, identity);
}

#[test]
fn decode_accepts_upper_case() {
    let text = format!("AB{}", "Cd".repeat(32));
    let p = decode_payload(&text).unwrap();
    assert_eq!(p.receipt, vec![0xab]);
    assert_eq!(p.identity, vec![0xcd; 32]);
}

#[test]
fn decode_rejects_malformed_hex() {
    assert_eq!(decode_payload("0xzz").err(), Some(VerifyError::MalformedHex));
    assert_eq!(decode_payload("abc").err(), Some(VerifyError::MalformedHex));
    assert_eq!(decode_payload("0x0x00").err(), Some(VerifyError::MalformedHex));
}

#[test]
fn decode_rejects_short_payload() {
    assert_eq!(decode_payload("").err(), Some(VerifyError::PayloadTooSmall));
    assert_eq!(decode_payload("0x").err(), Some(VerifyError::PayloadTooSmall));
    let exactly_identity = "00".repeat(IMAGE_ID_SIZE);
    assert_eq!(decode_payload(&exactly_identity).err(), Some(VerifyError::PayloadTooSmall));
    let one_more = "00".repeat(IMAGE_ID_SIZE + 1);
    assert!(decode_payload(&one_more).is_ok());
}

#[test]
fn strip_prefix_removes_one() {
    assert_eq!(strip_hex_prefix_str("0xab"), "ab");
    assert_eq!(strip_hex_prefix_str("0x0xab"), "0xab");
    assert_eq!(strip_hex_prefix_str("ab"), "ab");
    assert_eq!(strip_hex_prefix_str("0"), "0");
}

#[test]
fn identity_words_are_little_endian() {
    let bytes = identity_bytes(&AGE_VERIFY_ID);
    assert_eq!(parse_identity(&bytes), AGE_VERIFY_ID.to_vec());
    let mut b = vec![0u8; 32];
    b[0] = 0x01;
    b[1] = 0x02;
    b[2] = 0x03;
    b[3] = 0x04;
    b[31] = 0xff;
    let w = parse_identity(&b);
    assert_eq!(w[0], 0x04030201);
    assert_eq!(w[7], 0xff000000);
}
