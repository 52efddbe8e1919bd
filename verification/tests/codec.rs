use near_jsonrpc::tx::{CryptoHash, SignedTransaction, decode_tx, encode_tx};

use base64::Engine;
use sha2::Digest;

fn sample_tx() -> SignedTransaction {
    SignedTransaction { signer_id: String::from("alice.near"), nonce: 42, body: vec![9, 8, 7, 6] }
}

#[test]
fn encode_decode_round_trip() {
    let tx = sample_tx();
    let bytes = encode_tx(&tx);
    let back = decode_tx(&bytes).expect("well-formed encoding must decode");
    assert_eq!(back.signer_id, "alice.near");
    assert_eq!(back.nonce, 42);
    assert_eq!(back.body, vec![9, 8, 7, 6]);
}

#[test]
fn encoding_layout_is_nonce_then_signer_then_body() {
    let tx = sample_tx();
    let bytes = encode_tx(&tx);
    assert_eq!(&bytes[0..8], &42u64.to_le_bytes());
    assert_eq!(&bytes[8..12], &(10u32).to_le_bytes());
    assert_eq!(&bytes[12..22], b"alice.near");
    assert_eq!(&bytes[22..], &[9, 8, 7, 6]);
}

#[test]
fn decode_rejects_short_input() {
    assert!(decode_tx(&[1, 2, 3]).is_none());
}

#[test]
fn decode_rejects_truncated_signer() {
    let mut bytes = Vec::new();
    bytes.extend_from_slice(&1u64.to_le_bytes());
    bytes.extend_from_slice(&100u32.to_le_bytes());
    bytes.extend_from_slice(b"alice");
    assert!(decode_tx(&bytes).is_none());
}

#[test]
fn decode_rejects_invalid_signer() {
    let mut bytes = Vec::new();
    bytes.extend_from_slice(&1u64.to_le_bytes());
    bytes.extend_from_slice(&5u32.to_le_bytes());
    bytes.extend_from_slice(b"AL!CE");
    assert!(decode_tx(&bytes).is_none());
}

#[test]
fn decode_rejects_non_utf8_signer() {
    let mut bytes = Vec::new();
    bytes.extend_from_slice(&1u64.to_le_bytes());
    bytes.extend_from_slice(&2u32.to_le_bytes());
    bytes.extend_from_slice(&[0xff, 0xfe]);
    assert!(decode_tx(&bytes).is_none());
}

#[test]
fn hash_is_sha256_of_encoding_in_base58() {
    let tx = sample_tx();
    let bytes = encode_tx(&tx);
    let expected_digest = sha2::Sha256::digest(&bytes);
    let hash = tx.get_hash();
    assert_eq!(hash.bytes, expected_digest.to_vec());
    let expected_b58 = bs58::encode(expected_digest).into_string();
    assert_eq!(hash.to_base(), expected_b58);
}

#[test]
fn hash_is_stable_and_content_addressed() {
    let tx = sample_tx();
    assert_eq!(tx.get_hash().bytes, tx.get_hash().bytes);
    let mut other = sample_tx();
    other.nonce = 43;
    assert_ne!(tx.get_hash().bytes, other.get_hash().bytes);
}

#[test]
fn crypto_hash_from_base_round_trips() {
    let raw: Vec<u8> = (0u8..32).collect();
    let text = bs58::encode(&raw).into_string();
    let hash = CryptoHash::from_base(&text).expect("32 bytes must be accepted");
    assert_eq!(hash.bytes, raw);
}

#[test]
fn crypto_hash_from_base_rejects_wrong_length_and_alphabet() {
    let short = bs58::encode(&[1u8, 2, 3]).into_string();
    assert!(CryptoHash::from_base(&short).is_none());
    assert!(CryptoHash::from_base("not-base58-0OIl").is_none());
}

#[test]
fn base64_payload_feeds_the_parser() {
    let tx = sample_tx();
    let bytes = encode_tx(&tx);
    let b64 = base64::engine::general_purpose::STANDARD.encode(&bytes);
    let params = format!("[\"{}\"]", b64);
    let parsed = near_jsonrpc::params::parse_tx(Some(&params)).expect("valid payload");
    assert_eq!(parsed.signer_id, tx.signer_id);
    assert_eq!(parsed.nonce, tx.nonce);
    assert_eq!(parsed.body, tx.body);
}
