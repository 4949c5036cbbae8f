//! The hexadecimal codec and 32-byte values.

use tendermintx::bytes32::Bytes32;
use tendermintx::hex::{hex_decode, hex_encode};

#[test]
fn decodes_lower_case_pairs() {
    assert_eq!(hex_decode(&b"3a".to_vec()), Some(vec![0x3a]));
    assert_eq!(hex_decode(&b"00ff10".to_vec()), Some(vec![0x00, 0xff, 0x10]));
    assert_eq!(hex_decode(&b"".to_vec()), Some(vec![]));
}

#[test]
fn rejects_odd_length() {
    assert_eq!(hex_decode(&b"3".to_vec()), None);
    assert_eq!(hex_decode(&b"abc".to_vec()), None);
}

#[test]
fn rejects_non_digits() {
    assert_eq!(hex_decode(&b"3g".to_vec()), None);
    assert_eq!(hex_decode(&b"0x".to_vec()), None);
    // Upper case is not this codec's alphabet.
    assert_eq!(hex_decode(&b"AB".to_vec()), None);
}

#[test]
fn encodes_lower_case() {
    assert_eq!(hex_encode(&vec![0x00, 0xff, 0x10]), b"00ff10".to_vec());
    assert_eq!(hex_encode(&vec![]), b"".to_vec());
}

#[test]
fn encoding_matches_reference_codec() {
    let data: Vec<u8> = (0u8..=255).collect();
    assert_eq!(hex_encode(&data), subtle_encoding::hex::encode(&data));
}

#[test]
fn encode_then_decode_round_trips() {
    let data: Vec<u8> = (0u8..=255).collect();
    assert_eq!(hex_decode(&hex_encode(&data)), Some(data));
}

#[test]
fn bytes32_from_hex_accepts_optional_prefix() {
    let bare = Bytes32::from_hex(&b"aa".repeat(32)).unwrap();
    let with_prefix =
        Bytes32::from_hex(&[b"0x".to_vec(), b"aa".repeat(32)].concat().to_vec()).unwrap();
    assert!(bare.equals(&with_prefix));
    assert_eq!(bare.as_bytes(), &vec![0xaau8; 32]);
}

#[test]
fn bytes32_from_hex_rejects_wrong_lengths() {
    assert!(Bytes32::from_hex(&b"aa".repeat(31)).is_none());
    assert!(Bytes32::from_hex(&b"aa".repeat(33)).is_none());
    assert!(Bytes32::from_hex(&b"".to_vec()).is_none());
}

#[test]
fn bytes32_equality_is_byte_identity() {
    let a = Bytes32::from_bytes(vec![0x01u8; 32]).unwrap();
    let b = Bytes32::from_bytes(vec![0x01u8; 32]).unwrap();
    let mut other = vec![0x01u8; 32];
    other[31] = 0x02;
    let c = Bytes32::from_bytes(other).unwrap();
    assert!(a.equals(&b));
    assert!(!a.equals(&c));
    assert!(a.duplicate().equals(&a));
}

#[test]
fn bytes32_from_bytes_needs_exactly_32() {
    assert!(Bytes32::from_bytes(vec![0u8; 31]).is_none());
    assert!(Bytes32::from_bytes(vec![0u8; 33]).is_none());
    assert!(Bytes32::from_bytes(vec![0u8; 32]).is_some());
}
