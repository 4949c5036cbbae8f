//! The request builder: shape selection, payload bytes, round trips.

use tendermintx::builder::{build_request, BridgeConfig, BuildError, ProofRequest};
use tendermintx::bytes32::Bytes32;
use tendermintx::codec::{decode_skip_input, decode_step_input};

fn test_config() -> BridgeConfig {
    BridgeConfig {
        address: vec![0x11u8; 20],
        chain_id: 5,
        step_function_id: Bytes32::from_bytes(vec![0x01u8; 32]).unwrap(),
        skip_function_id: Bytes32::from_bytes(vec![0x02u8; 32]).unwrap(),
    }
}

fn hash_of(byte: u8) -> Bytes32 {
    Bytes32::from_bytes(vec![byte; 32]).unwrap()
}

#[test]
fn step_at_difference_one() {
    let config = test_config();
    let built = build_request(&config, 100, hash_of(0xaa), 101).unwrap();
    assert_eq!(built.request, ProofRequest::Step { trusted_height: 100 });
    assert!(built.function_id.equals(&config.step_function_id));
}

#[test]
fn skip_at_difference_two() {
    let config = test_config();
    let built = build_request(&config, 100, hash_of(0xaa), 102).unwrap();
    assert_eq!(
        built.request,
        ProofRequest::Skip { trusted_height: 100, target_height: 102 }
    );
    assert!(built.function_id.equals(&config.skip_function_id));
}

#[test]
fn equal_heights_rejected() {
    let config = test_config();
    let r = build_request(&config, 100, hash_of(0xaa), 100);
    assert_eq!(r.unwrap_err(), BuildError::HeightsOutOfOrder);
}

#[test]
fn reversed_heights_rejected() {
    let config = test_config();
    let r = build_request(&config, 101, hash_of(0xaa), 100);
    assert_eq!(r.unwrap_err(), BuildError::HeightsOutOfOrder);
}

#[test]
fn step_input_exact_bytes() {
    let config = test_config();
    let built = build_request(&config, 5, hash_of(0xaa), 6).unwrap();
    let mut expected = vec![0u8, 0, 0, 0, 0, 0, 0, 5];
    expected.extend_from_slice(&[0xaau8; 32]);
    assert_eq!(built.input, expected);
}

#[test]
fn skip_input_exact_bytes() {
    let config = test_config();
    let built = build_request(&config, 5, hash_of(0xbb), 260).unwrap();
    let mut expected = vec![0u8, 0, 0, 0, 0, 0, 0, 5];
    expected.extend_from_slice(&[0xbbu8; 32]);
    expected.extend_from_slice(&[0u8, 0, 0, 0, 0, 0, 1, 4]);
    assert_eq!(built.input, expected);
}

#[test]
fn build_is_deterministic() {
    let config = test_config();
    let a = build_request(&config, 77, hash_of(0x3c), 1000).unwrap();
    let b = build_request(&config, 77, hash_of(0x3c), 1000).unwrap();
    assert_eq!(a.input, b.input);
    assert_eq!(a.call_data, b.call_data);
    assert_eq!(a.request, b.request);
}

#[test]
fn step_input_round_trips() {
    let config = test_config();
    let built = build_request(&config, 123456, hash_of(0x5e), 123457).unwrap();
    let (trusted, hash) = decode_step_input(&built.input).unwrap();
    assert_eq!(trusted, 123456);
    assert!(hash.equals(&hash_of(0x5e)));
}

#[test]
fn skip_input_round_trips() {
    let config = test_config();
    let built = build_request(&config, 123456, hash_of(0x5e), 654321).unwrap();
    let (trusted, hash, target) = decode_skip_input(&built.input).unwrap();
    assert_eq!(trusted, 123456);
    assert_eq!(target, 654321);
    assert!(hash.equals(&hash_of(0x5e)));
}

#[test]
fn decode_rejects_wrong_lengths() {
    assert!(decode_step_input(&vec![0u8; 39]).is_none());
    assert!(decode_step_input(&vec![0u8; 41]).is_none());
    assert!(decode_skip_input(&vec![0u8; 40]).is_none());
    assert!(decode_skip_input(&vec![0u8; 49]).is_none());
}

#[test]
fn packed_step_input_matches_alloy() {
    let config = test_config();
    let built = build_request(&config, 987654321, hash_of(0x7f), 987654322).unwrap();
    let hash = alloy_primitives::FixedBytes::<32>::from_slice(&[0x7fu8; 32]);
    let expected = <(
        alloy_sol_types::sol_data::Uint<64>,
        alloy_sol_types::sol_data::FixedBytes<32>,
    ) as alloy_sol_types::SolType>::abi_encode_packed(&(987654321u64, hash));
    assert_eq!(built.input, expected);
}

#[test]
fn packed_skip_input_matches_alloy() {
    let config = test_config();
    let built = build_request(&config, 11, hash_of(0x7f), 22).unwrap();
    let hash = alloy_primitives::FixedBytes::<32>::from_slice(&[0x7fu8; 32]);
    let expected = <(
        alloy_sol_types::sol_data::Uint<64>,
        alloy_sol_types::sol_data::FixedBytes<32>,
        alloy_sol_types::sol_data::Uint<64>,
    ) as alloy_sol_types::SolType>::abi_encode_packed(&(11u64, hash, 22u64));
    assert_eq!(built.input, expected);
}

#[test]
fn step_call_data_carries_selector_and_height() {
    let config = test_config();
    let built = build_request(&config, 300, hash_of(0x01), 301).unwrap();
    assert_eq!(built.call_data.len(), 36);
    let digest = alloy_primitives::keccak256(b"step(uint64)");
    assert_eq!(&built.call_data[0..4], &digest[0..4]);
    let mut word = vec![0u8; 24];
    word.extend_from_slice(&[0u8, 0, 0, 0, 0, 0, 0x01, 0x2c]);
    assert_eq!(&built.call_data[4..36], word.as_slice());
}

#[test]
fn skip_call_data_carries_selector_and_heights() {
    let config = test_config();
    let built = build_request(&config, 300, hash_of(0x01), 500).unwrap();
    assert_eq!(built.call_data.len(), 68);
    let digest = alloy_primitives::keccak256(b"skip(uint64,uint64)");
    assert_eq!(&built.call_data[0..4], &digest[0..4]);
    let mut words = vec![0u8; 24];
    words.extend_from_slice(&[0u8, 0, 0, 0, 0, 0, 0x01, 0x2c]);
    words.extend_from_slice(&[0u8; 24]);
    words.extend_from_slice(&[0u8, 0, 0, 0, 0, 0, 0x01, 0xf4]);
    assert_eq!(&built.call_data[4..68], words.as_slice());
}

#[test]
fn config_from_hex_parts() {
    let config = BridgeConfig::from_hex_parts(
        &b"0x1112131415161718191a1b1c1d1e1f2021222324".to_vec(),
        42,
        &b"01".repeat(32),
        &b"0x02020202020202020202020202020202020202020202020202020202020202ff".to_vec(),
    )
    .unwrap();
    assert_eq!(config.chain_id, 42);
    assert_eq!(config.address[0], 0x11);
    assert_eq!(config.address[19], 0x24);
    assert_eq!(config.step_function_id.as_bytes()[31], 0x01);
    assert_eq!(config.skip_function_id.as_bytes()[31], 0xff);
}

#[test]
fn config_rejects_bad_parts() {
    // Address one byte short.
    assert!(BridgeConfig::from_hex_parts(
        &b"0x11121314".to_vec(),
        1,
        &b"01".repeat(32),
        &b"02".repeat(32),
    )
    .is_none());
    // Function identifier with a stray digit.
    assert!(BridgeConfig::from_hex_parts(
        &b"11".repeat(20),
        1,
        &b"012".repeat(32),
        &b"02".repeat(32),
    )
    .is_none());
}
