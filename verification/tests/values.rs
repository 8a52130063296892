use alloy_primitives::{Address as AlloyAddress, Bytes, B256 as AlloyB256, U256 as AlloyU256};
use taiko_rpc::block::{EMPTY_OMMER_ROOT_HASH, EMPTY_REQUESTS_HASH, EMPTY_ROOT_HASH};
use taiko_rpc::chain::TaikoChainSpec;
use taiko_rpc::error::{mismatch_error, reorged_error, rpc_error, unavailable_error};
use taiko_rpc::fixed::{address_from_word, bytes_eq, copy_bytes, FixedBytes, U256};
use taiko_rpc::text::{decimal_text, hex_string, hexadecimal_text, optional_hash_string};

#[test]
fn numerals_are_those_of_the_standard_formatter() {
    for n in [0, 9, 10, 99, 100, 21_000, u64::MAX] {
        assert_eq!(decimal_text(n), n.to_string());
    }
    for n in 0..=u8::MAX {
        assert_eq!(hexadecimal_text(n), format!("{n:x}"));
    }
    assert_eq!(decimal_text(256), "256");
    assert_eq!(hexadecimal_text(0xaa), "aa");
}

#[test]
fn hashes_are_written_as_alloy_writes_them() {
    let bytes: Vec<u8> = (0..32).map(|i| i * 7).collect();
    assert_eq!(hex_string(&bytes), AlloyB256::from_slice(&bytes).to_string());
    assert_eq!(hex_string(&[]), Bytes::new().to_string());
    assert_eq!(hex_string(&[0x0f, 0xa0]), "0x0fa0");
    let hash = Some(FixedBytes([0xab; 32]));
    assert_eq!(optional_hash_string(&hash), format!("{:?}", Some(AlloyB256::repeat_byte(0xab))));
    assert_eq!(optional_hash_string(&None), "None");
}

#[test]
fn fixed_bytes_compare_by_every_byte() {
    let mut other = FixedBytes([1; 32]);
    assert!(other == FixedBytes([1; 32]));
    other.0[31] = 0;
    assert!(other != FixedBytes([1; 32]));
    assert!(FixedBytes([0; 20]).is_zero());
    assert!(!other.is_zero());
}

#[test]
fn integers_have_four_limbs() {
    assert_eq!(U256::from_u64(7).to_u64(), Some(7));
    assert_eq!(U256(0, 1, 0, 0).to_u64(), None);
    assert_eq!(U256(u64::MAX, 0, 0, 0).to_u64(), Some(u64::MAX));
    assert!(U256::zero().is_zero());
    assert!(!U256(0, 0, 0, 1).is_zero());
    assert_eq!(AlloyU256::from_limbs([0, 1, 0, 0]), AlloyU256::from(1u128 << 64));
}

#[test]
fn addresses_are_the_low_bytes_of_words() {
    let mut word = [0u8; 32];
    for (i, byte) in word.iter_mut().enumerate() {
        *byte = i as u8;
    }
    let expected = AlloyAddress::from_word(AlloyB256::from(word)).into_array();
    assert_eq!(address_from_word(&FixedBytes(word)), FixedBytes(expected));
}

#[test]
fn byte_vectors_are_copied_and_compared() {
    let bytes = vec![1, 2, 3];
    assert_eq!(copy_bytes(&bytes), bytes);
    assert!(bytes_eq(&bytes, &vec![1, 2, 3]));
    assert!(!bytes_eq(&bytes, &vec![1, 2]));
    assert!(!bytes_eq(&bytes, &vec![1, 2, 4]));
}

#[test]
fn empty_hashes_are_those_of_alloy() {
    assert_eq!(AlloyB256::from(EMPTY_ROOT_HASH), alloy_consensus::EMPTY_ROOT_HASH);
    assert_eq!(AlloyB256::from(EMPTY_OMMER_ROOT_HASH), alloy_consensus::EMPTY_OMMER_ROOT_HASH);
    assert_eq!(
        AlloyB256::from(EMPTY_REQUESTS_HASH),
        alloy_eips::eip7685::EMPTY_REQUESTS_HASH
    );
    assert_eq!(
        AlloyB256::from(EMPTY_ROOT_HASH),
        alloy_consensus::constants::EMPTY_WITHDRAWALS
    );
    assert_eq!(AlloyB256::from(EMPTY_ROOT_HASH), alloy_consensus::constants::EMPTY_RECEIPTS);
    assert_eq!(AlloyB256::from(EMPTY_ROOT_HASH), alloy_consensus::constants::EMPTY_TRANSACTIONS);
}

#[test]
fn forks_activate_at_their_time_and_stay_active() {
    let chain = TaikoChainSpec { shanghai_time: Some(5), unzen_time: Some(10) };
    assert!(!chain.is_shanghai_active_at_timestamp(4));
    assert!(chain.is_shanghai_active_at_timestamp(5));
    assert!(!chain.is_unzen_active(9));
    assert!(chain.is_unzen_active(10));
    assert!(chain.is_unzen_active(u64::MAX));
    let never = TaikoChainSpec { shanghai_time: None, unzen_time: None };
    assert!(!never.is_unzen_active(u64::MAX));
    assert!(!never.is_shanghai_active_at_timestamp(u64::MAX));
}

#[test]
fn errors_have_stable_codes_and_reasons() {
    let error = rpc_error(-1, "REASON", String::from("detail"));
    assert_eq!((error.code, error.message.as_str(), error.data.as_str()), (-1, "REASON", "detail"));
    let error = reorged_error(String::from("a"));
    assert_eq!((error.code, error.message.as_str()), (-32010, "BLOCK_REORGED"));
    let error = unavailable_error(String::from("b"));
    assert_eq!((error.code, error.message.as_str()), (-32011, "BLOCK_OR_HISTORY_UNAVAILABLE"));
    let error = mismatch_error(String::from("c"));
    assert_eq!((error.code, error.message.as_str()), (-32012, "EXECUTION_CONSENSUS_MISMATCH"));
    assert_eq!(error.data, "c");
}
