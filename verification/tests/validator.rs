use alloy_consensus::constants::EMPTY_WITHDRAWALS;
use alloy_consensus::proofs::{calculate_transaction_root, calculate_withdrawals_root};
use alloy_consensus::{EthereumTxEnvelope, Signed, TxEip4844, TxLegacy};
use alloy_eips::eip2718::Encodable2718;
use alloy_eips::eip7685::EMPTY_REQUESTS_HASH as ALLOY_EMPTY_REQUESTS_HASH;
use alloy_primitives::{
    Address as AlloyAddress, Bloom as AlloyBloom, Signature, B256 as AlloyB256, U256 as AlloyU256,
};
use alloy_rpc_types_engine::ExecutionPayloadV1;
use std::sync::Arc;
use taiko_rpc::block::{
    Header, TxType, Withdrawal, EMPTY_OMMER_ROOT_HASH, EMPTY_REQUESTS_HASH, EMPTY_ROOT_HASH,
};
use taiko_rpc::chain::TaikoChainSpec;
use taiko_rpc::engine::types::{
    EngineApiMessageVersion, EngineObjectValidationError, InvalidPayloadAttributesError,
    MessageValidationKind, PayloadOrAttributes, TaikoExecutionData, TaikoExecutionDataSidecar,
    TaikoExecutionPayloadV1, TaikoPayloadAttributes, VersionSpecificValidationError,
};
use taiko_rpc::engine::validator::{
    apply_body_roots, apply_fork_fields, check_block_hash, payload_header, NewPayloadError,
    TaikoEngineValidator, TaikoEngineValidatorBuilder, TaikoPayloadValidationError,
};
use taiko_rpc::fixed::{FixedBytes, B256, U256};
use taiko_rpc::trace::consensus::validate_stored_consensus;

fn last_byte<const N: usize>(byte: u8) -> FixedBytes<N> {
    let mut bytes = [0u8; N];
    bytes[N - 1] = byte;
    FixedBytes(bytes)
}

fn hash(hash: AlloyB256) -> B256 {
    FixedBytes(hash.0)
}

fn unzen_chain_spec() -> TaikoChainSpec {
    TaikoChainSpec { shanghai_time: Some(0), unzen_time: Some(0) }
}

fn validator() -> TaikoEngineValidator {
    TaikoEngineValidator::new(Arc::new(unzen_chain_spec()))
}

fn sample_state_neutral_withdrawals() -> Vec<Withdrawal> {
    vec![
        Withdrawal { index: 1, validator_index: 2, address: last_byte(0x61), amount: 0 },
        Withdrawal { index: 3, validator_index: 4, address: last_byte(0x62), amount: 0 },
    ]
}

fn alloy_withdrawals(withdrawals: &[Withdrawal]) -> Vec<alloy_eips::eip4895::Withdrawal> {
    withdrawals
        .iter()
        .map(|withdrawal| alloy_eips::eip4895::Withdrawal {
            index: withdrawal.index,
            validator_index: withdrawal.validator_index,
            address: AlloyAddress::from(withdrawal.address.0),
            amount: withdrawal.amount,
        })
        .collect()
}

fn sample_unzen_execution_data(
    difficulty: u64,
    header_difficulty: Option<U256>,
    parent_beacon_block_root: Option<AlloyB256>,
) -> TaikoExecutionData {
    sample_unzen_execution_data_with_withdrawals(
        difficulty,
        header_difficulty,
        parent_beacon_block_root,
        Some(vec![]),
        Some(hash(EMPTY_WITHDRAWALS)),
        true,
    )
}

fn sample_unzen_execution_data_with_withdrawals(
    difficulty: u64,
    header_difficulty: Option<U256>,
    parent_beacon_block_root: Option<AlloyB256>,
    withdrawals: Option<Vec<Withdrawal>>,
    withdrawals_hash: Option<B256>,
    transactions_present: bool,
) -> TaikoExecutionData {
    let withdrawals_root = withdrawals
        .as_ref()
        .map(|withdrawals| calculate_withdrawals_root(&alloy_withdrawals(withdrawals)))
        .or(withdrawals_hash.map(|hash| AlloyB256::from(hash.0)));
    let transactions_root =
        calculate_transaction_root(&Vec::<EthereumTxEnvelope<TxEip4844>>::new());
    let header = alloy_consensus::Header {
        parent_hash: AlloyB256::with_last_byte(0x11),
        beneficiary: AlloyAddress::with_last_byte(0x22),
        state_root: AlloyB256::with_last_byte(0x33),
        transactions_root,
        receipts_root: AlloyB256::with_last_byte(0x44),
        withdrawals_root,
        logs_bloom: Default::default(),
        number: 1,
        gas_limit: 30_000_000,
        gas_used: 0,
        timestamp: 1,
        mix_hash: AlloyB256::with_last_byte(0x55),
        nonce: Default::default(),
        base_fee_per_gas: Some(1),
        extra_data: Default::default(),
        difficulty: AlloyU256::from(difficulty),
        parent_beacon_block_root,
        blob_gas_used: Some(0),
        excess_blob_gas: Some(0),
        requests_hash: Some(ALLOY_EMPTY_REQUESTS_HASH),
        ..Default::default()
    };
    TaikoExecutionData {
        execution_payload: TaikoExecutionPayloadV1 {
            parent_hash: last_byte(0x11),
            fee_recipient: last_byte(0x22),
            state_root: last_byte(0x33),
            receipts_root: last_byte(0x44),
            logs_bloom: FixedBytes([0; 256]),
            prev_randao: last_byte(0x55),
            block_number: 1,
            gas_limit: 30_000_000,
            gas_used: 0,
            timestamp: 1,
            extra_data: vec![],
            base_fee_per_gas: U256::from_u64(1),
            block_hash: hash(header.hash_slow()),
            transactions: if transactions_present { Some(vec![]) } else { None },
        },
        withdrawals,
        taiko_sidecar: TaikoExecutionDataSidecar {
            tx_hash: hash(transactions_root),
            withdrawals_hash,
            header_difficulty,
            taiko_block: Some(true),
        },
    }
}

fn sample_payload_attributes(withdrawals: Option<Vec<Withdrawal>>) -> TaikoPayloadAttributes {
    TaikoPayloadAttributes { timestamp: 1, withdrawals }
}

#[test]
fn formats_blob_transactions_unsupported_error() {
    assert_eq!(
        TaikoPayloadValidationError::BlobTransactionsUnsupported.message(),
        "blob transactions are unsupported"
    );
}

#[test]
fn rejects_unzen_payload_without_header_difficulty() {
    let payload = sample_unzen_execution_data(7, None, None);
    let err = validator()
        .convert_payload_to_block(payload)
        .expect_err("Unzen payloads must supply header difficulty explicitly");
    assert_eq!(err.message(), "missing header difficulty for Unzen payload");
}

#[test]
fn accepts_unzen_payload_when_sidecar_supplies_header_difficulty() {
    let payload =
        sample_unzen_execution_data(7, Some(U256::from_u64(7)), Some(AlloyB256::ZERO));
    let block_hash = payload.execution_payload.block_hash;
    let sealed = validator()
        .convert_payload_to_block(payload)
        .expect("explicit header difficulty should restore the original hash");
    assert_eq!(sealed.hash, block_hash);
    assert_eq!(sealed.block.header.difficulty, U256::from_u64(7));
}

#[test]
fn accepts_unzen_payload_when_validator_infers_parent_beacon_block_root() {
    let payload =
        sample_unzen_execution_data(7, Some(U256::from_u64(7)), Some(AlloyB256::ZERO));
    let block_hash = payload.execution_payload.block_hash;
    let sealed = validator()
        .convert_payload_to_block(payload)
        .expect("validator should infer parent beacon block root from Unzen activation");
    assert_eq!(sealed.hash, block_hash);
    assert_eq!(sealed.block.header.parent_beacon_block_root, Some(FixedBytes([0; 32])));
    assert_eq!(sealed.block.header.blob_gas_used, Some(0));
    assert_eq!(sealed.block.header.excess_blob_gas, Some(0));
    assert_eq!(sealed.block.header.requests_hash, Some(FixedBytes(EMPTY_REQUESTS_HASH)));
}

#[test]
fn complete_payload_uses_full_withdrawals_and_ignores_sidecar_hash() {
    let withdrawals = sample_state_neutral_withdrawals();
    let payload = sample_unzen_execution_data_with_withdrawals(
        7,
        Some(U256::from_u64(7)),
        Some(AlloyB256::ZERO),
        Some(withdrawals.clone()),
        Some(FixedBytes([0xaa; 32])),
        true,
    );
    let block_hash = payload.execution_payload.block_hash;
    let sealed = validator()
        .convert_payload_to_block(payload)
        .expect("full withdrawals must take precedence over the sidecar hash");
    assert_eq!(sealed.hash, block_hash);
    assert_eq!(
        sealed.block.header.withdrawals_root,
        Some(hash(calculate_withdrawals_root(&alloy_withdrawals(&withdrawals))))
    );
    let kept = sealed.block.withdrawals.expect("withdrawals are kept");
    assert_eq!(alloy_withdrawals(&kept), alloy_withdrawals(&withdrawals));
}

#[test]
fn complete_payload_rejects_missing_withdrawals() {
    let payload = sample_unzen_execution_data_with_withdrawals(
        7,
        Some(U256::from_u64(7)),
        Some(AlloyB256::ZERO),
        None,
        Some(hash(EMPTY_WITHDRAWALS)),
        true,
    );
    let err = validator()
        .convert_payload_to_block(payload)
        .expect_err("complete transaction payloads must include withdrawals");
    assert_eq!(err.message(), "missing withdrawals for complete Taiko payload");
}

#[test]
fn legacy_hash_only_payload_preserves_committed_roots_without_fake_body() {
    let payload = sample_unzen_execution_data_with_withdrawals(
        7,
        Some(U256::from_u64(7)),
        Some(AlloyB256::ZERO),
        None,
        Some(hash(EMPTY_WITHDRAWALS)),
        false,
    );
    let block_hash = payload.execution_payload.block_hash;
    assert!(payload.execution_payload.transactions.is_none());
    let sealed = validator()
        .convert_payload_to_block(payload)
        .expect("legacy payload should restore roots from the Taiko sidecar");
    assert_eq!(sealed.hash, block_hash);
    assert_eq!(sealed.block.header.withdrawals_root, Some(hash(EMPTY_WITHDRAWALS)));
    assert!(sealed.block.withdrawals.is_none());
}

#[test]
fn legacy_hash_only_payload_rejects_missing_withdrawals_hash() {
    let payload = sample_unzen_execution_data_with_withdrawals(
        7,
        Some(U256::from_u64(7)),
        Some(AlloyB256::ZERO),
        None,
        None,
        false,
    );
    let err = validator()
        .convert_payload_to_block(payload)
        .expect_err("legacy payload must include a nonzero withdrawals hash");
    assert_eq!(err.message(), "missing withdrawals hash for legacy Taiko payload");
}

#[test]
fn state_neutral_withdrawals_metadata_mutations_change_block_hash() {
    let original = sample_state_neutral_withdrawals();
    let payload = || {
        sample_unzen_execution_data_with_withdrawals(
            7,
            Some(U256::from_u64(7)),
            Some(AlloyB256::ZERO),
            Some(original.clone()),
            Some(hash(EMPTY_WITHDRAWALS)),
            true,
        )
    };
    let mut mutations = Vec::new();

    let mut changed_index = original.clone();
    changed_index[0].index += 1;
    mutations.push(changed_index);

    let mut changed_validator = original.clone();
    changed_validator[0].validator_index += 1;
    mutations.push(changed_validator);

    let mut changed_order = original.clone();
    changed_order.swap(0, 1);
    mutations.push(changed_order);

    for mutated in mutations {
        let mut candidate = payload();
        candidate.withdrawals = Some(mutated);
        let err = validator()
            .convert_payload_to_block(candidate)
            .expect_err("withdrawals metadata mutations must invalidate the committed block hash");
        assert!(err.message().contains("block hash"), "unexpected error: {}", err.message());
    }
}

#[test]
fn engine_v2_allows_only_the_legacy_hash_only_withdrawals_exception() {
    let validator = validator();
    let legacy = sample_unzen_execution_data_with_withdrawals(
        7,
        Some(U256::from_u64(7)),
        Some(AlloyB256::ZERO),
        None,
        Some(hash(EMPTY_WITHDRAWALS)),
        false,
    );
    validator
        .validate_version_specific_fields(
            EngineApiMessageVersion::V2,
            PayloadOrAttributes::ExecutionPayload(&legacy),
        )
        .expect("V2 must preserve Taiko-Geth's legacy hash-only exception");

    let complete_missing_withdrawals = sample_unzen_execution_data_with_withdrawals(
        7,
        Some(U256::from_u64(7)),
        Some(AlloyB256::ZERO),
        None,
        Some(hash(EMPTY_WITHDRAWALS)),
        true,
    );
    let err = validator
        .validate_version_specific_fields(
            EngineApiMessageVersion::V2,
            PayloadOrAttributes::ExecutionPayload(&complete_missing_withdrawals),
        )
        .expect_err("complete V2 payloads must not use the hash-only exception");
    assert!(err.message().contains("no withdrawals post-Shanghai"));
}

#[test]
fn forkchoice_v2_rejects_missing_withdrawals_and_accepts_empty_list() {
    let validator = validator();
    let missing = sample_payload_attributes(None);
    let err = validator
        .ensure_well_formed_attributes(EngineApiMessageVersion::V2, &missing)
        .expect_err("post-Shanghai payload attributes must include withdrawals");
    assert!(err.message().contains("no withdrawals post-Shanghai"));

    let empty = sample_payload_attributes(Some(Vec::new()));
    validator
        .ensure_well_formed_attributes(EngineApiMessageVersion::V2, &empty)
        .expect("an explicit empty withdrawals list is valid");
}

/// The signed transaction of the EIP-155 example.
const EIP155_TRANSACTION: &str = "f86c098504a817c800825208943535353535353535353535353535353535353535880de0b6b3a76400008025a028ef61340bd939bc2195fe537567866003e1a15d3c71ff63e1590620aa636276a067cbe9d8997f761aecb703304b3800ccf555c9f3dc64214b297fb1966a3b6d83";

fn from_hex(text: &str) -> Vec<u8> {
    (0..text.len() / 2)
        .map(|i| u8::from_str_radix(&text[2 * i..2 * i + 2], 16).expect("hex digits"))
        .collect()
}

/// A pre-Unzen payload with the given transactions, under its own block hash.
fn payload_with_transactions(transactions: Vec<Vec<u8>>) -> (TaikoEngineValidator, TaikoExecutionData) {
    let root = alloy_consensus::proofs::ordered_trie_root_encoded(&transactions);
    let header = alloy_consensus::Header {
        transactions_root: root,
        withdrawals_root: Some(EMPTY_WITHDRAWALS),
        base_fee_per_gas: Some(0xffff_ffff_ffff_ffff),
        extra_data: vec![9u8; 32].into(),
        number: 4,
        timestamp: 99,
        ..Default::default()
    };
    let data = TaikoExecutionData {
        execution_payload: TaikoExecutionPayloadV1 {
            parent_hash: FixedBytes([0; 32]),
            fee_recipient: FixedBytes([0; 20]),
            state_root: hash(header.state_root),
            receipts_root: hash(header.receipts_root),
            logs_bloom: FixedBytes([0; 256]),
            prev_randao: FixedBytes([0; 32]),
            block_number: 4,
            gas_limit: 0,
            gas_used: 0,
            timestamp: 99,
            extra_data: vec![9u8; 32],
            base_fee_per_gas: U256::from_u64(0xffff_ffff_ffff_ffff),
            block_hash: hash(header.hash_slow()),
            transactions: Some(transactions),
        },
        withdrawals: Some(vec![]),
        taiko_sidecar: TaikoExecutionDataSidecar {
            tx_hash: FixedBytes([1; 32]),
            withdrawals_hash: None,
            header_difficulty: None,
            taiko_block: None,
        },
    };
    let chain = TaikoChainSpec { shanghai_time: Some(0), unzen_time: Some(100) };
    (TaikoEngineValidatorBuilder.build(Arc::new(chain)), data)
}

#[test]
fn well_formed_payload_recovers_its_signers() {
    let (validator, data) = payload_with_transactions(vec![from_hex(EIP155_TRANSACTION)]);
    let block = validator.ensure_well_formed_payload(data).expect("valid payload");
    assert_eq!(block.senders.len(), 1);
    assert_eq!(
        block.senders[0].0.to_vec(),
        from_hex("9d8a62f656a8d1615c1294fd71e9cfb3e4855a4f")
    );
    let transaction = &block.block.transactions[0];
    assert_eq!(transaction.encoded, from_hex(EIP155_TRANSACTION));
    assert_eq!(transaction.tx_type, TxType::Legacy);
    assert_eq!(transaction.nonce, 9);
    assert_eq!(transaction.gas_limit, 21_000);
    assert_eq!(transaction.max_fee_per_gas, 20_000_000_000);
    assert_eq!(transaction.max_priority_fee_per_gas, None);
    assert_eq!(transaction.to, Some(FixedBytes([0x35; 20])));
    assert_eq!(transaction.value, U256::from_u64(1_000_000_000_000_000_000));
    assert!(transaction.input.is_empty());
    assert_eq!(
        transaction.hash.0.to_vec(),
        from_hex("33469b22e9f636356c4160a87eb19df52b7412e8eac32a4a55ffe88ea8350788")
    );
    assert!(block.block.header.requests_hash.is_none());
    assert_eq!(block.block.header.base_fee_per_gas, Some(u64::MAX));
}

#[test]
fn blob_transactions_are_rejected() {
    let blob = EthereumTxEnvelope::<TxEip4844>::Eip4844(Signed::new_unchecked(
        TxEip4844::default(),
        Signature::test_signature(),
        AlloyB256::ZERO,
    ));
    let (validator, data) =
        payload_with_transactions(vec![from_hex(EIP155_TRANSACTION), blob.encoded_2718()]);
    let err = validator.ensure_well_formed_payload(data).expect_err("blobs are unsupported");
    assert_eq!(err.message(), "blob transactions are unsupported");
}

#[test]
fn unrecoverable_signatures_are_rejected() {
    let unsigned = EthereumTxEnvelope::<TxEip4844>::Legacy(Signed::new_unchecked(
        TxLegacy::default(),
        Signature::new(AlloyU256::ZERO, AlloyU256::ZERO, false),
        AlloyB256::ZERO,
    ));
    let (validator, data) = payload_with_transactions(vec![unsigned.encoded_2718()]);
    let err = validator.ensure_well_formed_payload(data).expect_err("no signer");
    assert_eq!(err.message(), "Failed to recover the block");
}

#[test]
fn undecodable_transactions_are_rejected() {
    let mut trailing = from_hex(EIP155_TRANSACTION);
    trailing.push(0);
    let (validator, data) = payload_with_transactions(vec![trailing]);
    let err = validator.convert_payload_to_block(data).expect_err("trailing byte");
    assert!(matches!(err, NewPayloadError::Decode(_)));
    assert_eq!(err.message(), alloy_rlp::Error::UnexpectedLength.to_string());

    let (validator, data) = payload_with_transactions(vec![vec![0x7f]]);
    let err = validator.convert_payload_to_block(data).expect_err("unknown type");
    assert_eq!(err.message(), "unexpected tx type");
}

#[test]
fn extra_data_and_base_fee_are_bounded() {
    let (validator, mut data) = payload_with_transactions(vec![]);
    data.execution_payload.extra_data = vec![0xab; 33];
    let err = validator.convert_payload_to_block(data).expect_err("too long");
    assert_eq!(
        err.message(),
        format!("invalid payload extra data: 0x{}", "ab".repeat(33))
    );

    let (validator, mut data) = payload_with_transactions(vec![]);
    data.execution_payload.base_fee_per_gas = U256(0, 1, 0, 0);
    let err = validator.convert_payload_to_block(data).expect_err("too large");
    assert_eq!(err.message(), "invalid payload base fee: 18446744073709551616");
}

#[test]
fn block_hash_mismatch_names_both_hashes() {
    assert!(check_block_hash(FixedBytes([1; 32]), FixedBytes([1; 32])).is_ok());
    let err = check_block_hash(FixedBytes([1; 32]), FixedBytes([2; 32])).unwrap_err();
    assert_eq!(
        err.message(),
        format!(
            "block hash mismatch: want {}, got {}",
            AlloyB256::repeat_byte(2),
            AlloyB256::repeat_byte(1)
        )
    );
}

#[test]
fn payload_header_copies_the_payload() {
    let (_, data) = payload_with_transactions(vec![]);
    let header = payload_header(data.execution_payload, FixedBytes([3; 32])).expect("valid");
    assert_eq!(header.transactions_root, FixedBytes([3; 32]));
    assert_eq!(header.ommers_hash, FixedBytes(EMPTY_OMMER_ROOT_HASH));
    assert_eq!(header.number, 4);
    assert!(header.difficulty.is_zero());
    assert!(header.withdrawals_root.is_none());

    let header = apply_fork_fields(header, true, Some(U256::from_u64(5)));
    assert_eq!(header.difficulty, U256::from_u64(5));
    assert_eq!(header.blob_gas_used, Some(0));
    let sidecar = TaikoExecutionDataSidecar {
        tx_hash: FixedBytes([4; 32]),
        withdrawals_hash: Some(FixedBytes([0; 32])),
        header_difficulty: None,
        taiko_block: None,
    };
    let header = apply_body_roots(header, false, &sidecar, Some(FixedBytes([5; 32]))).unwrap();
    assert_eq!(header.withdrawals_root, Some(FixedBytes([5; 32])));
    assert_eq!(header.transactions_root, FixedBytes([3; 32]));
    let err = apply_body_roots(header, true, &sidecar, None).unwrap_err();
    assert!(matches!(
        err,
        NewPayloadError::Taiko(TaikoPayloadValidationError::MissingLegacyWithdrawalsHash)
    ));
}

#[test]
fn constants_agree_with_alloy() {
    assert_eq!(EMPTY_OMMER_ROOT_HASH, alloy_consensus::constants::EMPTY_OMMER_ROOT_HASH.0);
    assert_eq!(EMPTY_ROOT_HASH, alloy_consensus::constants::EMPTY_TRANSACTIONS.0);
    assert_eq!(EMPTY_ROOT_HASH, alloy_consensus::constants::EMPTY_RECEIPTS.0);
    assert_eq!(EMPTY_ROOT_HASH, EMPTY_WITHDRAWALS.0);
    assert_eq!(EMPTY_REQUESTS_HASH, ALLOY_EMPTY_REQUESTS_HASH.0);
}

fn header_at(timestamp: u64) -> Header {
    let (_, data) = payload_with_transactions(vec![]);
    let mut header = payload_header(data.execution_payload, FixedBytes([3; 32])).expect("valid");
    header.timestamp = timestamp;
    header
}

#[test]
fn attributes_may_have_the_parent_timestamp() {
    let validator = validator();
    let attributes = TaikoPayloadAttributes { timestamp: 10, withdrawals: None };
    assert_eq!(
        validator.validate_payload_attributes_against_header(&attributes, &header_at(10)),
        Ok(())
    );
    assert_eq!(
        validator.validate_payload_attributes_against_header(&attributes, &header_at(9)),
        Ok(())
    );
    assert_eq!(
        validator.validate_payload_attributes_against_header(&attributes, &header_at(11)),
        Err(InvalidPayloadAttributesError::InvalidTimestamp)
    );
}

#[test]
fn withdrawals_follow_shanghai_and_the_message_version() {
    let chain = TaikoChainSpec { shanghai_time: Some(5), unzen_time: None };
    let validator = TaikoEngineValidator::new(Arc::new(chain));
    let check = |version, timestamp, withdrawals| {
        let attributes = TaikoPayloadAttributes { timestamp, withdrawals };
        validator.validate_version_specific_fields(
            version,
            PayloadOrAttributes::PayloadAttributes(&attributes),
        )
    };
    let error = |error| {
        Err(EngineObjectValidationError { kind: MessageValidationKind::PayloadAttributes, error })
    };
    assert_eq!(
        check(EngineApiMessageVersion::V1, 5, Some(vec![])),
        error(VersionSpecificValidationError::WithdrawalsNotSupportedInV1)
    );
    assert_eq!(check(EngineApiMessageVersion::V1, 5, None), Ok(()));
    assert_eq!(
        check(EngineApiMessageVersion::V3, 4, Some(vec![])),
        error(VersionSpecificValidationError::HasWithdrawalsPreShanghai)
    );
    assert_eq!(check(EngineApiMessageVersion::V2, 4, None), Ok(()));
    assert_eq!(
        check(EngineApiMessageVersion::V4, 5, None),
        error(VersionSpecificValidationError::NoWithdrawalsPostShanghai)
    );
    assert_eq!(check(EngineApiMessageVersion::V5, 5, Some(vec![])), Ok(()));
}

#[test]
fn legacy_exception_is_for_v2_with_a_nonzero_hash() {
    let validator = validator();
    let legacy = |withdrawals_hash| {
        sample_unzen_execution_data_with_withdrawals(
            7,
            Some(U256::from_u64(7)),
            Some(AlloyB256::ZERO),
            None,
            withdrawals_hash,
            false,
        )
    };
    let committed = legacy(Some(hash(EMPTY_WITHDRAWALS)));
    let zero = legacy(Some(FixedBytes([0; 32])));
    let check = |version, data: &TaikoExecutionData| {
        validator
            .validate_version_specific_fields(version, PayloadOrAttributes::ExecutionPayload(data))
            .is_ok()
    };
    assert!(check(EngineApiMessageVersion::V2, &committed));
    assert!(!check(EngineApiMessageVersion::V3, &committed));
    assert!(check(EngineApiMessageVersion::V1, &committed));
    assert!(!check(EngineApiMessageVersion::V2, &zero));
}

/// The same payload in alloy's type.
fn alloy_payload(payload: &TaikoExecutionPayloadV1) -> ExecutionPayloadV1 {
    let fee = payload.base_fee_per_gas;
    ExecutionPayloadV1 {
        parent_hash: payload.parent_hash.0.into(),
        fee_recipient: payload.fee_recipient.0.into(),
        state_root: payload.state_root.0.into(),
        receipts_root: payload.receipts_root.0.into(),
        logs_bloom: AlloyBloom::from(payload.logs_bloom.0),
        prev_randao: payload.prev_randao.0.into(),
        block_number: payload.block_number,
        gas_limit: payload.gas_limit,
        gas_used: payload.gas_used,
        timestamp: payload.timestamp,
        extra_data: payload.extra_data.clone().into(),
        base_fee_per_gas: AlloyU256::from_limbs([fee.0, fee.1, fee.2, fee.3]),
        block_hash: payload.block_hash.0.into(),
        transactions: payload
            .transactions
            .iter()
            .flatten()
            .map(|transaction| transaction.clone().into())
            .collect(),
    }
}

#[test]
fn payload_blocks_are_those_of_alloy() {
    let mut payloads = vec![];
    let mut trailing = from_hex(EIP155_TRANSACTION);
    trailing.push(0);
    for transactions in [
        vec![],
        vec![from_hex(EIP155_TRANSACTION)],
        vec![from_hex(EIP155_TRANSACTION), trailing],
        vec![vec![]],
        vec![vec![0x7f]],
    ] {
        payloads.push(payload_with_transactions(transactions).1);
    }
    let (_, mut varied) = payload_with_transactions(vec![]);
    varied.execution_payload.parent_hash = FixedBytes([1; 32]);
    varied.execution_payload.fee_recipient = FixedBytes([2; 20]);
    varied.execution_payload.state_root = FixedBytes([3; 32]);
    varied.execution_payload.receipts_root = FixedBytes([4; 32]);
    varied.execution_payload.logs_bloom = FixedBytes([5; 256]);
    varied.execution_payload.prev_randao = FixedBytes([6; 32]);
    varied.execution_payload.block_number = 7;
    varied.execution_payload.gas_limit = 8;
    varied.execution_payload.gas_used = 9;
    varied.execution_payload.timestamp = 10;
    varied.execution_payload.extra_data = vec![11, 12];
    varied.execution_payload.base_fee_per_gas = U256::from_u64(13);
    payloads.push(varied);
    let (_, mut long) = payload_with_transactions(vec![vec![0x7f]]);
    long.execution_payload.extra_data = vec![1; 33];
    long.execution_payload.base_fee_per_gas = U256(0, 0, 1, 0);
    payloads.push(long);
    let (_, mut expensive) = payload_with_transactions(vec![vec![0x7f]]);
    expensive.execution_payload.base_fee_per_gas = U256(7, 0, 0, 9);
    payloads.push(expensive);

    for mut data in payloads {
        let chain = TaikoChainSpec { shanghai_time: Some(0), unzen_time: None };
        let validator = TaikoEngineValidator::new(Arc::new(chain));
        let expected = alloy_payload(&data.execution_payload)
            .try_into_block::<EthereumTxEnvelope<TxEip4844>>();
        match expected {
            Ok(mut block) => {
                block.header.withdrawals_root = Some(EMPTY_WITHDRAWALS);
                data.execution_payload.block_hash = hash(block.header.hash_slow());
                let sealed = validator.convert_payload_to_block(data).expect("valid payload");
                assert_eq!(sealed.hash, hash(block.header.hash_slow()));
                let encoded: Vec<_> =
                    block.body.transactions.iter().map(|tx| tx.encoded_2718()).collect();
                let converted: Vec<_> =
                    sealed.block.transactions.iter().map(|tx| tx.encoded.clone()).collect();
                assert_eq!(converted, encoded);
            }
            Err(error) => {
                let actual = validator.convert_payload_to_block(data).expect_err("invalid");
                assert_eq!(actual.message(), error.to_string());
            }
        }
    }
}

#[test]
fn payload_blocks_pass_the_stored_checks() {
    let (validator, data) = payload_with_transactions(vec![]);
    let sealed = validator.convert_payload_to_block(data).expect("valid payload");
    assert!(validate_stored_consensus(&sealed.block, &vec![], false).is_ok());
    assert!(validate_stored_consensus(&sealed.block, &vec![], true).is_err());
}
