//! Engine payload validator for Taiko execution payloads.
use crate::block::{
    byte_views, transaction_views, Block, Header, RecoveredBlock, SealedBlock, Transaction, TxType,
    Withdrawal, EMPTY_OMMER_ROOT_HASH, EMPTY_REQUESTS_HASH, MAXIMUM_EXTRA_DATA_SIZE,
};
use crate::block::{BlockView, HeaderView, TransactionView};
use crate::chain::{reached, TaikoChainSpec};
use crate::commitments::{
    decode_transaction, recover_signer, transactions_root, u256_string, withdrawals_root,
};
use crate::commitments::{
    decoded_transaction, header_hash, recovered_signer, transactions_root_of, withdrawals_root_of,
};
use crate::engine::types::{
    EngineApiMessageVersion, EngineObjectValidationError, InvalidPayloadAttributesError,
    MessageValidationKind, PayloadOrAttributes, TaikoExecutionData, TaikoExecutionDataSidecar,
    TaikoExecutionPayloadV1, TaikoPayloadAttributes, VersionSpecificValidationError,
};
use crate::engine::types::{ExecutionDataView, PayloadView};
use crate::fixed::{Address, FixedBytes, B256, U256, ZERO_NONCE, ZERO_WORD};
use crate::text::{decimal, hex_string, hex_text};
use std::sync::Arc;
use vstd::prelude::*;

verus! {

/// Taiko-specific payload validation errors that do not map to an upstream Ethereum fork rule.
#[derive(Clone, Copy, Debug, PartialEq, Eq, Structural)]
pub enum TaikoPayloadValidationError {
    /// The payload contains blob transactions, which Taiko network never accepts.
    BlobTransactionsUnsupported,
    /// Unzen payloads must carry the original header difficulty through the Taiko sidecar.
    MissingUnzenHeaderDifficulty,
    /// Complete Taiko payloads must carry the Shanghai withdrawals list, including when empty.
    MissingWithdrawals,
    /// Legacy hash-only payloads must carry the committed withdrawals root in the sidecar.
    MissingLegacyWithdrawalsHash,
}

impl TaikoPayloadValidationError {
    /// What is wrong with the payload.
    pub open spec fn text(self) -> Seq<char> {
        match self {
            TaikoPayloadValidationError::BlobTransactionsUnsupported =>
                "blob transactions are unsupported"@,
            TaikoPayloadValidationError::MissingUnzenHeaderDifficulty =>
                "missing header difficulty for Unzen payload"@,
            TaikoPayloadValidationError::MissingWithdrawals =>
                "missing withdrawals for complete Taiko payload"@,
            TaikoPayloadValidationError::MissingLegacyWithdrawalsHash =>
                "missing withdrawals hash for legacy Taiko payload"@,
        }
    }

    /// What is wrong with the payload.
    pub fn message(&self) -> (r: String)
        ensures
            r@ == self.text(),
    {
        String::from_str(
            match self {
                TaikoPayloadValidationError::BlobTransactionsUnsupported =>
                    "blob transactions are unsupported",
                TaikoPayloadValidationError::MissingUnzenHeaderDifficulty =>
                    "missing header difficulty for Unzen payload",
                TaikoPayloadValidationError::MissingWithdrawals =>
                    "missing withdrawals for complete Taiko payload",
                TaikoPayloadValidationError::MissingLegacyWithdrawalsHash =>
                    "missing withdrawals hash for legacy Taiko payload",
            },
        )
    }
}

/// Why a payload does not become a block.
#[derive(Debug)]
pub enum NewPayloadError {
    /// A Taiko rule is broken.
    Taiko(TaikoPayloadValidationError),
    /// The extra data is too long.
    ExtraData(Vec<u8>),
    /// The base fee does not fit in 64 bits.
    BaseFee(U256),
    /// A transaction cannot be decoded.
    Decode(String),
    /// The block hash computed from the payload is not the one provided with it.
    BlockHash { execution: B256, consensus: B256 },
    /// A transaction signer cannot be recovered.
    Recovery,
}

/// What a [`NewPayloadError`] says.
#[verifier::ext_equal]
pub enum PayloadErrorView {
    Taiko(TaikoPayloadValidationError),
    ExtraData(Seq<u8>),
    BaseFee(U256),
    Decode(Seq<char>),
    BlockHash { execution: B256, consensus: B256 },
    Recovery,
}

impl View for NewPayloadError {
    type V = PayloadErrorView;

    open spec fn view(&self) -> PayloadErrorView {
        match *self {
            NewPayloadError::Taiko(error) => PayloadErrorView::Taiko(error),
            NewPayloadError::ExtraData(data) => PayloadErrorView::ExtraData(data@),
            NewPayloadError::BaseFee(fee) => PayloadErrorView::BaseFee(fee),
            NewPayloadError::Decode(error) => PayloadErrorView::Decode(error@),
            NewPayloadError::BlockHash { execution, consensus } => PayloadErrorView::BlockHash {
                execution,
                consensus,
            },
            NewPayloadError::Recovery => PayloadErrorView::Recovery,
        }
    }
}

impl PayloadErrorView {
    /// What is wrong with the payload.
    pub open spec fn text(self) -> Seq<char> {
        match self {
            PayloadErrorView::Taiko(error) => error.text(),
            PayloadErrorView::ExtraData(data) => "invalid payload extra data: "@ + hex_text(data),
            PayloadErrorView::BaseFee(fee) => "invalid payload base fee: "@ + decimal(fee.value()),
            PayloadErrorView::Decode(error) => error,
            PayloadErrorView::BlockHash { execution, consensus } => "block hash mismatch: want "@
                + hex_text(execution.0@) + ", got "@ + hex_text(consensus.0@),
            PayloadErrorView::Recovery => "Failed to recover the block"@,
        }
    }
}

impl NewPayloadError {
    /// What is wrong with the payload.
    pub fn message(&self) -> (r: String)
        ensures
            r@ == self@.text(),
    {
        match self {
            NewPayloadError::Taiko(error) => error.message(),
            NewPayloadError::ExtraData(data) => String::from_str(
                "invalid payload extra data: ",
            ).concat(hex_string(data.as_slice()).as_str()),
            NewPayloadError::BaseFee(fee) => String::from_str("invalid payload base fee: ").concat(
                u256_string(fee).as_str(),
            ),
            NewPayloadError::Decode(error) => error.clone(),
            NewPayloadError::BlockHash { execution, consensus } => String::from_str(
                "block hash mismatch: want ",
            ).concat(hex_string(&execution.0).as_str()).concat(", got ").concat(
                hex_string(&consensus.0).as_str(),
            ),
            NewPayloadError::Recovery => String::from_str("Failed to recover the block"),
        }
    }
}

/// The header that a payload describes, given the root of its transactions.
pub open spec fn payload_header_view(
    payload: PayloadView,
    transactions_root: B256,
) -> Result<HeaderView, PayloadErrorView> {
    if payload.extra_data.len() > MAXIMUM_EXTRA_DATA_SIZE {
        Err(PayloadErrorView::ExtraData(payload.extra_data))
    } else if payload.base_fee_per_gas.value() > u64::MAX {
        Err(PayloadErrorView::BaseFee(payload.base_fee_per_gas))
    } else {
        Ok(
            HeaderView {
                parent_hash: payload.parent_hash,
                ommers_hash: FixedBytes(EMPTY_OMMER_ROOT_HASH),
                beneficiary: payload.fee_recipient,
                state_root: payload.state_root,
                transactions_root,
                receipts_root: payload.receipts_root,
                logs_bloom: payload.logs_bloom,
                difficulty: U256(0, 0, 0, 0),
                number: payload.block_number,
                gas_limit: payload.gas_limit,
                gas_used: payload.gas_used,
                timestamp: payload.timestamp,
                extra_data: payload.extra_data,
                mix_hash: payload.prev_randao,
                nonce: FixedBytes(ZERO_NONCE),
                base_fee_per_gas: Some(payload.base_fee_per_gas.value() as u64),
                withdrawals_root: None,
                blob_gas_used: None,
                excess_blob_gas: None,
                parent_beacon_block_root: None,
                requests_hash: None,
                block_access_list_hash: None,
                slot_number: None,
            },
        )
    }
}

/// Builds the header that a payload describes, given the root of its transactions.
pub fn payload_header(payload: TaikoExecutionPayloadV1, transactions_root: B256) -> (r: Result<
    Header,
    NewPayloadError,
>)
    ensures
        match r {
            Ok(header) => payload_header_view(payload@, transactions_root) == Ok::<_, PayloadErrorView>(header@),
            Err(error) => payload_header_view(payload@, transactions_root) == Err::<HeaderView, _>(error@),
        },
{
    if payload.extra_data.len() > MAXIMUM_EXTRA_DATA_SIZE {
        return Err(NewPayloadError::ExtraData(payload.extra_data));
    }
    let base_fee_per_gas: u64 = match payload.base_fee_per_gas.to_u64() {
        Some(fee) => fee,
        None => return Err(NewPayloadError::BaseFee(payload.base_fee_per_gas)),
    };
    Ok(
        Header {
            parent_hash: payload.parent_hash,
            ommers_hash: FixedBytes(EMPTY_OMMER_ROOT_HASH),
            beneficiary: payload.fee_recipient,
            state_root: payload.state_root,
            transactions_root,
            receipts_root: payload.receipts_root,
            logs_bloom: payload.logs_bloom,
            difficulty: U256::zero(),
            number: payload.block_number,
            gas_limit: payload.gas_limit,
            gas_used: payload.gas_used,
            timestamp: payload.timestamp,
            extra_data: payload.extra_data,
            mix_hash: payload.prev_randao,
            nonce: FixedBytes(ZERO_NONCE),
            base_fee_per_gas: Some(base_fee_per_gas),
            withdrawals_root: None,
            blob_gas_used: None,
            excess_blob_gas: None,
            parent_beacon_block_root: None,
            requests_hash: None,
            block_access_list_hash: None,
            slot_number: None,
        },
    )
}

/// The transactions that a list of encodings stands for, or the first decoding error.
pub open spec fn decode_all(encoded: Seq<Seq<u8>>) -> Result<Seq<TransactionView>, Seq<char>>
    decreases encoded.len(),
{
    if encoded.len() == 0 {
        Ok(seq![])
    } else {
        match decode_all(encoded.drop_last()) {
            Err(error) => Err(error),
            Ok(done) => match decoded_transaction(encoded.last()) {
                Err(error) => Err(error),
                Ok(transaction) => Ok(done.push(transaction)),
            },
        }
    }
}

/// Decodes a list of transactions and stops at the first error.
pub fn decode_transactions(encoded: &Vec<Vec<u8>>) -> (r: Result<Vec<Transaction>, String>)
    ensures
        match r {
            Ok(transactions) => decode_all(byte_views(encoded@)) == Ok::<_, Seq<char>>(
                transaction_views(transactions@),
            ),
            Err(error) => decode_all(byte_views(encoded@)) == Err::<Seq<TransactionView>, _>(
                error@,
            ),
        },
        r matches Ok(transactions) ==> {
            &&& transactions.len() == encoded.len()
            &&& forall|i: int|
                0 <= i < encoded.len() ==> decoded_transaction((#[trigger] encoded@[i])@) == Ok::<
                    _,
                    Seq<char>,
                >(transactions@[i]@)
        },
{
    let ghost all = byte_views(encoded@);
    let mut transactions: Vec<Transaction> = Vec::new();
    let mut i: usize = 0;
    assert(transaction_views(transactions@) =~= seq![]);
    while i < encoded.len()
        invariant
            i <= encoded.len(),
            all == byte_views(encoded@),
            decode_all(all.take(i as int)) == Ok::<_, Seq<char>>(
                transaction_views(transactions@),
            ),
        decreases encoded.len() - i,
    {
        assert(all.take(i + 1).drop_last() =~= all.take(i as int));
        assert(all.take(i + 1).last() == encoded@[i as int]@);
        match decode_transaction(&encoded[i]) {
            Ok(transaction) => {
                let ghost done = transaction_views(transactions@);
                transactions.push(transaction);
                assert(transaction_views(transactions@) =~= done.push(transaction@));
            },
            Err(error) => {
                proof {
                    decoding_stops_at_an_error(all, i + 1, error@);
                }
                return Err(error);
            },
        }
        i = i + 1;
    }
    assert(all.take(i as int) =~= all);
    proof {
        decoding_keeps_positions(all);
        assert forall|k: int| 0 <= k < encoded.len() implies decoded_transaction(
            (#[trigger] encoded@[k])@,
        ) == Ok::<_, Seq<char>>(transactions@[k]@) by {
            assert(all[k] == encoded@[k]@);
        }
    }
    Ok(transactions)
}

/// A list with an undecodable prefix fails with that prefix's error.
proof fn decoding_stops_at_an_error(encoded: Seq<Seq<u8>>, n: int, error: Seq<char>)
    requires
        0 <= n <= encoded.len(),
        decode_all(encoded.take(n)) == Err::<Seq<TransactionView>, _>(error),
    ensures
        decode_all(encoded) == Err::<Seq<TransactionView>, _>(error),
    decreases encoded.len(),
{
    if n == encoded.len() {
        assert(encoded.take(n) =~= encoded);
    } else {
        assert(encoded.drop_last().take(n) =~= encoded.take(n));
        decoding_stops_at_an_error(encoded.drop_last(), n, error);
    }
}

/// The header with the fields that Taiko fills in itself: the difficulty from the sidecar, and the
/// Cancun and Prague fields as constants from Unzen on.
pub open spec fn with_fork_fields(
    header: HeaderView,
    is_unzen_active: bool,
    difficulty: Option<U256>,
) -> HeaderView {
    HeaderView {
        difficulty: match difficulty {
            Some(difficulty) => difficulty,
            None => header.difficulty,
        },
        parent_beacon_block_root: if is_unzen_active {
            Some(FixedBytes(ZERO_WORD))
        } else {
            None
        },
        blob_gas_used: if is_unzen_active {
            Some(0)
        } else {
            None
        },
        excess_blob_gas: if is_unzen_active {
            Some(0)
        } else {
            None
        },
        requests_hash: if is_unzen_active {
            Some(FixedBytes(EMPTY_REQUESTS_HASH))
        } else {
            None
        },
        ..header
    }
}

/// Fills in the header fields that Taiko derives itself.
pub fn apply_fork_fields(header: Header, is_unzen_active: bool, difficulty: Option<U256>) -> (r:
    Header)
    ensures
        r@ == with_fork_fields(header@, is_unzen_active, difficulty),
{
    let mut header = header;
    if let Some(difficulty) = difficulty {
        header.difficulty = difficulty;
    }
    header.parent_beacon_block_root = if is_unzen_active {
        Some(FixedBytes(ZERO_WORD))
    } else {
        None
    };
    header.blob_gas_used = if is_unzen_active {
        Some(0)
    } else {
        None
    };
    header.excess_blob_gas = if is_unzen_active {
        Some(0)
    } else {
        None
    };
    header.requests_hash = if is_unzen_active {
        Some(FixedBytes(EMPTY_REQUESTS_HASH))
    } else {
        None
    };
    header
}

/// Whether a payload carries roots in place of its transactions and withdrawals.
pub open spec fn is_legacy(data: ExecutionDataView) -> bool {
    data.execution_payload.transactions is None && data.withdrawals is None
}

/// A withdrawals root that a sidecar commits to: present and not zero.
pub open spec fn committed_hash(withdrawals_hash: Option<B256>) -> Option<B256> {
    match withdrawals_hash {
        Some(hash) if !hash.all_zero() => Some(hash),
        _ => None,
    }
}

/// The header with the roots of the body: those of the sidecar for a legacy payload, otherwise the
/// root of the withdrawals that the payload carries.
pub open spec fn with_body_roots(
    header: HeaderView,
    legacy: bool,
    sidecar: TaikoExecutionDataSidecar,
    withdrawals_root: Option<B256>,
) -> Result<HeaderView, PayloadErrorView> {
    if !legacy {
        Ok(
            HeaderView {
                withdrawals_root: if withdrawals_root is Some {
                    withdrawals_root
                } else {
                    header.withdrawals_root
                },
                ..header
            },
        )
    } else if committed_hash(sidecar.withdrawals_hash) is None {
        Err(PayloadErrorView::Taiko(TaikoPayloadValidationError::MissingLegacyWithdrawalsHash))
    } else {
        Ok(
            HeaderView {
                transactions_root: sidecar.tx_hash,
                withdrawals_root: committed_hash(sidecar.withdrawals_hash),
                ..header
            },
        )
    }
}

/// Sets the roots of the body in a header, given the root of the withdrawals that the payload
/// carries.
pub fn apply_body_roots(
    header: Header,
    legacy_hash_only: bool,
    sidecar: &TaikoExecutionDataSidecar,
    withdrawals_root: Option<B256>,
) -> (r: Result<Header, NewPayloadError>)
    ensures
        match r {
            Ok(done) => with_body_roots(header@, legacy_hash_only, *sidecar, withdrawals_root)
                == Ok::<_, PayloadErrorView>(done@),
            Err(error) => with_body_roots(header@, legacy_hash_only, *sidecar, withdrawals_root)
                == Err::<HeaderView, _>(error@),
        },
{
    let mut header = header;
    if legacy_hash_only {
        header.transactions_root = sidecar.tx_hash;
        match sidecar.withdrawals_hash {
            Some(hash) if !hash.is_zero() => {
                header.withdrawals_root = Some(hash);
            },
            _ => return Err(
                NewPayloadError::Taiko(TaikoPayloadValidationError::MissingLegacyWithdrawalsHash),
            ),
        }
    } else if withdrawals_root.is_some() {
        header.withdrawals_root = withdrawals_root;
    }
    Ok(header)
}

/// Ensures that the hash provided with a payload is the hash of its block.
pub fn check_block_hash(expected: B256, actual: B256) -> (r: Result<(), NewPayloadError>)
    ensures
        r is Ok <==> expected == actual,
        r matches Err(error) ==> error@ == (PayloadErrorView::BlockHash {
            execution: actual,
            consensus: expected,
        }),
{
    if expected != actual {
        return Err(NewPayloadError::BlockHash { execution: actual, consensus: expected });
    }
    Ok(())
}

/// The encodings of a payload's transactions; none for a payload without transactions.
pub open spec fn encoded_transactions(payload: PayloadView) -> Seq<Seq<u8>> {
    match payload.transactions {
        Some(transactions) => transactions,
        None => seq![],
    }
}

/// The root of an optional list of withdrawals.
pub open spec fn optional_withdrawals_root(withdrawals: Option<Seq<Withdrawal>>) -> Option<B256> {
    match withdrawals {
        Some(withdrawals) => Some(withdrawals_root_of(withdrawals)),
        None => None,
    }
}

/// The block that a payload describes, or the first reason why it describes none.
pub open spec fn payload_block(chain: TaikoChainSpec, data: ExecutionDataView) -> Result<
    BlockView,
    PayloadErrorView,
> {
    let payload = data.execution_payload;
    let sidecar = data.taiko_sidecar;
    let is_unzen_active = reached(chain.unzen_time, payload.timestamp);
    let encoded = encoded_transactions(payload);
    if is_unzen_active && sidecar.header_difficulty is None {
        Err(PayloadErrorView::Taiko(TaikoPayloadValidationError::MissingUnzenHeaderDifficulty))
    } else if payload.transactions is Some && data.withdrawals is None {
        Err(PayloadErrorView::Taiko(TaikoPayloadValidationError::MissingWithdrawals))
    } else {
        match payload_header_view(payload, transactions_root_of(encoded)) {
            Err(error) => Err(error),
            Ok(header) => match decode_all(encoded) {
                Err(error) => Err(PayloadErrorView::Decode(error)),
                Ok(transactions) => match with_body_roots(
                    with_fork_fields(header, is_unzen_active, sidecar.header_difficulty),
                    is_legacy(data),
                    sidecar,
                    optional_withdrawals_root(data.withdrawals),
                ) {
                    Err(error) => Err(error),
                    Ok(header) => Ok(
                        BlockView {
                            header,
                            transactions,
                            ommers: 0,
                            withdrawals: data.withdrawals,
                        },
                    ),
                },
            },
        }
    }
}

/// The sealed block that a payload commits to, or the first reason why there is none.
pub open spec fn sealed_payload(chain: TaikoChainSpec, data: ExecutionDataView) -> Result<
    (BlockView, B256),
    PayloadErrorView,
> {
    match payload_block(chain, data) {
        Err(error) => Err(error),
        Ok(block) => {
            let hash = header_hash(block.header);
            if hash == data.execution_payload.block_hash {
                Ok((block, hash))
            } else {
                Err(
                    PayloadErrorView::BlockHash {
                        execution: hash,
                        consensus: data.execution_payload.block_hash,
                    },
                )
            }
        },
    }
}

/// Whether a block carries a blob transaction.
pub open spec fn has_blob_transaction(transactions: Seq<TransactionView>) -> bool {
    exists|i: int|
        0 <= i < transactions.len() && (#[trigger] transactions[i]).tx_type == TxType::Eip4844
}

/// The signers of a list of transactions, if every signature is valid.
pub open spec fn signers_of(transactions: Seq<TransactionView>) -> Option<Seq<Address>> {
    if forall|i: int|
        0 <= i < transactions.len() ==> recovered_signer(
            (#[trigger] transactions[i]).encoded,
        ) is Some {
        Some(
            Seq::new(
                transactions.len(),
                |i: int| recovered_signer(transactions[i].encoded)->0,
            ),
        )
    } else {
        None
    }
}

/// The recovered block of a well-formed payload, or the first reason why it is not well formed.
pub open spec fn recovered_payload(chain: TaikoChainSpec, data: ExecutionDataView) -> Result<
    (BlockView, B256, Seq<Address>),
    PayloadErrorView,
> {
    match sealed_payload(chain, data) {
        Err(error) => Err(error),
        Ok((block, hash)) => if has_blob_transaction(block.transactions) {
            Err(PayloadErrorView::Taiko(TaikoPayloadValidationError::BlobTransactionsUnsupported))
        } else {
            match signers_of(block.transactions) {
                None => Err(PayloadErrorView::Recovery),
                Some(senders) => Ok((block, hash, senders)),
            }
        },
    }
}

/// Returns whether Taiko accepts a transaction of this type.
pub fn is_allowed_tx_type(transaction: &Transaction) -> (r: bool)
    ensures
        r == (transaction.tx_type != TxType::Eip4844),
{
    transaction.tx_type != TxType::Eip4844
}

/// Recovers the signers of a list of transactions.
pub fn recover_signers(transactions: &Vec<Transaction>) -> (r: Option<Vec<Address>>)
    ensures
        match r {
            Some(senders) => signers_of(transaction_views(transactions@)) == Some(senders@),
            None => signers_of(transaction_views(transactions@)) is None,
        },
{
    let ghost views = transaction_views(transactions@);
    let mut senders: Vec<Address> = Vec::new();
    let mut i: usize = 0;
    while i < transactions.len()
        invariant
            i <= transactions.len(),
            views == transaction_views(transactions@),
            senders.len() == i,
            forall|k: int|
                0 <= k < i ==> recovered_signer((#[trigger] views[k]).encoded) == Some(senders@[k]),
        decreases transactions.len() - i,
    {
        match recover_signer(&transactions[i].encoded) {
            Some(signer) => senders.push(signer),
            None => {
                assert(recovered_signer(views[i as int].encoded) is None);
                return None;
            },
        }
        i = i + 1;
    }
    assert(senders@ =~= Seq::new(views.len(), |k: int| recovered_signer(views[k].encoded)->0));
    Some(senders)
}

/// Builder for [`TaikoEngineValidator`].
#[derive(Debug, Clone, Copy, Default)]
pub struct TaikoEngineValidatorBuilder;

impl TaikoEngineValidatorBuilder {
    /// Creates the engine validator for the node's chain.
    pub fn build(self, chain_spec: Arc<TaikoChainSpec>) -> (r: TaikoEngineValidator)
        ensures
            r.chain_spec == chain_spec,
    {
        TaikoEngineValidator::new(chain_spec)
    }
}

/// Validator for the Taiko engine API.
#[derive(Debug)]
pub struct TaikoEngineValidator {
    /// Chain spec used for payload and attribute validation rules.
    pub chain_spec: Arc<TaikoChainSpec>,
}

impl TaikoEngineValidator {
    /// Instantiates a new validator.
    pub fn new(chain_spec: Arc<TaikoChainSpec>) -> (r: Self)
        ensures
            r.chain_spec == chain_spec,
    {
        TaikoEngineValidator { chain_spec }
    }

    /// Converts the given payload into a sealed block without recovering signatures.
    pub fn convert_payload_to_block(&self, payload: TaikoExecutionData) -> (r: Result<
        SealedBlock,
        NewPayloadError,
    >)
        ensures
            match r {
                Ok(sealed) => sealed_payload(*self.chain_spec, payload@) == Ok::<
                    _,
                    PayloadErrorView,
                >((sealed.block@, sealed.hash)),
                Err(error) => sealed_payload(*self.chain_spec, payload@) == Err::<
                    (BlockView, B256),
                    _,
                >(error@),
            },
            r matches Ok(sealed) ==> {
                let header = sealed.block.header;
                let given = payload.execution_payload;
                &&& sealed.hash == given.block_hash
                &&& header.parent_hash == given.parent_hash
                &&& header.beneficiary == given.fee_recipient
                &&& header.state_root == given.state_root
                &&& header.receipts_root == given.receipts_root
                &&& header.logs_bloom == given.logs_bloom
                &&& header.mix_hash == given.prev_randao
                &&& header.number == given.block_number
                &&& header.gas_limit == given.gas_limit
                &&& header.gas_used == given.gas_used
                &&& header.timestamp == given.timestamp
                &&& header.extra_data@ == given.extra_data@
            },
    {
        let ghost data = payload@;
        let TaikoExecutionData { execution_payload, withdrawals, taiko_sidecar } = payload;
        let expected_hash = execution_payload.block_hash;
        let is_unzen_active = self.chain_spec.is_unzen_active(execution_payload.timestamp);
        let transactions_present = execution_payload.transactions.is_some();
        let legacy_hash_only = !transactions_present && withdrawals.is_none();
        if is_unzen_active && taiko_sidecar.header_difficulty.is_none() {
            return Err(
                NewPayloadError::Taiko(TaikoPayloadValidationError::MissingUnzenHeaderDifficulty),
            );
        }
        if transactions_present && withdrawals.is_none() {
            return Err(NewPayloadError::Taiko(TaikoPayloadValidationError::MissingWithdrawals));
        }
        let none: Vec<Vec<u8>> = Vec::new();
        let encoded: &Vec<Vec<u8>> = match &execution_payload.transactions {
            Some(transactions) => transactions,
            None => &none,
        };
        assert(byte_views(none@) =~= seq![]);
        assert(byte_views(encoded@) == encoded_transactions(data.execution_payload));
        let tx_root = transactions_root(encoded);
        let decoded = decode_transactions(encoded);
        let header = match payload_header(execution_payload, tx_root) {
            Ok(header) => header,
            Err(error) => return Err(error),
        };
        let transactions = match decoded {
            Ok(transactions) => transactions,
            Err(error) => return Err(NewPayloadError::Decode(error)),
        };
        let header = apply_fork_fields(header, is_unzen_active, taiko_sidecar.header_difficulty);
        let withdrawals_root = match &withdrawals {
            Some(withdrawals) => Some(withdrawals_root(withdrawals)),
            None => None,
        };
        let header = match apply_body_roots(
            header,
            legacy_hash_only,
            &taiko_sidecar,
            withdrawals_root,
        ) {
            Ok(header) => header,
            Err(error) => return Err(error),
        };
        let block = Block { header, transactions, ommers: Vec::new(), withdrawals };
        assert(payload_block(*self.chain_spec, data) == Ok::<_, PayloadErrorView>(block@));
        let hash = block.header.hash_slow();
        match check_block_hash(expected_hash, hash) {
            Ok(()) => Ok(SealedBlock { block, hash }),
            Err(error) => Err(error),
        }
    }

    /// Ensures that the given payload does not violate any consensus rules that concern the
    /// block's layout, and recovers the signers of its transactions.
    pub fn ensure_well_formed_payload(&self, payload: TaikoExecutionData) -> (r: Result<
        RecoveredBlock,
        NewPayloadError,
    >)
        ensures
            match r {
                Ok(block) => {
                    &&& recovered_payload(*self.chain_spec, payload@) == Ok::<_, PayloadErrorView>(
                        (block.block@, block.hash, block.senders@),
                    )
                    &&& block.well_formed()
                },
                Err(error) => recovered_payload(*self.chain_spec, payload@) == Err::<
                    (BlockView, B256, Seq<Address>),
                    _,
                >(error@),
            },
    {
        let SealedBlock { block, hash } = match self.convert_payload_to_block(payload) {
            Ok(sealed) => sealed,
            Err(error) => return Err(error),
        };
        let ghost views = transaction_views(block.transactions@);
        let mut i: usize = 0;
        while i < block.transactions.len()
            invariant
                i <= block.transactions.len(),
                views == transaction_views(block.transactions@),
                sealed_payload(*self.chain_spec, payload@) == Ok::<_, PayloadErrorView>(
                    (block@, hash),
                ),
                forall|k: int|
                    0 <= k < i ==> (#[trigger] views[k]).tx_type != TxType::Eip4844,
            decreases block.transactions.len() - i,
        {
            if !is_allowed_tx_type(&block.transactions[i]) {
                assert(views[i as int].tx_type == TxType::Eip4844);
                return Err(
                    NewPayloadError::Taiko(TaikoPayloadValidationError::BlobTransactionsUnsupported),
                );
            }
            i = i + 1;
        }
        match recover_signers(&block.transactions) {
            Some(senders) => Ok(RecoveredBlock { block, hash, senders }),
            None => Err(NewPayloadError::Recovery),
        }
    }

    /// Validates the payload attributes with respect to the header.
    ///
    /// A payload may have the timestamp of its parent.
    pub fn validate_payload_attributes_against_header(
        &self,
        attr: &TaikoPayloadAttributes,
        header: &Header,
    ) -> (r: Result<(), InvalidPayloadAttributesError>)
        ensures
            r == if attr.timestamp < header.timestamp {
                Err::<(), _>(InvalidPayloadAttributesError::InvalidTimestamp)
            } else {
                Ok(())
            },
    {
        if attr.timestamp < header.timestamp {
            return Err(InvalidPayloadAttributesError::InvalidTimestamp);
        }
        Ok(())
    }

    /// Validates the presence or exclusion of fork-specific fields based on the payload attributes
    /// and the message version.
    pub fn validate_version_specific_fields(
        &self,
        version: EngineApiMessageVersion,
        payload_or_attrs: PayloadOrAttributes<'_>,
    ) -> (r: Result<(), EngineObjectValidationError>)
        ensures
            r == version_rule(*self.chain_spec, version, payload_or_attrs),
    {
        match payload_or_attrs {
            PayloadOrAttributes::ExecutionPayload(payload) => {
                let is_legacy_hash_only = matches!(version, EngineApiMessageVersion::V2)
                    && payload.execution_payload.transactions.is_none()
                    && payload.withdrawals.is_none() && match payload.taiko_sidecar.withdrawals_hash {
                    Some(hash) => !hash.is_zero(),
                    None => false,
                };
                if is_legacy_hash_only {
                    return Ok(());
                }
                validate_withdrawals_presence(
                    &self.chain_spec,
                    version,
                    MessageValidationKind::Payload,
                    payload.execution_payload.timestamp,
                    payload.withdrawals.is_some(),
                )
            },
            PayloadOrAttributes::PayloadAttributes(attributes) => validate_withdrawals_presence(
                &self.chain_spec,
                version,
                MessageValidationKind::PayloadAttributes,
                attributes.timestamp,
                attributes.withdrawals.is_some(),
            ),
        }
    }

    /// Ensures that the payload attributes are valid for the given [`EngineApiMessageVersion`].
    pub fn ensure_well_formed_attributes(
        &self,
        version: EngineApiMessageVersion,
        attributes: &TaikoPayloadAttributes,
    ) -> (r: Result<(), EngineObjectValidationError>)
        ensures
            r == withdrawals_rule(
                *self.chain_spec,
                version,
                MessageValidationKind::PayloadAttributes,
                attributes.timestamp,
                attributes.withdrawals is Some,
            ),
    {
        validate_withdrawals_presence(
            &self.chain_spec,
            version,
            MessageValidationKind::PayloadAttributes,
            attributes.timestamp,
            attributes.withdrawals.is_some(),
        )
    }
}

/// Withdrawals may not appear in a V1 message; in later messages they appear exactly from Shanghai
/// on.
pub open spec fn withdrawals_rule(
    chain: TaikoChainSpec,
    version: EngineApiMessageVersion,
    kind: MessageValidationKind,
    timestamp: u64,
    has_withdrawals: bool,
) -> Result<(), EngineObjectValidationError> {
    let shanghai = reached(chain.shanghai_time, timestamp);
    if version is V1 {
        if has_withdrawals {
            Err(
                EngineObjectValidationError {
                    kind,
                    error: VersionSpecificValidationError::WithdrawalsNotSupportedInV1,
                },
            )
        } else {
            Ok(())
        }
    } else if shanghai && !has_withdrawals {
        Err(
            EngineObjectValidationError {
                kind,
                error: VersionSpecificValidationError::NoWithdrawalsPostShanghai,
            },
        )
    } else if !shanghai && has_withdrawals {
        Err(
            EngineObjectValidationError {
                kind,
                error: VersionSpecificValidationError::HasWithdrawalsPreShanghai,
            },
        )
    } else {
        Ok(())
    }
}

/// Whether a V2 message carries a legacy payload that commits to its withdrawals by hash.
pub open spec fn legacy_exception(
    version: EngineApiMessageVersion,
    payload_or_attrs: PayloadOrAttributes<'_>,
) -> bool {
    &&& version is V2
    &&& payload_or_attrs matches PayloadOrAttributes::ExecutionPayload(payload)
    &&& is_legacy(payload@)
    &&& committed_hash(payload.taiko_sidecar.withdrawals_hash) is Some
}

/// The withdrawals rule, with the exception of legacy payloads.
pub open spec fn version_rule(
    chain: TaikoChainSpec,
    version: EngineApiMessageVersion,
    payload_or_attrs: PayloadOrAttributes<'_>,
) -> Result<(), EngineObjectValidationError> {
    if legacy_exception(version, payload_or_attrs) {
        Ok(())
    } else {
        match payload_or_attrs {
            PayloadOrAttributes::ExecutionPayload(payload) => withdrawals_rule(
                chain,
                version,
                MessageValidationKind::Payload,
                payload.execution_payload.timestamp,
                payload.withdrawals is Some,
            ),
            PayloadOrAttributes::PayloadAttributes(attributes) => withdrawals_rule(
                chain,
                version,
                MessageValidationKind::PayloadAttributes,
                attributes.timestamp,
                attributes.withdrawals is Some,
            ),
        }
    }
}

/// Validates the presence of withdrawals in an object of an Engine API message.
pub fn validate_withdrawals_presence(
    chain_spec: &TaikoChainSpec,
    version: EngineApiMessageVersion,
    kind: MessageValidationKind,
    timestamp: u64,
    has_withdrawals: bool,
) -> (r: Result<(), EngineObjectValidationError>)
    ensures
        r == withdrawals_rule(*chain_spec, version, kind, timestamp, has_withdrawals),
{
    let is_shanghai_active = chain_spec.is_shanghai_active_at_timestamp(timestamp);
    match version {
        EngineApiMessageVersion::V1 => {
            if has_withdrawals {
                return Err(
                    EngineObjectValidationError {
                        kind,
                        error: VersionSpecificValidationError::WithdrawalsNotSupportedInV1,
                    },
                );
            }
        },
        _ => {
            if is_shanghai_active && !has_withdrawals {
                return Err(
                    EngineObjectValidationError {
                        kind,
                        error: VersionSpecificValidationError::NoWithdrawalsPostShanghai,
                    },
                );
            }
            if !is_shanghai_active && has_withdrawals {
                return Err(
                    EngineObjectValidationError {
                        kind,
                        error: VersionSpecificValidationError::HasWithdrawalsPreShanghai,
                    },
                );
            }
        },
    }
    Ok(())
}

/// A block is accepted only under the hash that its payload commits to, and every other hash is
/// rejected with both hashes named.
pub proof fn committed_hash_decides(chain: TaikoChainSpec, data: ExecutionDataView)
    requires
        payload_block(chain, data) is Ok,
    ensures
        ({
            let block = payload_block(chain, data)->Ok_0;
            let hash = header_hash(block.header);
            sealed_payload(chain, data) == if hash == data.execution_payload.block_hash {
                Ok((block, hash))
            } else {
                Err(
                    PayloadErrorView::BlockHash {
                        execution: hash,
                        consensus: data.execution_payload.block_hash,
                    },
                )
            }
        }),
{
}

/// The Cancun and Prague header fields of an accepted block are Taiko's constants from Unzen on
/// and absent before.
pub proof fn fork_fields_follow_unzen(chain: TaikoChainSpec, data: ExecutionDataView)
    requires
        sealed_payload(chain, data) is Ok,
    ensures
        ({
            let header = sealed_payload(chain, data)->Ok_0.0.header;
            let unzen = reached(chain.unzen_time, data.execution_payload.timestamp);
            &&& header.timestamp == data.execution_payload.timestamp
            &&& unzen ==> {
                &&& header.parent_beacon_block_root == Some(FixedBytes::<32>(ZERO_WORD))
                &&& header.blob_gas_used == Some(0u64)
                &&& header.excess_blob_gas == Some(0u64)
                &&& header.requests_hash == Some(FixedBytes::<32>(EMPTY_REQUESTS_HASH))
            }
            &&& !unzen ==> {
                &&& header.parent_beacon_block_root is None
                &&& header.blob_gas_used is None
                &&& header.excess_blob_gas is None
                &&& header.requests_hash is None
            }
            &&& header.block_access_list_hash is None
            &&& header.slot_number is None
        }),
{
}

/// The difficulty of an accepted block is the sidecar's, which may be missing only before Unzen
/// and then is zero.
pub proof fn difficulty_comes_from_the_sidecar(chain: TaikoChainSpec, data: ExecutionDataView)
    requires
        sealed_payload(chain, data) is Ok,
    ensures
        ({
            let header = sealed_payload(chain, data)->Ok_0.0.header;
            match data.taiko_sidecar.header_difficulty {
                Some(difficulty) => header.difficulty == difficulty,
                None => {
                    &&& header.difficulty.value() == 0
                    &&& !reached(chain.unzen_time, data.execution_payload.timestamp)
                },
            }
        }),
{
}

/// A payload that carries its body is judged by the body alone: the sidecar's roots do not matter.
pub proof fn complete_payload_ignores_sidecar_roots(
    chain: TaikoChainSpec,
    data: ExecutionDataView,
    tx_hash: B256,
    withdrawals_hash: Option<B256>,
)
    requires
        !is_legacy(data),
    ensures
        sealed_payload(
            chain,
            ExecutionDataView {
                taiko_sidecar: TaikoExecutionDataSidecar {
                    tx_hash,
                    withdrawals_hash,
                    ..data.taiko_sidecar
                },
                ..data
            },
        ) == sealed_payload(chain, data),
{
}

/// The withdrawals of a complete payload are in the body of its block, and their root is in its
/// header.
pub proof fn complete_payload_commits_to_its_withdrawals(
    chain: TaikoChainSpec,
    data: ExecutionDataView,
)
    requires
        sealed_payload(chain, data) is Ok,
        !is_legacy(data),
    ensures
        data.withdrawals is Some,
        sealed_payload(chain, data)->Ok_0.0.withdrawals == data.withdrawals,
        sealed_payload(chain, data)->Ok_0.0.header.withdrawals_root == Some(
            withdrawals_root_of(data.withdrawals->0),
        ),
        sealed_payload(chain, data)->Ok_0.0.header.transactions_root == transactions_root_of(
            encoded_transactions(data.execution_payload),
        ),
{
}

/// A legacy payload's block has the roots that the sidecar commits to and an empty body.
pub proof fn legacy_payload_keeps_committed_roots(chain: TaikoChainSpec, data: ExecutionDataView)
    requires
        sealed_payload(chain, data) is Ok,
        is_legacy(data),
    ensures
        ({
            let block = sealed_payload(chain, data)->Ok_0.0;
            &&& data.taiko_sidecar.withdrawals_hash matches Some(hash)
            &&& !hash.all_zero()
            &&& block.header.withdrawals_root == Some(hash)
            &&& block.header.transactions_root == data.taiko_sidecar.tx_hash
            &&& block.withdrawals is None
            &&& block.transactions.len() == 0
        }),
{
}

/// Two payloads that differ in their withdrawals alone are both accepted only if the headers with
/// the two withdrawals roots have the same hash.
pub proof fn withdrawals_are_committed_by_the_hash(
    chain: TaikoChainSpec,
    data: ExecutionDataView,
    other: Seq<Withdrawal>,
)
    requires
        data.withdrawals is Some,
        sealed_payload(chain, data) is Ok,
        sealed_payload(chain, ExecutionDataView { withdrawals: Some(other), ..data }) is Ok,
    ensures
        ({
            let header = sealed_payload(chain, data)->Ok_0.0.header;
            header_hash(header) == header_hash(
                HeaderView { withdrawals_root: Some(withdrawals_root_of(other)), ..header },
            )
        }),
{
    let header = sealed_payload(chain, data)->Ok_0.0.header;
    let changed = ExecutionDataView { withdrawals: Some(other), ..data };
    assert(sealed_payload(chain, changed)->Ok_0.0.header =~= HeaderView {
        withdrawals_root: Some(withdrawals_root_of(other)),
        ..header
    });
}

/// A well-formed payload has no blob transaction and one signer for each transaction.
pub proof fn well_formed_payload_has_no_blobs(chain: TaikoChainSpec, data: ExecutionDataView)
    requires
        recovered_payload(chain, data) is Ok,
    ensures
        ({
            let (block, hash, senders) = recovered_payload(chain, data)->Ok_0;
            &&& sealed_payload(chain, data) == Ok::<_, PayloadErrorView>((block, hash))
            &&& senders.len() == block.transactions.len()
            &&& forall|i: int|
                0 <= i < block.transactions.len() ==> (#[trigger] block.transactions[i]).tx_type
                    != TxType::Eip4844 && recovered_signer(block.transactions[i].encoded) == Some(
                    senders[i],
                )
        }),
{
    let block = recovered_payload(chain, data)->Ok_0.0;
    assert(!has_blob_transaction(block.transactions));
}

/// Outside a V2 message with a legacy payload the withdrawals rule has no exception.
pub proof fn only_legacy_v2_payloads_are_exempt(
    chain: TaikoChainSpec,
    version: EngineApiMessageVersion,
    payload: &TaikoExecutionData,
)
    requires
        !(version is V2) || payload.execution_payload.transactions is Some
            || payload.withdrawals is Some || committed_hash(
            payload.taiko_sidecar.withdrawals_hash,
        ) is None,
    ensures
        version_rule(chain, version, PayloadOrAttributes::ExecutionPayload(payload))
            == withdrawals_rule(
            chain,
            version,
            MessageValidationKind::Payload,
            payload.execution_payload.timestamp,
            payload.withdrawals is Some,
        ),
{
}

/// A legacy payload that a V2 message may carry does not fail for want of a withdrawals hash.
pub proof fn exempt_payload_has_its_withdrawals_hash(
    chain: TaikoChainSpec,
    payload: &TaikoExecutionData,
)
    requires
        legacy_exception(
            EngineApiMessageVersion::V2,
            PayloadOrAttributes::ExecutionPayload(payload),
        ),
    ensures
        sealed_payload(chain, payload@) != Err::<(BlockView, B256), _>(
            PayloadErrorView::Taiko(TaikoPayloadValidationError::MissingLegacyWithdrawalsHash),
        ),
        sealed_payload(chain, payload@) != Err::<(BlockView, B256), _>(
            PayloadErrorView::Taiko(TaikoPayloadValidationError::MissingWithdrawals),
        ),
{
}

/// Decoding a list gives as many transactions as there are encodings, each at the position of its
/// encoding. It fails exactly if some encoding cannot be decoded, with the error of the first such
/// encoding.
pub proof fn decoding_keeps_positions(encoded: Seq<Seq<u8>>)
    ensures
        match decode_all(encoded) {
            Ok(transactions) => {
                &&& transactions.len() == encoded.len()
                &&& forall|i: int|
                    0 <= i < encoded.len() ==> decoded_transaction(#[trigger] encoded[i]) == Ok::<
                        _,
                        Seq<char>,
                    >(transactions[i])
            },
            Err(error) => exists|i: int|
                {
                    &&& 0 <= i < encoded.len()
                    &&& decoded_transaction(#[trigger] encoded[i]) == Err::<TransactionView, _>(
                        error,
                    )
                    &&& forall|j: int|
                        0 <= j < i ==> decoded_transaction(#[trigger] encoded[j]) is Ok
                },
        },
    decreases encoded.len(),
{
    if encoded.len() > 0 {
        let earlier = encoded.drop_last();
        let last = encoded.len() - 1;
        decoding_keeps_positions(earlier);
        assert(encoded.last() == encoded[last]);
        match decode_all(earlier) {
            Ok(done) => {
                assert forall|i: int| 0 <= i < last implies decoded_transaction(
                    #[trigger] encoded[i],
                ) == Ok::<_, Seq<char>>(done[i]) by {
                    assert(encoded[i] == earlier[i]);
                }
            },
            Err(error) => {
                let i = choose|i: int|
                    {
                        &&& 0 <= i < earlier.len()
                        &&& decoded_transaction(#[trigger] earlier[i]) == Err::<
                            TransactionView,
                            _,
                        >(error)
                        &&& forall|j: int|
                            0 <= j < i ==> decoded_transaction(#[trigger] earlier[j]) is Ok
                    };
                assert(encoded[i] == earlier[i]);
                assert forall|j: int| 0 <= j < i implies decoded_transaction(
                    #[trigger] encoded[j],
                ) is Ok by {
                    assert(encoded[j] == earlier[j]);
                }
            },
        }
    }
}

/// The block of an accepted payload has as many transactions as the payload has encodings, and the
/// transaction at each position is the decoding of the payload's encoding at that position. Its
/// transactions root is that of the payload's list as it stands.
pub proof fn accepted_payload_keeps_its_transactions(chain: TaikoChainSpec, data: ExecutionDataView)
    requires
        sealed_payload(chain, data) is Ok,
    ensures
        ({
            let block = sealed_payload(chain, data)->Ok_0.0;
            match data.execution_payload.transactions {
                None => block.transactions.len() == 0,
                Some(encoded) => {
                    &&& block.transactions.len() == encoded.len()
                    &&& forall|i: int|
                        0 <= i < encoded.len() ==> decoded_transaction(#[trigger] encoded[i])
                            == Ok::<_, Seq<char>>(block.transactions[i])
                    &&& block.header.transactions_root == transactions_root_of(encoded)
                },
            }
        }),
{
    decoding_keeps_positions(encoded_transactions(data.execution_payload));
}

/// The signer at each position of a well-formed payload is recovered from the decoding of the
/// payload's encoding at that position, which is no blob transaction.
pub proof fn signers_belong_to_the_encodings(chain: TaikoChainSpec, data: ExecutionDataView)
    requires
        recovered_payload(chain, data) is Ok,
        data.execution_payload.transactions is Some,
    ensures
        ({
            let senders = recovered_payload(chain, data)->Ok_0.2;
            let encoded = data.execution_payload.transactions->0;
            &&& senders.len() == encoded.len()
            &&& forall|i: int|
                0 <= i < encoded.len() ==> {
                    &&& decoded_transaction(#[trigger] encoded[i]) matches Ok(transaction)
                    &&& transaction.tx_type != TxType::Eip4844
                    &&& recovered_signer(transaction.encoded) == Some(senders[i])
                }
        }),
{
    accepted_payload_keeps_its_transactions(chain, data);
    well_formed_payload_has_no_blobs(chain, data);
    let block = recovered_payload(chain, data)->Ok_0.0;
    let encoded = data.execution_payload.transactions->0;
    assert forall|i: int| 0 <= i < encoded.len() implies {
        &&& decoded_transaction(#[trigger] encoded[i]) matches Ok(transaction)
        &&& transaction.tx_type != TxType::Eip4844
        &&& recovered_signer(transaction.encoded) == Some(recovered_payload(chain, data)->Ok_0.2[i])
    } by {
        assert(block.transactions[i].tx_type != TxType::Eip4844);
    }
}

/// The header of an accepted payload carries every field of the payload, in its place, and has no
/// ommers and no nonce. The block's hash is the one that the payload names, and the header's own.
pub proof fn accepted_header_is_the_payloads(chain: TaikoChainSpec, data: ExecutionDataView)
    requires
        sealed_payload(chain, data) is Ok,
    ensures
        ({
            let (block, hash) = sealed_payload(chain, data)->Ok_0;
            let header = block.header;
            let payload = data.execution_payload;
            &&& hash == payload.block_hash
            &&& hash == header_hash(header)
            &&& header.parent_hash == payload.parent_hash
            &&& header.beneficiary == payload.fee_recipient
            &&& header.state_root == payload.state_root
            &&& header.receipts_root == payload.receipts_root
            &&& header.logs_bloom == payload.logs_bloom
            &&& header.mix_hash == payload.prev_randao
            &&& header.number == payload.block_number
            &&& header.gas_limit == payload.gas_limit
            &&& header.gas_used == payload.gas_used
            &&& header.timestamp == payload.timestamp
            &&& header.extra_data == payload.extra_data
            &&& header.base_fee_per_gas matches Some(fee)
            &&& fee == payload.base_fee_per_gas.value()
            &&& header.ommers_hash.0@ == EMPTY_OMMER_ROOT_HASH@
            &&& header.nonce.all_zero()
            &&& block.ommers == 0
            &&& block.withdrawals == data.withdrawals
        }),
{
}

/// A payload is accepted exactly if it has its difficulty from Unzen on, its withdrawals where it has
/// transactions, at most 32 bytes of extra data, a base fee of 64 bits, transactions that can all be
/// decoded and, where it carries neither, a withdrawals hash that is not zero, and if the block that
/// it then describes has the hash that it names.
pub proof fn payloads_are_accepted_exactly(chain: TaikoChainSpec, data: ExecutionDataView)
    ensures
        ({
            let payload = data.execution_payload;
            let sidecar = data.taiko_sidecar;
            let describes = {
                &&& (chain.unzen_time matches Some(time) && time <= payload.timestamp)
                    ==> sidecar.header_difficulty is Some
                &&& payload.transactions is Some ==> data.withdrawals is Some
                &&& payload.extra_data.len() <= 32
                &&& payload.base_fee_per_gas.value() <= u64::MAX
                &&& payload.transactions matches Some(encoded) ==> forall|i: int|
                    0 <= i < encoded.len() ==> decoded_transaction(#[trigger] encoded[i]) is Ok
                &&& payload.transactions is None && data.withdrawals is None ==> (
                sidecar.withdrawals_hash matches Some(hash) && !hash.all_zero())
            };
            &&& payload_block(chain, data) is Ok <==> describes
            &&& sealed_payload(chain, data) is Ok <==> describes && header_hash(
                payload_block(chain, data)->Ok_0.header,
            ) == payload.block_hash
        }),
{
    decoding_keeps_positions(encoded_transactions(data.execution_payload));
}

/// A payload that breaks several rules is rejected for the first of them: the difficulty, the
/// withdrawals, the extra data, the base fee, the transactions and the legacy withdrawals hash, in
/// this order. What is wrong is part of the error.
pub proof fn payloads_are_rejected_for_the_first_reason(
    chain: TaikoChainSpec,
    data: ExecutionDataView,
)
    requires
        payload_block(chain, data) is Err,
    ensures
        ({
            let payload = data.execution_payload;
            let sidecar = data.taiko_sidecar;
            let no_difficulty = reached(chain.unzen_time, payload.timestamp)
                && sidecar.header_difficulty is None;
            let no_withdrawals = payload.transactions is Some && data.withdrawals is None;
            let long = payload.extra_data.len() > 32;
            let high = payload.base_fee_per_gas.value() > u64::MAX;
            let undecoded = decode_all(encoded_transactions(payload)) is Err;
            let error = payload_block(chain, data)->Err_0;
            &&& sealed_payload(chain, data) == Err::<(BlockView, B256), _>(error)
            &&& recovered_payload(chain, data) == Err::<(BlockView, B256, Seq<Address>), _>(error)
            &&& error == PayloadErrorView::Taiko(
                TaikoPayloadValidationError::MissingUnzenHeaderDifficulty,
            ) <==> no_difficulty
            &&& error == PayloadErrorView::Taiko(TaikoPayloadValidationError::MissingWithdrawals)
                <==> !no_difficulty && no_withdrawals
            &&& error is ExtraData <==> !no_difficulty && !no_withdrawals && long
            &&& error matches PayloadErrorView::ExtraData(bytes) ==> bytes == payload.extra_data
            &&& error is BaseFee <==> !no_difficulty && !no_withdrawals && !long && high
            &&& error matches PayloadErrorView::BaseFee(fee) ==> fee == payload.base_fee_per_gas
            &&& error is Decode <==> !no_difficulty && !no_withdrawals && !long && !high
                && undecoded
            &&& error == PayloadErrorView::Taiko(
                TaikoPayloadValidationError::MissingLegacyWithdrawalsHash,
            ) <==> !no_difficulty && !no_withdrawals && !long && !high && !undecoded
        }),
{
}

/// A block that a payload commits to is refused exactly for a blob transaction or, without one, for a
/// signature that gives no signer.
pub proof fn sealed_payloads_are_refused_exactly(chain: TaikoChainSpec, data: ExecutionDataView)
    requires
        sealed_payload(chain, data) is Ok,
    ensures
        ({
            let transactions = sealed_payload(chain, data)->Ok_0.0.transactions;
            let blobs = exists|i: int|
                0 <= i < transactions.len() && (#[trigger] transactions[i]).tx_type
                    == TxType::Eip4844;
            let unsigned = exists|i: int|
                0 <= i < transactions.len() && recovered_signer(
                    (#[trigger] transactions[i]).encoded,
                ) is None;
            &&& recovered_payload(chain, data) is Ok <==> !blobs && !unsigned
            &&& recovered_payload(chain, data) == Err::<(BlockView, B256, Seq<Address>), _>(
                PayloadErrorView::Taiko(TaikoPayloadValidationError::BlobTransactionsUnsupported),
            ) <==> blobs
            &&& recovered_payload(chain, data) == Err::<(BlockView, B256, Seq<Address>), _>(
                PayloadErrorView::Recovery,
            ) <==> !blobs && unsigned
        }),
{
    let transactions = sealed_payload(chain, data)->Ok_0.0.transactions;
    if signers_of(transactions) is None {
        let i = choose|i: int|
            0 <= i < transactions.len() && !(recovered_signer(
                (#[trigger] transactions[i]).encoded,
            ) is Some);
        assert(recovered_signer(transactions[i].encoded) is None);
    }
}

/// A V1 message passes exactly without withdrawals, whatever the time. A later one passes exactly if
/// it has withdrawals and Shanghai has come, or has none and Shanghai has not. The error names the
/// kind of object and which of these was broken.
pub proof fn withdrawals_belong_to_shanghai(
    chain: TaikoChainSpec,
    version: EngineApiMessageVersion,
    kind: MessageValidationKind,
    timestamp: u64,
    has_withdrawals: bool,
)
    ensures
        ({
            let r = withdrawals_rule(chain, version, kind, timestamp, has_withdrawals);
            let shanghai = chain.shanghai_time matches Some(time) && time <= timestamp;
            &&& version == EngineApiMessageVersion::V1 ==> (r is Ok <==> !has_withdrawals)
            &&& version != EngineApiMessageVersion::V1 ==> (r is Ok <==> has_withdrawals
                == shanghai)
            &&& r matches Err(error) ==> {
                &&& error.kind == kind
                &&& error.error == if version == EngineApiMessageVersion::V1 {
                    VersionSpecificValidationError::WithdrawalsNotSupportedInV1
                } else if has_withdrawals {
                    VersionSpecificValidationError::HasWithdrawalsPreShanghai
                } else {
                    VersionSpecificValidationError::NoWithdrawalsPostShanghai
                }
            }
        }),
{
}

/// A payload passes the rules of its message's version exactly if its withdrawals belong there, or if
/// the message is of V2 and the payload carries neither transactions nor withdrawals, but a
/// withdrawals hash that is not zero. Attributes are never exempt.
pub proof fn versions_are_judged_exactly(
    chain: TaikoChainSpec,
    version: EngineApiMessageVersion,
    payload: &TaikoExecutionData,
    attributes: &TaikoPayloadAttributes,
)
    ensures
        ({
            let exempt = {
                &&& version == EngineApiMessageVersion::V2
                &&& payload.execution_payload.transactions is None
                &&& payload.withdrawals is None
                &&& payload.taiko_sidecar.withdrawals_hash matches Some(hash)
                &&& !hash.all_zero()
            };
            let of_payload = version_rule(
                chain,
                version,
                PayloadOrAttributes::ExecutionPayload(payload),
            );
            &&& exempt ==> of_payload is Ok
            &&& !exempt ==> of_payload == withdrawals_rule(
                chain,
                version,
                MessageValidationKind::Payload,
                payload.execution_payload.timestamp,
                payload.withdrawals is Some,
            )
            &&& version_rule(chain, version, PayloadOrAttributes::PayloadAttributes(attributes))
                == withdrawals_rule(
                chain,
                version,
                MessageValidationKind::PayloadAttributes,
                attributes.timestamp,
                attributes.withdrawals is Some,
            )
        }),
{
}

/// The text of a rejection shows what was rejected: the extra data, the base fee, or the hash that
/// the block has and the one that the payload names.
pub proof fn rejections_show_what_was_rejected(
    data: Seq<u8>,
    fee: U256,
    error: Seq<char>,
    execution: B256,
    consensus: B256,
)
    ensures
        PayloadErrorView::ExtraData(data).text() == "invalid payload extra data: "@ + hex_text(data),
        PayloadErrorView::BaseFee(fee).text() == "invalid payload base fee: "@ + decimal(fee.value()),
        PayloadErrorView::Decode(error).text() == error,
        (PayloadErrorView::BlockHash { execution, consensus }).text() == "block hash mismatch: want "@
            + hex_text(execution.0@) + ", got "@ + hex_text(consensus.0@),
{
}

} // verus!
