//! Hashes, roots, signatures and fees that the Ethereum crates compute.
//!
//! Each function here makes one call into an outside crate. Its contract is what the rest of the
//! crate believes of that call.
use crate::block::{
    byte_views, receipt_views, Header, Log, Receipt, Transaction, TxType, Withdrawal,
};
use crate::block::{HeaderView, LogView, ReceiptView, TransactionView};
use crate::fixed::{Address, Bloom, FixedBytes, B256, U256};
use crate::text::decimal;
use alloy_consensus::proofs::{calculate_withdrawals_root, ordered_trie_root_encoded};
use alloy_consensus::transaction::SignerRecoverable;
use alloy_consensus::{EthereumReceipt, EthereumTxEnvelope, Transaction as AlloyTransaction, TxEip4844};
use alloy_eips::eip1559::calc_effective_gas_price;
use alloy_eips::eip2718::{Decodable2718, Encodable2718};
use alloy_eips::eip4895::Withdrawal as AlloyWithdrawal;
use alloy_eips::eip7685::Requests;
use alloy_eips::Typed2718;
use alloy_primitives::{logs_bloom, Log as AlloyLog, U256 as AlloyU256};
use vstd::prelude::*;

verus! {

/// Keccak-256 of the RLP encoding of a header.
pub uninterp spec fn header_hash(header: HeaderView) -> B256;

/// Root of the ordered trie of transaction encodings.
pub uninterp spec fn transactions_root_of(encodings: Seq<Seq<u8>>) -> B256;

/// Root of the ordered trie of receipts, each encoded with its bloom.
pub uninterp spec fn receipts_root_of(receipts: Seq<ReceiptView>) -> B256;

/// Bloom filter of a list of logs.
pub uninterp spec fn logs_bloom_of(logs: Seq<LogView>) -> Bloom;

/// Root of the ordered trie of withdrawals.
pub uninterp spec fn withdrawals_root_of(withdrawals: Seq<Withdrawal>) -> B256;

/// Hash of a list of execution requests.
pub uninterp spec fn requests_hash_of(requests: Seq<Seq<u8>>) -> B256;

/// The transaction that an EIP-2718 encoding stands for, or the decoder's error text.
pub uninterp spec fn decoded_transaction(encoded: Seq<u8>) -> Result<TransactionView, Seq<char>>;

/// The signer of an encoded transaction, if its signature is valid.
pub uninterp spec fn recovered_signer(encoded: Seq<u8>) -> Option<Address>;

/// The address of the contract that an account creates with a nonce.
pub uninterp spec fn created_address(signer: Address, nonce: u64) -> Address;

/// What an optional hash is, given as an array.
pub open spec fn optional_fixed(hash: Option<[u8; 32]>) -> Option<B256> {
    match hash {
        Some(bytes) => Some(FixedBytes(bytes)),
        None => None,
    }
}

/// An optional hash as an array.
fn optional_array(hash: Option<B256>) -> (r: Option<[u8; 32]>)
    ensures
        optional_fixed(r) == hash,
{
    match hash {
        Some(hash) => Some(hash.0),
        None => None,
    }
}

impl Header {
    /// The hash of the block with this header.
    pub fn hash_slow(&self) -> (r: B256)
        ensures
            r == header_hash(self@),
    {
        FixedBytes(
            alloy_header_hash(
                self.parent_hash.0,
                self.ommers_hash.0,
                self.beneficiary.0,
                self.state_root.0,
                self.transactions_root.0,
                self.receipts_root.0,
                self.logs_bloom.0,
                self.difficulty,
                self.number,
                self.gas_limit,
                self.gas_used,
                self.timestamp,
                &self.extra_data,
                self.mix_hash.0,
                self.nonce.0,
                self.base_fee_per_gas,
                optional_array(self.withdrawals_root),
                self.blob_gas_used,
                self.excess_blob_gas,
                optional_array(self.parent_beacon_block_root),
                optional_array(self.requests_hash),
                optional_array(self.block_access_list_hash),
                self.slot_number,
            ),
        )
    }
}

/// Hashes a header with `alloy_consensus::Header::hash_slow`.
///
/// The hash is a function of the header's fields; that different headers have different hashes is
/// not said.
#[verifier::external_body]
fn alloy_header_hash(
    parent_hash: [u8; 32],
    ommers_hash: [u8; 32],
    beneficiary: [u8; 20],
    state_root: [u8; 32],
    transactions_root: [u8; 32],
    receipts_root: [u8; 32],
    logs_bloom: [u8; 256],
    difficulty: U256,
    number: u64,
    gas_limit: u64,
    gas_used: u64,
    timestamp: u64,
    extra_data: &Vec<u8>,
    mix_hash: [u8; 32],
    nonce: [u8; 8],
    base_fee_per_gas: Option<u64>,
    withdrawals_root: Option<[u8; 32]>,
    blob_gas_used: Option<u64>,
    excess_blob_gas: Option<u64>,
    parent_beacon_block_root: Option<[u8; 32]>,
    requests_hash: Option<[u8; 32]>,
    block_access_list_hash: Option<[u8; 32]>,
    slot_number: Option<u64>,
) -> (r: [u8; 32])
    ensures
        FixedBytes(r) == header_hash(
            (HeaderView {
                parent_hash: FixedBytes(parent_hash),
                ommers_hash: FixedBytes(ommers_hash),
                beneficiary: FixedBytes(beneficiary),
                state_root: FixedBytes(state_root),
                transactions_root: FixedBytes(transactions_root),
                receipts_root: FixedBytes(receipts_root),
                logs_bloom: FixedBytes(logs_bloom),
                difficulty,
                number,
                gas_limit,
                gas_used,
                timestamp,
                extra_data: extra_data@,
                mix_hash: FixedBytes(mix_hash),
                nonce: FixedBytes(nonce),
                base_fee_per_gas,
                withdrawals_root: optional_fixed(withdrawals_root),
                blob_gas_used,
                excess_blob_gas,
                parent_beacon_block_root: optional_fixed(parent_beacon_block_root),
                requests_hash: optional_fixed(requests_hash),
                block_access_list_hash: optional_fixed(block_access_list_hash),
                slot_number,
            }),
        ),
{
    alloy_consensus::Header {
        parent_hash: parent_hash.into(), ommers_hash: ommers_hash.into(),
        beneficiary: beneficiary.into(), state_root: state_root.into(),
        transactions_root: transactions_root.into(), receipts_root: receipts_root.into(),
        logs_bloom: logs_bloom.into(), number, gas_limit, gas_used, timestamp,
        difficulty: AlloyU256::from_limbs([difficulty.0, difficulty.1, difficulty.2, difficulty.3]),
        extra_data: extra_data.clone().into(), mix_hash: mix_hash.into(), nonce: nonce.into(),
        base_fee_per_gas, withdrawals_root: withdrawals_root.map(Into::into),
        blob_gas_used, excess_blob_gas, slot_number,
        parent_beacon_block_root: parent_beacon_block_root.map(Into::into),
        requests_hash: requests_hash.map(Into::into),
        block_access_list_hash: block_access_list_hash.map(Into::into),
    }.hash_slow().0
}

/// Computes the root of a list of encoded transactions with
/// `alloy_consensus::proofs::ordered_trie_root_encoded`.
///
/// The root is a function of the encodings and their order.
#[verifier::external_body]
pub(crate) fn transactions_root(encodings: &Vec<Vec<u8>>) -> (r: B256)
    ensures
        r == transactions_root_of(byte_views(encodings@)),
{
    FixedBytes(ordered_trie_root_encoded(encodings).0)
}

/// Computes the root of a list of receipts with
/// `alloy_consensus::EthereumReceipt::calculate_receipt_root_no_memo`.
///
/// The root is a function of the receipts and their order.
#[verifier::external_body]
pub(crate) fn receipts_root(receipts: &Vec<Receipt>) -> (r: B256)
    ensures
        r == receipts_root_of(receipt_views(receipts@)),
{
    let receipts: Vec<EthereumReceipt> = receipts.iter().map(|receipt| EthereumReceipt {
        tx_type: (receipt.tx_type as u8).try_into().unwrap(),
        success: receipt.success,
        cumulative_gas_used: receipt.cumulative_gas_used,
        logs: receipt.logs.iter().map(|log| AlloyLog::new_unchecked(
            log.address.0.into(),
            log.topics.iter().map(|topic| topic.0.into()).collect(),
            log.data.clone().into(),
        )).collect(),
    }).collect();
    FixedBytes(EthereumReceipt::calculate_receipt_root_no_memo(&receipts).0)
}

/// What a list of borrowed logs says.
pub open spec fn borrowed_log_views(logs: Seq<&Log>) -> Seq<LogView> {
    Seq::new(logs.len(), |i: int| logs[i]@)
}

/// Computes the bloom filter of a list of logs with `alloy_primitives::logs_bloom`.
///
/// The filter is a function of the logs.
#[verifier::external_body]
pub(crate) fn bloom_of_logs(logs: &Vec<&Log>) -> (r: Bloom)
    ensures
        r == logs_bloom_of(borrowed_log_views(logs@)),
{
    let logs: Vec<AlloyLog> = logs.iter().map(|log| AlloyLog::new_unchecked(
        log.address.0.into(),
        log.topics.iter().map(|topic| topic.0.into()).collect(),
        log.data.clone().into(),
    )).collect();
    FixedBytes(logs_bloom(&logs).into_array())
}

/// Computes the root of a list of withdrawals with
/// `alloy_consensus::proofs::calculate_withdrawals_root`.
///
/// The root is a function of the withdrawals and their order.
#[verifier::external_body]
pub(crate) fn withdrawals_root(withdrawals: &Vec<Withdrawal>) -> (r: B256)
    ensures
        r == withdrawals_root_of(withdrawals@),
{
    let withdrawals: Vec<AlloyWithdrawal> = withdrawals.iter().map(|withdrawal| AlloyWithdrawal {
        index: withdrawal.index,
        validator_index: withdrawal.validator_index,
        address: withdrawal.address.0.into(),
        amount: withdrawal.amount,
    }).collect();
    FixedBytes(calculate_withdrawals_root(&withdrawals).0)
}

/// Hashes a list of execution requests with `alloy_eips::eip7685::Requests::requests_hash`.
///
/// The hash is a function of the requests.
#[verifier::external_body]
pub(crate) fn requests_hash(requests: &Vec<Vec<u8>>) -> (r: B256)
    ensures
        r == requests_hash_of(byte_views(requests@)),
{
    let requests = requests.iter().map(|request| request.clone().into()).collect();
    FixedBytes(Requests::new(requests).requests_hash().0)
}

/// What a decoding result says.
pub open spec fn decoding_view(r: Result<Transaction, String>) -> Result<
    TransactionView,
    Seq<char>,
> {
    match r {
        Ok(transaction) => Ok(transaction@),
        Err(error) => Err(error@),
    }
}

/// Decodes one transaction with `EthereumTxEnvelope::<TxEip4844>::decode_2718_exact` and reads its
/// fields, or gives the text of the `alloy_rlp::Error` that its error turns into.
///
/// The result is a function of the bytes.
#[verifier::external_body]
pub(crate) fn decode_transaction(encoded: &Vec<u8>) -> (r: Result<Transaction, String>)
    ensures
        decoding_view(r) == decoded_transaction(encoded@),
{
    let tx = EthereumTxEnvelope::<TxEip4844>::decode_2718_exact(encoded)
        .map_err(|error| alloy_rlp::Error::from(error).to_string())?;
    let value = tx.value().into_limbs();
    Ok(Transaction {
        hash: FixedBytes(tx.tx_hash().0), encoded: tx.encoded_2718(),
        tx_type: [
            TxType::Legacy, TxType::Eip2930, TxType::Eip1559, TxType::Eip4844, TxType::Eip7702,
        ][tx.ty() as usize],
        to: tx.to().map(|to| FixedBytes(to.into_array())),
        nonce: tx.nonce(), gas_limit: tx.gas_limit(), max_fee_per_gas: tx.max_fee_per_gas(),
        max_priority_fee_per_gas: tx.max_priority_fee_per_gas(),
        value: U256(value[0], value[1], value[2], value[3]), input: tx.input().to_vec(),
    })
}

/// Recovers the signer of an encoded transaction with
/// `alloy_consensus::transaction::SignerRecoverable::recover_signer`, which rejects signatures
/// with a high `s` value.
///
/// The result is a function of the bytes.
#[verifier::external_body]
pub(crate) fn recover_signer(encoded: &Vec<u8>) -> (r: Option<Address>)
    ensures
        r == recovered_signer(encoded@),
{
    let tx = EthereumTxEnvelope::<TxEip4844>::decode_2718_exact(encoded).ok()?;
    tx.recover_signer().ok().map(|signer| FixedBytes(signer.into_array()))
}

/// Derives the address of a created contract with `alloy_primitives::Address::create`.
///
/// The address is a function of the signer and the nonce.
#[verifier::external_body]
pub(crate) fn create_address(signer: Address, nonce: u64) -> (r: Address)
    ensures
        r == created_address(signer, nonce),
{
    FixedBytes(alloy_primitives::Address::from(signer.0).create(nonce).into_array())
}

/// The gas price that a transaction with fee caps pays: its fee cap, or its tip cap on top of the
/// base fee if that is less.
pub open spec fn capped_price(max_fee: u128, max_tip: u128, base_fee: Option<u64>) -> int {
    match base_fee {
        Some(base_fee) if max_tip + base_fee < max_fee => max_tip + base_fee,
        _ => max_fee as int,
    }
}

/// Computes a gas price with `alloy_eips::eip1559::calc_effective_gas_price`: without a base fee
/// the fee cap, otherwise the lesser of the fee cap and the tip cap plus the base fee.
#[verifier::external_body]
pub(crate) fn effective_gas_price(
    max_fee: u128,
    max_tip: u128,
    base_fee: Option<u64>,
) -> (r: u128)
    ensures
        r == capped_price(max_fee, max_tip, base_fee),
{
    calc_effective_gas_price(max_fee, max_tip, base_fee)
}

/// Writes an integer with the `Display` of `alloy_primitives::U256`: its decimal numeral.
#[verifier::external_body]
pub(crate) fn u256_string(n: &U256) -> (r: String)
    ensures
        r@ == decimal(n.value()),
{
    AlloyU256::from_limbs([n.0, n.1, n.2, n.3]).to_string()
}

} // verus!
