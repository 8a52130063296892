//! Blocks, transactions and receipts as plain values.
use crate::fixed::{Address, Bloom, B256, B64, U256};
use vstd::prelude::*;

verus! {

/// Root of a trie that holds nothing: the transactions, receipts or withdrawals root of an empty
/// list.
pub const EMPTY_ROOT_HASH: [u8; 32] = [
    0x56, 0xe8, 0x1f, 0x17, 0x1b, 0xcc, 0x55, 0xa6, 0xff, 0x83, 0x45, 0xe6, 0x92, 0xc0, 0xf8, 0x6e,
    0x5b, 0x48, 0xe0, 0x1b, 0x99, 0x6c, 0xad, 0xc0, 0x01, 0x62, 0x2f, 0xb5, 0xe3, 0x63, 0xb4, 0x21,
];

/// Hash of an empty list of ommers.
pub const EMPTY_OMMER_ROOT_HASH: [u8; 32] = [
    0x1d, 0xcc, 0x4d, 0xe8, 0xde, 0xc7, 0x5d, 0x7a, 0xab, 0x85, 0xb5, 0x67, 0xb6, 0xcc, 0xd4, 0x1a,
    0xd3, 0x12, 0x45, 0x1b, 0x94, 0x8a, 0x74, 0x13, 0xf0, 0xa1, 0x42, 0xfd, 0x40, 0xd4, 0x93, 0x47,
];

/// Hash of an empty list of execution requests.
pub const EMPTY_REQUESTS_HASH: [u8; 32] = [
    0xe3, 0xb0, 0xc4, 0x42, 0x98, 0xfc, 0x1c, 0x14, 0x9a, 0xfb, 0xf4, 0xc8, 0x99, 0x6f, 0xb9, 0x24,
    0x27, 0xae, 0x41, 0xe4, 0x64, 0x9b, 0x93, 0x4c, 0xa4, 0x95, 0x99, 0x1b, 0x78, 0x52, 0xb8, 0x55,
];

/// Greatest length of a header's extra data.
pub const MAXIMUM_EXTRA_DATA_SIZE: usize = 32;

/// Transaction types.
#[derive(Clone, Copy, Debug, PartialEq, Eq, Structural)]
pub enum TxType {
    Legacy,
    Eip2930,
    Eip1559,
    Eip4844,
    Eip7702,
}

/// A signed transaction: what is read of it, and its EIP-2718 encoding.
#[derive(Debug)]
pub struct Transaction {
    /// Hash of the signed transaction.
    pub hash: B256,
    /// EIP-2718 encoding of the signed transaction.
    pub encoded: Vec<u8>,
    /// Type of the transaction.
    pub tx_type: TxType,
    /// Recipient, or nothing for a contract creation.
    pub to: Option<Address>,
    pub nonce: u64,
    pub gas_limit: u64,
    /// Fee cap; the gas price of a transaction without fee caps.
    pub max_fee_per_gas: u128,
    /// Tip cap of a transaction with fee caps.
    pub max_priority_fee_per_gas: Option<u128>,
    pub value: U256,
    pub input: Vec<u8>,
}

/// What a [`Transaction`] says.
#[verifier::ext_equal]
pub struct TransactionView {
    pub hash: B256,
    pub encoded: Seq<u8>,
    pub tx_type: TxType,
    pub to: Option<Address>,
    pub nonce: u64,
    pub gas_limit: u64,
    pub max_fee_per_gas: u128,
    pub max_priority_fee_per_gas: Option<u128>,
    pub value: U256,
    pub input: Seq<u8>,
}

impl View for Transaction {
    type V = TransactionView;

    open spec fn view(&self) -> TransactionView {
        TransactionView {
            hash: self.hash,
            encoded: self.encoded@,
            tx_type: self.tx_type,
            to: self.to,
            nonce: self.nonce,
            gas_limit: self.gas_limit,
            max_fee_per_gas: self.max_fee_per_gas,
            max_priority_fee_per_gas: self.max_priority_fee_per_gas,
            value: self.value,
            input: self.input@,
        }
    }
}

/// What a list of transactions says.
pub open spec fn transaction_views(transactions: Seq<Transaction>) -> Seq<TransactionView> {
    Seq::new(transactions.len(), |i: int| transactions[i]@)
}

/// The encodings of a list of transactions.
pub open spec fn encodings(transactions: Seq<TransactionView>) -> Seq<Seq<u8>> {
    Seq::new(transactions.len(), |i: int| transactions[i].encoded)
}

/// What a list of byte strings holds.
pub open spec fn byte_views(list: Seq<Vec<u8>>) -> Seq<Seq<u8>> {
    Seq::new(list.len(), |i: int| list[i]@)
}

/// A consensus-layer withdrawal.
#[derive(Clone, Copy, Debug)]
pub struct Withdrawal {
    pub index: u64,
    pub validator_index: u64,
    pub address: Address,
    pub amount: u64,
}

/// What an optional list of withdrawals holds.
pub open spec fn withdrawal_list(withdrawals: Option<Vec<Withdrawal>>) -> Option<Seq<Withdrawal>> {
    match withdrawals {
        Some(withdrawals) => Some(withdrawals@),
        None => None,
    }
}

/// An event log.
#[derive(Debug)]
pub struct Log {
    pub address: Address,
    pub topics: Vec<B256>,
    pub data: Vec<u8>,
}

/// What a [`Log`] says.
#[verifier::ext_equal]
pub struct LogView {
    pub address: Address,
    pub topics: Seq<B256>,
    pub data: Seq<u8>,
}

impl View for Log {
    type V = LogView;

    open spec fn view(&self) -> LogView {
        LogView { address: self.address, topics: self.topics@, data: self.data@ }
    }
}

/// What a list of logs says.
pub open spec fn log_views(logs: Seq<Log>) -> Seq<LogView> {
    Seq::new(logs.len(), |i: int| logs[i]@)
}

/// A stored transaction receipt.
#[derive(Debug)]
pub struct Receipt {
    pub tx_type: TxType,
    pub success: bool,
    pub cumulative_gas_used: u64,
    pub logs: Vec<Log>,
}

/// What a [`Receipt`] says.
#[verifier::ext_equal]
pub struct ReceiptView {
    pub tx_type: TxType,
    pub success: bool,
    pub cumulative_gas_used: u64,
    pub logs: Seq<LogView>,
}

impl View for Receipt {
    type V = ReceiptView;

    open spec fn view(&self) -> ReceiptView {
        ReceiptView {
            tx_type: self.tx_type,
            success: self.success,
            cumulative_gas_used: self.cumulative_gas_used,
            logs: log_views(self.logs@),
        }
    }
}

/// What a list of receipts says.
pub open spec fn receipt_views(receipts: Seq<Receipt>) -> Seq<ReceiptView> {
    Seq::new(receipts.len(), |i: int| receipts[i]@)
}

/// The logs of a list of receipts, in block order.
pub open spec fn all_logs(receipts: Seq<ReceiptView>) -> Seq<LogView>
    decreases receipts.len(),
{
    if receipts.len() == 0 {
        seq![]
    } else {
        all_logs(receipts.drop_last()) + receipts.last().logs
    }
}

/// A block header.
#[derive(Debug)]
pub struct Header {
    pub parent_hash: B256,
    pub ommers_hash: B256,
    pub beneficiary: Address,
    pub state_root: B256,
    pub transactions_root: B256,
    pub receipts_root: B256,
    pub logs_bloom: Bloom,
    pub difficulty: U256,
    pub number: u64,
    pub gas_limit: u64,
    pub gas_used: u64,
    pub timestamp: u64,
    pub extra_data: Vec<u8>,
    pub mix_hash: B256,
    pub nonce: B64,
    pub base_fee_per_gas: Option<u64>,
    pub withdrawals_root: Option<B256>,
    pub blob_gas_used: Option<u64>,
    pub excess_blob_gas: Option<u64>,
    pub parent_beacon_block_root: Option<B256>,
    pub requests_hash: Option<B256>,
    pub block_access_list_hash: Option<B256>,
    pub slot_number: Option<u64>,
}

/// What a [`Header`] says.
#[verifier::ext_equal]
pub struct HeaderView {
    pub parent_hash: B256,
    pub ommers_hash: B256,
    pub beneficiary: Address,
    pub state_root: B256,
    pub transactions_root: B256,
    pub receipts_root: B256,
    pub logs_bloom: Bloom,
    pub difficulty: U256,
    pub number: u64,
    pub gas_limit: u64,
    pub gas_used: u64,
    pub timestamp: u64,
    pub extra_data: Seq<u8>,
    pub mix_hash: B256,
    pub nonce: B64,
    pub base_fee_per_gas: Option<u64>,
    pub withdrawals_root: Option<B256>,
    pub blob_gas_used: Option<u64>,
    pub excess_blob_gas: Option<u64>,
    pub parent_beacon_block_root: Option<B256>,
    pub requests_hash: Option<B256>,
    pub block_access_list_hash: Option<B256>,
    pub slot_number: Option<u64>,
}

impl View for Header {
    type V = HeaderView;

    open spec fn view(&self) -> HeaderView {
        HeaderView {
            parent_hash: self.parent_hash,
            ommers_hash: self.ommers_hash,
            beneficiary: self.beneficiary,
            state_root: self.state_root,
            transactions_root: self.transactions_root,
            receipts_root: self.receipts_root,
            logs_bloom: self.logs_bloom,
            difficulty: self.difficulty,
            number: self.number,
            gas_limit: self.gas_limit,
            gas_used: self.gas_used,
            timestamp: self.timestamp,
            extra_data: self.extra_data@,
            mix_hash: self.mix_hash,
            nonce: self.nonce,
            base_fee_per_gas: self.base_fee_per_gas,
            withdrawals_root: self.withdrawals_root,
            blob_gas_used: self.blob_gas_used,
            excess_blob_gas: self.excess_blob_gas,
            parent_beacon_block_root: self.parent_beacon_block_root,
            requests_hash: self.requests_hash,
            block_access_list_hash: self.block_access_list_hash,
            slot_number: self.slot_number,
        }
    }
}

/// A block.
#[derive(Debug)]
pub struct Block {
    pub header: Header,
    pub transactions: Vec<Transaction>,
    pub ommers: Vec<Header>,
    pub withdrawals: Option<Vec<Withdrawal>>,
}

/// What a [`Block`] says. Of its ommers only their number is read.
#[verifier::ext_equal]
pub struct BlockView {
    pub header: HeaderView,
    pub transactions: Seq<TransactionView>,
    pub ommers: nat,
    pub withdrawals: Option<Seq<Withdrawal>>,
}

impl View for Block {
    type V = BlockView;

    open spec fn view(&self) -> BlockView {
        BlockView {
            header: self.header@,
            transactions: transaction_views(self.transactions@),
            ommers: self.ommers@.len(),
            withdrawals: withdrawal_list(self.withdrawals),
        }
    }
}

/// A block with its hash.
#[derive(Debug)]
pub struct SealedBlock {
    pub block: Block,
    pub hash: B256,
}

/// A block with its hash and the signers of its transactions.
#[derive(Debug)]
pub struct RecoveredBlock {
    pub block: Block,
    pub hash: B256,
    pub senders: Vec<Address>,
}

impl RecoveredBlock {
    /// Every transaction has a signer.
    pub open spec fn well_formed(self) -> bool {
        self.senders@.len() == self.block.transactions@.len()
    }
}

/// The logs of a block are those of its receipts one after the other, each receipt's in its order:
/// those of two lists of receipts follow each other, and those of one receipt are its own.
pub proof fn logs_follow_the_receipts(a: Seq<ReceiptView>, b: Seq<ReceiptView>, one: ReceiptView)
    ensures
        all_logs(a + b) == all_logs(a) + all_logs(b),
        all_logs(seq![one]) == one.logs,
    decreases b.len(),
{
    assert(seq![one].drop_last() =~= seq![]);
    reveal_with_fuel(all_logs, 2);
    assert(all_logs(seq![one]) =~= one.logs);
    if b.len() == 0 {
        assert(a + b =~= a);
        assert(all_logs(a) + all_logs(b) =~= all_logs(a));
    } else {
        logs_follow_the_receipts(a, b.drop_last(), one);
        assert((a + b).drop_last() =~= a + b.drop_last());
        assert((a + b).last() == b.last());
        assert(all_logs(a + b) =~= all_logs(a) + all_logs(b));
    }
}

/// There is one encoding for each transaction, at its position.
pub proof fn encodings_keep_positions(transactions: Seq<TransactionView>)
    ensures
        encodings(transactions).len() == transactions.len(),
        forall|i: int|
            0 <= i < transactions.len() ==> encodings(transactions)[i] == (
            #[trigger] transactions[i]).encoded,
{
}

/// What a list says, it says position by position.
pub proof fn views_keep_positions(
    transactions: Seq<Transaction>,
    receipts: Seq<Receipt>,
    logs: Seq<Log>,
    bytes: Seq<Vec<u8>>,
)
    ensures
        transaction_views(transactions).len() == transactions.len(),
        forall|i: int|
            0 <= i < transactions.len() ==> transaction_views(transactions)[i] == (
            #[trigger] transactions[i])@,
        receipt_views(receipts).len() == receipts.len(),
        forall|i: int|
            0 <= i < receipts.len() ==> receipt_views(receipts)[i] == (#[trigger] receipts[i])@,
        log_views(logs).len() == logs.len(),
        forall|i: int| 0 <= i < logs.len() ==> log_views(logs)[i] == (#[trigger] logs[i])@,
        byte_views(bytes).len() == bytes.len(),
        forall|i: int| 0 <= i < bytes.len() ==> byte_views(bytes)[i] == (#[trigger] bytes[i])@,
{
}

} // verus!
