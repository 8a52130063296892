//! Stored commitments: a block and its receipts must agree with the header before a replay takes
//! them as truth.
use crate::block::{
    all_logs, byte_views, encodings, log_views, receipt_views, transaction_views, Block, Log,
    Receipt, Transaction, TxType, EMPTY_OMMER_ROOT_HASH, EMPTY_REQUESTS_HASH,
};
use crate::block::{BlockView, HeaderView, ReceiptView};
use crate::chain::{reached, TaikoChainSpec};
use crate::commitments::{
    bloom_of_logs, borrowed_log_views, receipts_root, transactions_root, withdrawals_root,
};
use crate::commitments::{
    logs_bloom_of, receipts_root_of, transactions_root_of, withdrawals_root_of,
};
use crate::engine::types::ExecutionDataView;
use crate::engine::validator::{is_legacy, optional_withdrawals_root, sealed_payload};
use crate::error::{mismatch, mismatch_error, RpcError, RpcErrorView};
use crate::fixed::{copy_bytes, Bloom, FixedBytes, B256, ZERO_WORD};
use vstd::prelude::*;

verus! {

/// The encodings of a list of transactions.
pub fn encoded_transactions(transactions: &Vec<Transaction>) -> (r: Vec<Vec<u8>>)
    ensures
        byte_views(r@) == encodings(transaction_views(transactions@)),
{
    let mut r: Vec<Vec<u8>> = Vec::new();
    let mut i: usize = 0;
    while i < transactions.len()
        invariant
            i <= transactions.len(),
            r.len() == i,
            forall|k: int| 0 <= k < i ==> (#[trigger] r@[k])@ == transactions@[k].encoded@,
        decreases transactions.len() - i,
    {
        r.push(copy_bytes(&transactions[i].encoded));
        i = i + 1;
    }
    assert(byte_views(r@) =~= encodings(transaction_views(transactions@)));
    r
}

/// The logs of a list of receipts, in block order.
pub fn stored_logs(receipts: &Vec<Receipt>) -> (r: Vec<&Log>)
    ensures
        borrowed_log_views(r@) == all_logs(receipt_views(receipts@)),
{
    let ghost all = receipt_views(receipts@);
    let mut r: Vec<&Log> = Vec::new();
    let mut i: usize = 0;
    assert(borrowed_log_views(r@) =~= all_logs(all.take(0)));
    while i < receipts.len()
        invariant
            i <= receipts.len(),
            all == receipt_views(receipts@),
            borrowed_log_views(r@) == all_logs(all.take(i as int)),
        decreases receipts.len() - i,
    {
        let logs: &Vec<Log> = &receipts[i].logs;
        let ghost views = all[i as int].logs;
        let ghost before = all_logs(all.take(i as int));
        let mut j: usize = 0;
        assert(views.take(0) =~= seq![]);
        assert(before + views.take(0) =~= before);
        while j < logs.len()
            invariant
                j <= logs.len(),
                views == log_views(logs@),
                borrowed_log_views(r@) == before + views.take(j as int),
            decreases logs.len() - j,
        {
            let ghost earlier = r@;
            r.push(&logs[j]);
            assert(borrowed_log_views(r@) =~= borrowed_log_views(earlier).push(views[j as int]));
            assert(before + views.take(j + 1) =~= (before + views.take(j as int)).push(
                views[j as int],
            ));
            j = j + 1;
        }
        assert(views.take(j as int) =~= views);
        assert(all.take(i + 1).drop_last() =~= all.take(i as int));
        assert(all.take(i + 1).last() == all[i as int]);
        i = i + 1;
    }
    assert(all.take(i as int) =~= all);
    r
}

/// Gas used by a block: the cumulative gas of its last receipt.
pub open spec fn total_gas(receipts: Seq<ReceiptView>) -> u64 {
    if receipts.len() == 0 {
        0
    } else {
        receipts.last().cumulative_gas_used
    }
}

/// Whether a header carries the fork fields that Taiko gives it.
pub open spec fn fork_fields_hold(header: HeaderView, is_unzen_active: bool) -> bool {
    if is_unzen_active {
        &&& header.requests_hash == Some(FixedBytes::<32>(EMPTY_REQUESTS_HASH))
        &&& header.parent_beacon_block_root == Some(FixedBytes::<32>(ZERO_WORD))
        &&& header.blob_gas_used == Some(0u64)
        &&& header.excess_blob_gas == Some(0u64)
    } else {
        &&& header.requests_hash is None
        &&& header.parent_beacon_block_root is None
        &&& header.blob_gas_used is None
        &&& header.excess_blob_gas is None
        &&& header.difficulty.value() == 0
    }
}

/// What the body and the receipts of a block commit to.
pub struct StoredCommitments {
    pub transactions_root: B256,
    pub receipts_root: B256,
    pub logs_bloom: Bloom,
    pub withdrawals_root: Option<B256>,
}

/// The commitments of a body and its receipts.
pub open spec fn commitments_of(block: BlockView, receipts: Seq<ReceiptView>) -> StoredCommitments {
    StoredCommitments {
        transactions_root: transactions_root_of(encodings(block.transactions)),
        receipts_root: receipts_root_of(receipts),
        logs_bloom: logs_bloom_of(all_logs(receipts)),
        withdrawals_root: optional_withdrawals_root(block.withdrawals),
    }
}

/// Whether a header agrees with the block's body, its receipts and what they commit to.
pub open spec fn consensus_holds(
    block: BlockView,
    receipts: Seq<ReceiptView>,
    stored: StoredCommitments,
    is_unzen_active: bool,
) -> bool {
    let header = block.header;
    &&& block.transactions.len() == receipts.len()
    &&& header.transactions_root == stored.transactions_root
    &&& header.receipts_root == stored.receipts_root
    &&& header.logs_bloom == stored.logs_bloom
    &&& header.gas_used == total_gas(receipts)
    &&& block.ommers == 0
    &&& header.ommers_hash == FixedBytes::<32>(EMPTY_OMMER_ROOT_HASH)
    &&& header.withdrawals_root == stored.withdrawals_root
    &&& is_unzen_active ==> block.withdrawals is Some && header.withdrawals_root is Some
    &&& fork_fields_hold(header, is_unzen_active)
    &&& header.block_access_list_hash is None
    &&& header.slot_number is None
}

/// The error for a block whose stored data and header disagree.
pub open spec fn stored_mismatch() -> RpcErrorView {
    mismatch("stored body/receipts or protocol commitments do not match the header"@)
}

/// Checks a header against the block's body, its receipts and what they commit to.
pub fn check_stored_commitments(
    block: &Block,
    receipts: &Vec<Receipt>,
    stored: &StoredCommitments,
    is_unzen_active: bool,
) -> (r: Result<(), RpcError>)
    ensures
        r is Ok <==> consensus_holds(block@, receipt_views(receipts@), *stored, is_unzen_active),
        r matches Err(error) ==> error@ == stored_mismatch(),
{
    let header = &block.header;
    let cumulative_gas: u64 = if receipts.len() == 0 {
        0
    } else {
        receipts[receipts.len() - 1].cumulative_gas_used
    };
    let ommers_are_empty = block.ommers.len() == 0 && header.ommers_hash == FixedBytes(
        EMPTY_OMMER_ROOT_HASH,
    );
    let withdrawals_match = stored.withdrawals_root == header.withdrawals_root;
    let withdrawals_are_present = !is_unzen_active || (block.withdrawals.is_some()
        && header.withdrawals_root.is_some());
    let fork_fields_are_valid = if is_unzen_active {
        header.requests_hash == Some(FixedBytes(EMPTY_REQUESTS_HASH))
            && header.parent_beacon_block_root == Some(FixedBytes(ZERO_WORD))
            && header.blob_gas_used == Some(0u64) && header.excess_blob_gas == Some(0u64)
    } else {
        header.requests_hash.is_none() && header.parent_beacon_block_root.is_none()
            && header.blob_gas_used.is_none() && header.excess_blob_gas.is_none()
            && header.difficulty.is_zero()
    };
    let protocol_fields_are_valid = fork_fields_are_valid && header.block_access_list_hash.is_none()
        && header.slot_number.is_none();
    if block.transactions.len() != receipts.len() || stored.transactions_root
        != header.transactions_root || stored.receipts_root != header.receipts_root
        || stored.logs_bloom != header.logs_bloom || cumulative_gas != header.gas_used
        || !ommers_are_empty || !withdrawals_match || !withdrawals_are_present
        || !protocol_fields_are_valid {
        return Err(
            mismatch_error(
                String::from_str(
                    "stored body/receipts or protocol commitments do not match the header",
                ),
            ),
        );
    }
    Ok(())
}

/// Verifies body and stored receipt commitments before replay uses them as truth.
pub fn validate_stored_consensus(
    block: &Block,
    receipts: &Vec<Receipt>,
    is_unzen_active: bool,
) -> (r: Result<(), RpcError>)
    ensures
        r is Ok <==> consensus_holds(
            block@,
            receipt_views(receipts@),
            commitments_of(block@, receipt_views(receipts@)),
            is_unzen_active,
        ),
        r matches Err(error) ==> error@ == stored_mismatch(),
{
    let stored = StoredCommitments {
        transactions_root: transactions_root(&encoded_transactions(&block.transactions)),
        receipts_root: receipts_root(receipts),
        logs_bloom: bloom_of_logs(&stored_logs(receipts)),
        withdrawals_root: match &block.withdrawals {
            Some(withdrawals) => Some(withdrawals_root(withdrawals)),
            None => None,
        },
    };
    check_stored_commitments(block, receipts, &stored, is_unzen_active)
}

/// The block of a complete payload satisfies every rule that stored blocks must satisfy apart from
/// what its transactions and receipts decide. Before Unzen its difficulty has to be zero.
pub proof fn payload_blocks_keep_the_stored_rules(
    chain: TaikoChainSpec,
    data: ExecutionDataView,
    receipts: Seq<ReceiptView>,
)
    requires
        sealed_payload(chain, data) is Ok,
        !is_legacy(data),
        reached(chain.unzen_time, data.execution_payload.timestamp) || (
        data.taiko_sidecar.header_difficulty matches Some(difficulty) ==> difficulty.value() == 0),
    ensures
        ({
            let block = sealed_payload(chain, data)->Ok_0.0;
            let stored = commitments_of(block, receipts);
            let header = block.header;
            consensus_holds(
                block,
                receipts,
                stored,
                reached(chain.unzen_time, header.timestamp),
            ) <==> {
                &&& block.transactions.len() == receipts.len()
                &&& header.transactions_root == stored.transactions_root
                &&& header.receipts_root == stored.receipts_root
                &&& header.logs_bloom == stored.logs_bloom
                &&& header.gas_used == total_gas(receipts)
            }
        }),
{
}

/// Returns whether a transaction is unsupported by Taiko's canonical execution path.
pub fn is_unsupported_debank_transaction(transaction: &Transaction) -> (r: bool)
    ensures
        r == (transaction.tx_type == TxType::Eip4844),
{
    transaction.tx_type == TxType::Eip4844
}

/// The error for a block with a transaction that Taiko does not execute.
pub open spec fn unsupported_transaction() -> RpcErrorView {
    mismatch("transaction type 3 is unsupported by Taiko"@)
}

/// Rejects a block with a blob transaction.
pub fn check_transaction_types(transactions: &Vec<Transaction>) -> (r: Result<(), RpcError>)
    ensures
        r is Ok <==> forall|i: int|
            0 <= i < transactions.len() ==> (#[trigger] transactions@[i]).tx_type
                != TxType::Eip4844,
        r matches Err(error) ==> error@ == unsupported_transaction(),
{
    let mut i: usize = 0;
    while i < transactions.len()
        invariant
            i <= transactions.len(),
            forall|k: int| 0 <= k < i ==> (#[trigger] transactions@[k]).tx_type != TxType::Eip4844,
        decreases transactions.len() - i,
    {
        if is_unsupported_debank_transaction(&transactions[i]) {
            assert(transactions@[i as int].tx_type == TxType::Eip4844);
            return Err(
                mismatch_error(String::from_str("transaction type 3 is unsupported by Taiko")),
            );
        }
        i = i + 1;
    }
    Ok(())
}

/// The header of a block that agrees with its stored data has the roots of its transactions, receipts
/// and withdrawals, the bloom of its logs, the gas of its last receipt, no ommers and the fields of
/// its fork.
pub proof fn sound_headers_follow_from_the_stored_data(
    block: BlockView,
    receipts: Seq<ReceiptView>,
    is_unzen_active: bool,
)
    requires
        consensus_holds(block, receipts, commitments_of(block, receipts), is_unzen_active),
    ensures
        ({
            let header = block.header;
            &&& receipts.len() == block.transactions.len()
            &&& header.transactions_root == transactions_root_of(
                Seq::new(block.transactions.len(), |i: int| block.transactions[i].encoded),
            )
            &&& header.receipts_root == receipts_root_of(receipts)
            &&& header.logs_bloom == logs_bloom_of(all_logs(receipts))
            &&& receipts.len() == 0 ==> header.gas_used == 0
            &&& receipts.len() > 0 ==> header.gas_used == receipts[receipts.len()
                - 1].cumulative_gas_used
            &&& block.ommers == 0
            &&& header.ommers_hash.0@ == EMPTY_OMMER_ROOT_HASH@
            &&& block.withdrawals is None ==> header.withdrawals_root is None && !is_unzen_active
            &&& block.withdrawals matches Some(withdrawals) ==> header.withdrawals_root == Some(
                withdrawals_root_of(withdrawals),
            )
            &&& header.block_access_list_hash is None
            &&& header.slot_number is None
            &&& is_unzen_active ==> {
                &&& header.requests_hash matches Some(requests)
                &&& requests.0@ == EMPTY_REQUESTS_HASH@
                &&& header.parent_beacon_block_root matches Some(beacon)
                &&& beacon.all_zero()
                &&& header.blob_gas_used == Some(0u64)
                &&& header.excess_blob_gas == Some(0u64)
            }
            &&& !is_unzen_active ==> {
                &&& header.requests_hash is None
                &&& header.parent_beacon_block_root is None
                &&& header.blob_gas_used is None
                &&& header.excess_blob_gas is None
                &&& header.difficulty.value() == 0
            }
        }),
{
}

/// A body with its receipts agrees with one set of header fields at most: two headers that both agree
/// with it differ in nothing that it or the fork decides.
pub proof fn stored_data_decide_the_header(
    block: BlockView,
    other: HeaderView,
    receipts: Seq<ReceiptView>,
    is_unzen_active: bool,
)
    requires
        consensus_holds(block, receipts, commitments_of(block, receipts), is_unzen_active),
    ensures
        consensus_holds(
            BlockView { header: other, ..block },
            receipts,
            commitments_of(BlockView { header: other, ..block }, receipts),
            is_unzen_active,
        ) <==> {
            let header = block.header;
            &&& other.transactions_root == header.transactions_root
            &&& other.receipts_root == header.receipts_root
            &&& other.logs_bloom == header.logs_bloom
            &&& other.gas_used == header.gas_used
            &&& other.ommers_hash == header.ommers_hash
            &&& other.withdrawals_root == header.withdrawals_root
            &&& other.requests_hash == header.requests_hash
            &&& other.parent_beacon_block_root == header.parent_beacon_block_root
            &&& other.blob_gas_used == header.blob_gas_used
            &&& other.excess_blob_gas == header.excess_blob_gas
            &&& other.block_access_list_hash == header.block_access_list_hash
            &&& other.slot_number == header.slot_number
            &&& !is_unzen_active ==> other.difficulty.value() == header.difficulty.value()
        },
{
}

} // verus!
