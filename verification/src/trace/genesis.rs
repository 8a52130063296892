//! The Genesis block, whose output comes from the chain's allocation instead of a replay.
use crate::block::{receipt_views, Block, Receipt, EMPTY_ROOT_HASH};
use crate::block::{BlockView, ReceiptView};
use crate::error::{mismatch, mismatch_error, RpcError};
use crate::fixed::{FixedBytes, B256};
use crate::text::{hex_string, hex_text};
use vstd::prelude::*;

verus! {

/// Whether a block has nothing but a state: no transactions, receipts, logs or gas.
pub open spec fn is_empty_block(block: BlockView, receipts: Seq<ReceiptView>) -> bool {
    &&& block.transactions.len() == 0
    &&& receipts.len() == 0
    &&& block.header.transactions_root == FixedBytes::<32>(EMPTY_ROOT_HASH)
    &&& block.header.receipts_root == FixedBytes::<32>(EMPTY_ROOT_HASH)
    &&& block.header.logs_bloom.all_zero()
    &&& block.header.gas_used == 0
}

/// What is wrong with a stored Genesis block.
pub open spec fn genesis_block_fault(
    block: BlockView,
    receipts: Seq<ReceiptView>,
    configured_state_root: B256,
) -> Option<Seq<char>> {
    if !is_empty_block(block, receipts) {
        Some("Genesis body, receipts, roots, logsBloom, or gasUsed is non-empty"@)
    } else if block.header.state_root != configured_state_root {
        Some("stored Genesis stateRoot differs from configured chain allocation"@)
    } else {
        None
    }
}

/// Checks that a stored Genesis block has nothing but the configured state.
pub fn check_genesis_block(
    block: &Block,
    receipts: &Vec<Receipt>,
    configured_state_root: B256,
) -> (r: Result<(), RpcError>)
    ensures
        match genesis_block_fault(block@, receipt_views(receipts@), configured_state_root) {
            None => r is Ok,
            Some(fault) => r matches Err(error) && error@ == mismatch(fault),
        },
{
    let header = &block.header;
    if block.transactions.len() != 0 || receipts.len() != 0 || header.transactions_root
        != FixedBytes(EMPTY_ROOT_HASH) || header.receipts_root != FixedBytes(EMPTY_ROOT_HASH)
        || !header.logs_bloom.is_zero() || header.gas_used != 0 {
        return Err(
            mismatch_error(
                String::from_str(
                    "Genesis body, receipts, roots, logsBloom, or gasUsed is non-empty",
                ),
            ),
        );
    }
    if header.state_root != configured_state_root {
        return Err(
            mismatch_error(
                String::from_str(
                    "stored Genesis stateRoot differs from configured chain allocation",
                ),
            ),
        );
    }
    Ok(())
}

/// What decoding the encoded Genesis state diff gave.
#[derive(Debug)]
pub enum GenesisDecoding {
    /// The diff could not be decoded, or is not the one that was encoded.
    DecodeFailed(String),
    /// The root of the diff could not be computed.
    RootFailed(String),
    /// The number of accounts in the decoded diff, and its state root.
    Decoded { accounts: usize, root: B256 },
}

/// What is wrong with a decoded Genesis state diff.
pub open spec fn genesis_diff_fault(
    state_root: B256,
    allocated_accounts: usize,
    decoding: GenesisDecoding,
) -> Option<Seq<char>> {
    match decoding {
        GenesisDecoding::DecodeFailed(error) => Some(error@),
        GenesisDecoding::RootFailed(error) => Some(error@),
        GenesisDecoding::Decoded { accounts, root } => if accounts == allocated_accounts && root
            == state_root {
            None
        } else {
            Some(
                "Genesis decoded state is incomplete or has root "@ + hex_text(root.0@)
                    + ", expected "@ + hex_text(state_root.0@),
            )
        },
    }
}

/// Checks that a decoded Genesis state diff is the complete allocation.
pub fn check_genesis_diff(
    state_root: B256,
    allocated_accounts: usize,
    decoding: &GenesisDecoding,
) -> (r: Result<(), RpcError>)
    ensures
        match genesis_diff_fault(state_root, allocated_accounts, *decoding) {
            None => r is Ok,
            Some(fault) => r matches Err(error) && error@ == mismatch(fault),
        },
{
    match decoding {
        GenesisDecoding::DecodeFailed(error) => Err(mismatch_error(error.clone())),
        GenesisDecoding::RootFailed(error) => Err(mismatch_error(error.clone())),
        GenesisDecoding::Decoded { accounts, root } => {
            if *accounts != allocated_accounts || *root != state_root {
                return Err(
                    mismatch_error(
                        String::from_str("Genesis decoded state is incomplete or has root ").concat(
                            hex_string(&root.0).as_str(),
                        ).concat(", expected ").concat(hex_string(&state_root.0).as_str()),
                    ),
                );
            }
            Ok(())
        },
    }
}

/// A Genesis block that passes both checks has the configured state, and its diff decodes to that
/// state with every allocated account.
pub proof fn accepted_genesis_is_the_allocation(
    block: BlockView,
    receipts: Seq<ReceiptView>,
    configured_state_root: B256,
    allocated_accounts: usize,
    decoding: GenesisDecoding,
)
    requires
        genesis_block_fault(block, receipts, configured_state_root) is None,
        genesis_diff_fault(block.header.state_root, allocated_accounts, decoding) is None,
    ensures
        decoding matches GenesisDecoding::Decoded { accounts, root } && {
            &&& accounts == allocated_accounts
            &&& root == configured_state_root
        },
        block.transactions.len() == 0,
        receipts.len() == 0,
{
}

/// A stored Genesis block is accepted exactly if it has no transactions, receipts, logs and gas, the
/// roots of empty lists, and the configured state root.
pub proof fn genesis_blocks_are_accepted_exactly(
    block: BlockView,
    receipts: Seq<ReceiptView>,
    configured_state_root: B256,
)
    ensures
        genesis_block_fault(block, receipts, configured_state_root) is None <==> {
            &&& block.transactions.len() == 0
            &&& receipts.len() == 0
            &&& block.header.gas_used == 0
            &&& block.header.logs_bloom.all_zero()
            &&& block.header.transactions_root.0 == EMPTY_ROOT_HASH
            &&& block.header.receipts_root.0 == EMPTY_ROOT_HASH
            &&& block.header.state_root == configured_state_root
        },
{
}

/// A Genesis state diff is accepted exactly if it decodes to every allocated account and the state
/// root; an error of the decoding is passed on.
pub proof fn genesis_diffs_are_accepted_exactly(
    state_root: B256,
    allocated_accounts: usize,
    decoding: GenesisDecoding,
)
    ensures
        genesis_diff_fault(state_root, allocated_accounts, decoding) is None <==> (
        decoding matches GenesisDecoding::Decoded { accounts, root } && accounts
            == allocated_accounts && root == state_root),
        decoding matches GenesisDecoding::DecodeFailed(error) ==> genesis_diff_fault(
            state_root,
            allocated_accounts,
            decoding,
        ) == Some(error@),
        decoding matches GenesisDecoding::RootFailed(error) ==> genesis_diff_fault(
            state_root,
            allocated_accounts,
            decoding,
        ) == Some(error@),
{
}

/// A diff that decodes to something else names the root that it has and the one that it should have.
pub proof fn wrong_genesis_diffs_name_both_roots(
    state_root: B256,
    allocated_accounts: usize,
    accounts: usize,
    root: B256,
)
    requires
        accounts != allocated_accounts || root != state_root,
    ensures
        genesis_diff_fault(
            state_root,
            allocated_accounts,
            GenesisDecoding::Decoded { accounts, root },
        ) == Some(
            "Genesis decoded state is incomplete or has root "@ + hex_text(root.0@) + ", expected "@
                + hex_text(state_root.0@),
        ),
{
}

} // verus!
