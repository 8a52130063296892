use alloy_primitives::B256 as AlloyB256;
use taiko_rpc::block::{
    Block, Header, Receipt, RecoveredBlock, Transaction, TxType, EMPTY_OMMER_ROOT_HASH,
    EMPTY_ROOT_HASH,
};
use taiko_rpc::chain::TaikoChainSpec;
use taiko_rpc::error::{
    cancelled_error, RpcError, BLOCK_OR_HISTORY_UNAVAILABLE, BLOCK_REORGED,
    EXECUTION_CONSENSUS_MISMATCH, REQUEST_CANCELLED,
};
use taiko_rpc::fixed::{FixedBytes, B256, U256};
use taiko_rpc::trace::canonical::HashLookup;
use taiko_rpc::trace::genesis::GenesisDecoding;
use taiko_rpc::trace::handler::{
    acquire_replay_permit, Handler, HandlerEvent, HandlerRequest, LoadOutcome, PermitOutcome,
    DEBANK_REQUEST_TIMEOUT_SECS,
};

const HASH: B256 = FixedBytes([1; 32]);
const OTHER: B256 = FixedBytes([2; 32]);
const CHAIN: TaikoChainSpec = TaikoChainSpec { shanghai_time: Some(0), unzen_time: None };

fn block(number: u64) -> RecoveredBlock {
    RecoveredBlock {
        block: Block {
            header: Header {
                parent_hash: FixedBytes([9; 32]),
                ommers_hash: FixedBytes(EMPTY_OMMER_ROOT_HASH),
                beneficiary: FixedBytes([0; 20]),
                state_root: FixedBytes([3; 32]),
                transactions_root: FixedBytes(EMPTY_ROOT_HASH),
                receipts_root: FixedBytes(EMPTY_ROOT_HASH),
                logs_bloom: FixedBytes([0; 256]),
                difficulty: U256::zero(),
                number,
                gas_limit: 30_000_000,
                gas_used: 0,
                timestamp: number + 1,
                extra_data: vec![],
                mix_hash: FixedBytes([0; 32]),
                nonce: FixedBytes([0; 8]),
                base_fee_per_gas: Some(1),
                withdrawals_root: Some(FixedBytes(EMPTY_ROOT_HASH)),
                blob_gas_used: None,
                excess_blob_gas: None,
                parent_beacon_block_root: None,
                requests_hash: None,
                block_access_list_hash: None,
                slot_number: None,
            },
            transactions: vec![],
            ommers: vec![],
            withdrawals: Some(vec![]),
        },
        hash: HASH,
        senders: vec![],
    }
}

fn found(hash: B256) -> HandlerEvent<'static> {
    HandlerEvent::Lookup(HashLookup::Found(Some(hash)))
}

/// A request whose block has just been loaded.
fn loaded(number: u64) -> Handler {
    let mut request = Handler::start(CHAIN, false);
    assert_eq!(request.request(), HandlerRequest::AcquirePermit);
    request.advance(HandlerEvent::Permit(PermitOutcome::Granted));
    assert_eq!(request.request(), HandlerRequest::LoadBlock);
    request.advance(HandlerEvent::Load(LoadOutcome::Loaded { number, hash: HASH }));
    assert_eq!(request.request(), HandlerRequest::LookupHash(number));
    request
}

/// A request whose block was found canonical.
fn canonical(number: u64) -> Handler {
    let mut request = loaded(number);
    request.advance(found(HASH));
    assert_eq!(request.request(), HandlerRequest::ReportChecked);
    request.advance(HandlerEvent::Reported);
    assert_eq!(request.request(), HandlerRequest::ShowBlock);
    request
}

/// A request whose block is being replayed.
fn replaying(number: u64) -> Handler {
    let mut request = canonical(number);
    request.advance(HandlerEvent::Block { block: &block(number), receipts: &vec![] });
    assert_eq!(request.request(), HandlerRequest::Replay);
    request
}

fn answer(request: Handler) -> Result<String, RpcError> {
    assert_eq!(request.request(), HandlerRequest::Answer);
    request.into_answer()
}

fn assert_error(request: Handler, code: i32, data: &str) {
    let error = answer(request).unwrap_err();
    assert_eq!((error.code, error.data.as_str()), (code, data));
}

fn reorg_text(number: u64) -> String {
    format!(
        "height {number}: expected {}, got {:?}",
        AlloyB256::repeat_byte(1),
        Some(AlloyB256::repeat_byte(2))
    )
}

#[test]
fn pending_is_no_stable_target() {
    assert_error(
        Handler::start(CHAIN, true),
        BLOCK_OR_HISTORY_UNAVAILABLE,
        "pending is not a stable replay target",
    );
}

#[test]
fn requests_have_five_minutes() {
    assert_eq!(DEBANK_REQUEST_TIMEOUT_SECS, 300);
}

#[test]
fn permits_may_be_refused() {
    assert!(acquire_replay_permit(PermitOutcome::Granted).is_ok());
    let error = acquire_replay_permit(PermitOutcome::TimedOut).unwrap_err();
    assert_eq!(error.message, "REQUEST_CANCELLED");
    let mut request = Handler::start(CHAIN, false);
    request.advance(HandlerEvent::Permit(PermitOutcome::TimedOut));
    assert_error(request, REQUEST_CANCELLED, "tracing permit deadline");
    let mut request = Handler::start(CHAIN, false);
    request.advance(HandlerEvent::Permit(PermitOutcome::Closed(String::from("closed"))));
    assert_error(request, BLOCK_OR_HISTORY_UNAVAILABLE, "closed");
}

#[test]
fn blocks_may_be_missing() {
    for (outcome, code, data) in [
        (LoadOutcome::Missing(String::from("number 0x7")), BLOCK_OR_HISTORY_UNAVAILABLE, "number 0x7"),
        (LoadOutcome::Failed(String::from("db")), BLOCK_OR_HISTORY_UNAVAILABLE, "db"),
        (LoadOutcome::TimedOut, REQUEST_CANCELLED, "provider deadline"),
    ] {
        let mut request = Handler::start(CHAIN, false);
        request.advance(HandlerEvent::Permit(PermitOutcome::Granted));
        request.advance(HandlerEvent::Load(outcome));
        assert_error(request, code, data);
    }
}

#[test]
fn block_must_be_canonical_at_first() {
    let mut request = loaded(2);
    request.advance(found(OTHER));
    assert_error(request, BLOCK_REORGED, &reorg_text(2));
    let mut request = loaded(2);
    request.advance(HandlerEvent::Lookup(HashLookup::Failed(String::from("db"))));
    assert_error(request, BLOCK_OR_HISTORY_UNAVAILABLE, "db");
}

#[test]
fn replayed_output_is_returned_after_the_final_check() {
    let mut request = replaying(2);
    request.advance(HandlerEvent::Finished(Ok(String::from("{}"))));
    assert_eq!(request.request(), HandlerRequest::CheckDeadline);
    request.advance(HandlerEvent::DeadlinePassed(false));
    assert_eq!(request.request(), HandlerRequest::LookupHash(2));
    request.advance(found(HASH));
    assert_eq!(answer(request).unwrap(), "{}");
}

#[test]
fn answered_request_holds_nothing() {
    assert_eq!(Handler::start(CHAIN, false).held().permits, 0);
    assert_eq!(canonical(2).held().permits, 1);
    let mut request = replaying(2);
    assert_eq!(request.held().permits, 0);
    request.advance(HandlerEvent::Finished(Ok(String::from("{}"))));
    assert_eq!((request.held().permits, request.held().serialized_buffers), (1, 1));
    request.advance(HandlerEvent::DeadlinePassed(false));
    assert_eq!((request.held().permits, request.held().serialized_buffers), (1, 1));
    request.advance(found(HASH));
    assert_eq!((request.held().permits, request.held().serialized_buffers), (0, 0));
    let mut request = replaying(2);
    request.advance(HandlerEvent::DeadlineReached);
    assert_eq!(request.held().permits, 0);
}

#[test]
fn reorg_before_the_final_check_returns_only_the_error() {
    let mut request = replaying(2);
    request.advance(HandlerEvent::Finished(Ok(String::from("{}"))));
    request.advance(HandlerEvent::DeadlinePassed(false));
    request.advance(found(OTHER));
    assert_eq!(request.request(), HandlerRequest::LookupHash(2));
    request.advance(found(OTHER));
    assert_error(request, BLOCK_REORGED, &reorg_text(2));
}

#[test]
fn failed_final_check_is_an_unavailable_history() {
    let mut request = replaying(2);
    request.advance(HandlerEvent::Finished(Ok(String::from("{}"))));
    request.advance(HandlerEvent::DeadlinePassed(false));
    request.advance(HandlerEvent::Lookup(HashLookup::Failed(String::from("db"))));
    request.advance(found(HASH));
    assert_error(request, BLOCK_OR_HISTORY_UNAVAILABLE, "db");
}

#[test]
fn reorg_is_preferred_to_a_replay_error() {
    for (lookup, code) in [
        (HashLookup::Found(Some(OTHER)), BLOCK_REORGED),
        (HashLookup::Found(None), BLOCK_REORGED),
        (HashLookup::Found(Some(HASH)), REQUEST_CANCELLED),
        (HashLookup::Failed(String::from("db")), REQUEST_CANCELLED),
    ] {
        let mut request = replaying(2);
        let error = cancelled_error(String::from("before formatter"));
        request.advance(HandlerEvent::Finished(Err(error)));
        assert_eq!(request.request(), HandlerRequest::LookupHash(2));
        request.advance(HandlerEvent::Lookup(lookup));
        assert_eq!(answer(request).unwrap_err().code, code);
    }
}

#[test]
fn deadlines_cancel_the_request() {
    let mut request = replaying(2);
    request.advance(HandlerEvent::DeadlineReached);
    request.advance(found(HASH));
    assert_error(request, REQUEST_CANCELLED, "replay deadline");

    let mut request = replaying(2);
    request.advance(HandlerEvent::Finished(Ok(String::from("{}"))));
    request.advance(HandlerEvent::DeadlinePassed(true));
    request.advance(found(HASH));
    assert_error(request, REQUEST_CANCELLED, "final canonical-check deadline");

    let mut request = serializing_genesis();
    request.advance(HandlerEvent::DeadlineReached);
    request.advance(found(HASH));
    assert_error(request, REQUEST_CANCELLED, "serialization deadline");
}

#[test]
fn blocks_that_disagree_with_their_header_are_not_replayed() {
    let mut request = canonical(2);
    let mut wrong = block(2);
    wrong.block.header.gas_used = 1;
    request.advance(HandlerEvent::Block { block: &wrong, receipts: &vec![] });
    request.advance(found(HASH));
    assert_error(
        request,
        EXECUTION_CONSENSUS_MISMATCH,
        "stored body/receipts or protocol commitments do not match the header",
    );
}

#[test]
fn blob_blocks_are_not_replayed() {
    let receipts = vec![Receipt {
        tx_type: TxType::Eip4844,
        success: true,
        cumulative_gas_used: 0,
        logs: vec![],
    }];
    let mut blobs = block(2);
    blobs.block.transactions = vec![Transaction {
        hash: FixedBytes([0; 32]),
        encoded: vec![3, 1],
        tx_type: TxType::Eip4844,
        to: None,
        nonce: 0,
        gas_limit: 0,
        max_fee_per_gas: 0,
        max_priority_fee_per_gas: Some(0),
        value: U256::zero(),
        input: vec![],
    }];
    blobs.senders = vec![FixedBytes([0; 20])];
    blobs.block.header.transactions_root = FixedBytes(
        alloy_consensus::proofs::ordered_trie_root_encoded(&[vec![3u8, 1]]).0,
    );
    blobs.block.header.receipts_root = FixedBytes(
        alloy_consensus::EthereumReceipt::calculate_receipt_root_no_memo(&[
            alloy_consensus::EthereumReceipt {
                tx_type: alloy_consensus::TxType::Eip4844,
                success: true,
                cumulative_gas_used: 0,
                logs: vec![],
            },
        ])
        .0,
    );
    let mut request = canonical(2);
    request.advance(HandlerEvent::Block { block: &blobs, receipts: &receipts });
    request.advance(found(HASH));
    assert_error(
        request,
        EXECUTION_CONSENSUS_MISMATCH,
        "transaction type 3 is unsupported by Taiko",
    );
}

/// A request for Genesis whose block was checked.
fn genesis() -> Handler {
    let mut request = canonical(0);
    request.advance(HandlerEvent::Block { block: &block(0), receipts: &vec![] });
    assert_eq!(request.request(), HandlerRequest::ShowGenesis);
    request
}

fn serializing_genesis() -> Handler {
    let mut request = genesis();
    request.advance(HandlerEvent::Genesis {
        block: &block(0),
        receipts: &vec![],
        configured_state_root: FixedBytes([3; 32]),
    });
    assert_eq!(request.request(), HandlerRequest::BuildGenesisDiff);
    request.advance(HandlerEvent::GenesisDiff {
        state_root: FixedBytes([3; 32]),
        allocated_accounts: 4,
        decoding: GenesisDecoding::Decoded { accounts: 4, root: FixedBytes([3; 32]) },
    });
    assert_eq!(request.request(), HandlerRequest::SerializeGenesis);
    request
}

#[test]
fn genesis_is_serialized_without_a_replay() {
    let mut request = serializing_genesis();
    request.advance(HandlerEvent::Finished(Ok(String::from("{}"))));
    request.advance(HandlerEvent::DeadlinePassed(false));
    request.advance(found(HASH));
    assert_eq!(answer(request).unwrap(), "{}");
}

#[test]
fn genesis_must_be_the_configured_allocation() {
    let mut request = genesis();
    request.advance(HandlerEvent::Genesis {
        block: &block(0),
        receipts: &vec![],
        configured_state_root: FixedBytes([4; 32]),
    });
    request.advance(found(HASH));
    assert_error(
        request,
        EXECUTION_CONSENSUS_MISMATCH,
        "stored Genesis stateRoot differs from configured chain allocation",
    );

    let mut request = genesis();
    request.advance(HandlerEvent::Genesis {
        block: &block(0),
        receipts: &vec![],
        configured_state_root: FixedBytes([3; 32]),
    });
    request.advance(HandlerEvent::GenesisDiff {
        state_root: FixedBytes([3; 32]),
        allocated_accounts: 4,
        decoding: GenesisDecoding::Decoded { accounts: 3, root: FixedBytes([3; 32]) },
    });
    request.advance(found(HASH));
    assert_eq!(answer(request).unwrap_err().code, EXECUTION_CONSENSUS_MISMATCH);
}
