use taiko_rpc::block::{
    Block, Header, RecoveredBlock, EMPTY_OMMER_ROOT_HASH, EMPTY_REQUESTS_HASH, EMPTY_ROOT_HASH,
};
use taiko_rpc::chain::TaikoChainSpec;
use taiko_rpc::error::{RpcError, EXECUTION_CONSENSUS_MISMATCH};
use taiko_rpc::fixed::{FixedBytes, B256, U256};
use taiko_rpc::trace::canonical::HashLookup;
use taiko_rpc::trace::execution::ExecutionOutcome;
use taiko_rpc::trace::handler::{
    Handler, HandlerEvent, HandlerRequest, LoadOutcome, PermitOutcome,
};
use taiko_rpc::trace::replay::Replay;
use taiko_rpc::trace::replay_model::{ParentHeader, ReplayEvent, ReplayRequest};
use taiko_rpc::trace::tracer::DebankTraceExt;

const CHAIN: TaikoChainSpec = TaikoChainSpec { shanghai_time: Some(0), unzen_time: Some(0) };
const HASH: B256 = FixedBytes([1; 32]);
const PARENT_HASH: B256 = FixedBytes([9; 32]);
const STATE_ROOT: B256 = FixedBytes([0x51; 32]);
const PARENT_ROOT: B256 = FixedBytes([0x50; 32]);

fn block() -> RecoveredBlock {
    RecoveredBlock {
        block: Block {
            header: Header {
                parent_hash: PARENT_HASH,
                ommers_hash: FixedBytes(EMPTY_OMMER_ROOT_HASH),
                beneficiary: FixedBytes([0; 20]),
                state_root: STATE_ROOT,
                transactions_root: FixedBytes(EMPTY_ROOT_HASH),
                receipts_root: FixedBytes(EMPTY_ROOT_HASH),
                logs_bloom: FixedBytes([0; 256]),
                difficulty: U256::from_u64(7),
                number: 1,
                gas_limit: 30_000_000,
                gas_used: 0,
                timestamp: 2,
                extra_data: vec![],
                mix_hash: FixedBytes([0; 32]),
                nonce: FixedBytes([0; 8]),
                base_fee_per_gas: Some(1),
                withdrawals_root: Some(FixedBytes(EMPTY_ROOT_HASH)),
                blob_gas_used: Some(0),
                excess_blob_gas: Some(0),
                parent_beacon_block_root: Some(FixedBytes([0; 32])),
                requests_hash: Some(FixedBytes(EMPTY_REQUESTS_HASH)),
                block_access_list_hash: None,
                slot_number: None,
            },
            transactions: vec![],
            ommers: vec![],
            withdrawals: Some(vec![]),
        },
        hash: HASH,
        senders: vec![],
    }
}

/// Replays the block with verified roots and notes the roots that were computed.
fn replay(gas_used: u64, decoded_root: B256) -> (Result<String, RpcError>, Vec<B256>) {
    let tracer = DebankTraceExt::<(), ()>::new((), None, 1).with_state_root_verification(true);
    let mut replay = Replay::<()>::start(tracer.replay_plan_for(&CHAIN, block(), vec![]));
    let mut roots = vec![];
    loop {
        let event = match replay.request() {
            ReplayRequest::CheckCancelled(_) => ReplayEvent::Cancelled(false),
            ReplayRequest::LoadParentHeader(_) => ReplayEvent::ParentHeader(Some(ParentHeader {
                number: 0,
                state_root: PARENT_ROOT,
            })),
            ReplayRequest::ReadBlockHashes(..) => ReplayEvent::Hashes(vec![PARENT_HASH]),
            ReplayRequest::ComputeParentRoot => ReplayEvent::Root(PARENT_ROOT),
            ReplayRequest::ComputeReplayRoot => ReplayEvent::Root(STATE_ROOT),
            ReplayRequest::ComputeDecodedRoot => ReplayEvent::Root(decoded_root),
            ReplayRequest::FinishExecution => ReplayEvent::Executed(ExecutionOutcome {
                receipts: vec![],
                gas_used,
                requests: vec![],
            }),
            ReplayRequest::EncodeStateDiff => ReplayEvent::Encoded(vec![0xc0]),
            ReplayRequest::Serialize => ReplayEvent::Serialized(String::from("{\"a\":1}")),
            ReplayRequest::Finished => return (replay.into_result(), roots),
            _ => ReplayEvent::Proceed,
        };
        if let ReplayEvent::Root(root) = &event {
            roots.push(*root);
        }
        replay.advance(event);
    }
}

/// Answers a request for the block with the result of a replay.
fn answer(result: Result<String, RpcError>) -> Result<String, RpcError> {
    let mut request = Handler::start(CHAIN, false);
    let mut result = Some(result);
    loop {
        let lookup = || HandlerEvent::Lookup(HashLookup::Found(Some(HASH)));
        match request.request() {
            HandlerRequest::AcquirePermit => {
                request.advance(HandlerEvent::Permit(PermitOutcome::Granted))
            }
            HandlerRequest::LoadBlock => request
                .advance(HandlerEvent::Load(LoadOutcome::Loaded { number: 1, hash: HASH })),
            HandlerRequest::LookupHash(1) => request.advance(lookup()),
            HandlerRequest::ReportChecked => request.advance(HandlerEvent::Reported),
            HandlerRequest::ShowBlock => request
                .advance(HandlerEvent::Block { block: &block(), receipts: &vec![] }),
            HandlerRequest::Replay => {
                request.advance(HandlerEvent::Finished(result.take().expect("one replay")))
            }
            HandlerRequest::CheckDeadline => request.advance(HandlerEvent::DeadlinePassed(false)),
            HandlerRequest::Answer => return request.into_answer(),
            other => panic!("unexpected request {other:?}"),
        }
    }
}

#[test]
fn validated_replay_is_the_answer() {
    let (result, roots) = replay(0, STATE_ROOT);
    assert_eq!(roots, [PARENT_ROOT, STATE_ROOT, STATE_ROOT]);
    assert_eq!(answer(result).unwrap(), "{\"a\":1}");
}

#[test]
fn replay_that_disagrees_is_no_answer() {
    let (result, roots) = replay(1, STATE_ROOT);
    assert_eq!(roots, [PARENT_ROOT]);
    assert_eq!(answer(result).unwrap_err().code, EXECUTION_CONSENSUS_MISMATCH);

    let (result, roots) = replay(0, PARENT_ROOT);
    assert_eq!(roots, [PARENT_ROOT, STATE_ROOT, PARENT_ROOT]);
    let error = answer(result).unwrap_err();
    assert_eq!(
        error.data,
        format!("decoded root 0x{} != replay root 0x{}", "50".repeat(32), "51".repeat(32))
    );
}
