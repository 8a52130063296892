use taiko_rpc::block::{
    Block, Header, Log, Receipt, RecoveredBlock, Transaction, TxType, EMPTY_OMMER_ROOT_HASH,
    EMPTY_REQUESTS_HASH, EMPTY_ROOT_HASH,
};
use taiko_rpc::error::{
    RpcError, BLOCK_OR_HISTORY_UNAVAILABLE, EXECUTION_CONSENSUS_MISMATCH, REQUEST_CANCELLED,
};
use taiko_rpc::fixed::{FixedBytes, B256, U256};
use taiko_rpc::trace::events::DebankEvent;
use taiko_rpc::trace::execution::ExecutionOutcome;
use taiko_rpc::trace::probe::{
    ReplayTestPhase, ReplayTestResourceSnapshot, ReplayTestResources,
};
use taiko_rpc::trace::replay::Replay;
use taiko_rpc::trace::replay_model::{
    check_cancelled, CancelPoint, ParentHeader, ReplayEvent, ReplayPlan, ReplayRequest,
    TransactionTraces,
};

const NUMBER: u64 = 3;
const PARENT_HASH: B256 = FixedBytes([9; 32]);
const STATE_ROOT: B256 = FixedBytes([0x51; 32]);
const PARENT_ROOT: B256 = FixedBytes([0x50; 32]);

fn header(state_root: B256) -> Header {
    Header {
        parent_hash: PARENT_HASH,
        ommers_hash: FixedBytes(EMPTY_OMMER_ROOT_HASH),
        beneficiary: FixedBytes([0; 20]),
        state_root,
        transactions_root: FixedBytes(EMPTY_ROOT_HASH),
        receipts_root: FixedBytes(EMPTY_ROOT_HASH),
        logs_bloom: FixedBytes([0; 256]),
        difficulty: U256::zero(),
        number: NUMBER,
        gas_limit: 30_000_000,
        gas_used: 0,
        timestamp: NUMBER + 1,
        extra_data: vec![],
        mix_hash: FixedBytes([0; 32]),
        nonce: FixedBytes([0; 8]),
        base_fee_per_gas: Some(1),
        withdrawals_root: Some(FixedBytes(EMPTY_ROOT_HASH)),
        blob_gas_used: Some(0),
        excess_blob_gas: Some(0),
        parent_beacon_block_root: Some(FixedBytes([0; 32])),
        requests_hash: Some(FixedBytes(EMPTY_REQUESTS_HASH)),
        block_access_list_hash: None,
        slot_number: None,
    }
}

fn transaction() -> Transaction {
    Transaction {
        hash: FixedBytes([0x33; 32]),
        encoded: vec![],
        tx_type: TxType::Legacy,
        to: Some(FixedBytes([0x22; 20])),
        nonce: 0,
        gas_limit: 21_000,
        max_fee_per_gas: 1,
        max_priority_fee_per_gas: None,
        value: U256::zero(),
        input: vec![],
    }
}

fn receipts(transactions: usize) -> Vec<Receipt> {
    (1..=transactions as u64)
        .map(|n| Receipt {
            tx_type: TxType::Legacy,
            success: true,
            cumulative_gas_used: 21_000 * n,
            logs: vec![Log { address: FixedBytes([7; 20]), topics: vec![], data: vec![n as u8] }],
        })
        .collect()
}

fn plan(transactions: usize, proof_history: bool, verify_state_roots: bool) -> ReplayPlan {
    let mut header = header(STATE_ROOT);
    header.gas_used = 21_000 * transactions as u64;
    ReplayPlan {
        block: RecoveredBlock {
            block: Block {
                header,
                transactions: (0..transactions).map(|_| transaction()).collect(),
                ommers: vec![],
                withdrawals: Some(vec![]),
            },
            hash: FixedBytes([1; 32]),
            senders: vec![FixedBytes([0x11; 20]); transactions],
        },
        stored_receipts: receipts(transactions),
        is_unzen_active: true,
        proof_history,
        verify_state_roots,
    }
}

/// What a node without faults answers.
fn honest(request: ReplayRequest, transactions: usize) -> ReplayEvent<u32> {
    match request {
        ReplayRequest::ResolveParent(hash) => {
            assert_eq!(hash, PARENT_HASH);
            ReplayEvent::ParentResolved(NUMBER - 1)
        }
        ReplayRequest::CheckCancelled(_) => ReplayEvent::Cancelled(false),
        ReplayRequest::LoadParentHeader(hash) => {
            assert_eq!(hash, PARENT_HASH);
            ReplayEvent::ParentHeader(Some(ParentHeader {
                number: NUMBER - 1,
                state_root: PARENT_ROOT,
            }))
        }
        ReplayRequest::ComputeParentRoot => ReplayEvent::Root(PARENT_ROOT),
        ReplayRequest::ReadBlockHashes(start, end) => {
            assert_eq!((start, end), (0, NUMBER));
            ReplayEvent::Hashes(vec![FixedBytes([5; 32]), FixedBytes([6; 32]), PARENT_HASH])
        }
        ReplayRequest::FormatTransaction(index) => ReplayEvent::Formatted(TransactionTraces {
            traces: vec![index as u32],
            error_traces: vec![100 + index as u32],
            events: vec![event(index)],
            error_events: vec![event(50 + index)],
        }),
        ReplayRequest::FinishExecution => ReplayEvent::Executed(ExecutionOutcome {
            receipts: receipts(transactions),
            gas_used: 21_000 * transactions as u64,
            requests: vec![],
        }),
        ReplayRequest::ComputeReplayRoot | ReplayRequest::ComputeDecodedRoot => {
            ReplayEvent::Root(STATE_ROOT)
        }
        ReplayRequest::EncodeStateDiff => ReplayEvent::Encoded(vec![0xc0]),
        ReplayRequest::Serialize => ReplayEvent::Serialized(String::from("{}")),
        _ => ReplayEvent::Proceed,
    }
}

fn event(idx: usize) -> DebankEvent {
    DebankEvent {
        idx,
        contract_id: FixedBytes([7; 20]),
        selector: String::new(),
        topics: None,
        data: vec![idx as u8 + 1],
    }
}

/// Runs a replay to its end and notes what it asked for.
fn drive(
    replay: &mut Replay<u32>,
    mut answer: impl FnMut(ReplayRequest) -> ReplayEvent<u32>,
) -> Vec<ReplayRequest> {
    let mut requests = vec![];
    loop {
        let request = replay.request();
        requests.push(request);
        if request == ReplayRequest::Finished {
            return requests;
        }
        replay.advance(answer(request));
    }
}

/// Runs a replay of one transaction in which one request is answered otherwise.
fn replay_with(
    plan: ReplayPlan,
    special: impl Fn(ReplayRequest) -> Option<ReplayEvent<u32>>,
) -> (Vec<ReplayRequest>, Result<String, RpcError>) {
    let transactions = plan.block.block.transactions.len();
    let mut replay = Replay::start(plan);
    let requests = drive(&mut replay, |request| {
        special(request).unwrap_or_else(|| honest(request, transactions))
    });
    (requests, replay.into_result())
}

fn verified_requests() -> Vec<ReplayRequest> {
    vec![
        ReplayRequest::ResolveParent(PARENT_HASH),
        ReplayRequest::SpawnWorker,
        ReplayRequest::CheckCancelled(CancelPoint::BeforeProviderLoad),
        ReplayRequest::OpenProofState(NUMBER - 1),
        ReplayRequest::LoadParentHeader(PARENT_HASH),
        ReplayRequest::Report(ReplayTestPhase::ProviderLoaded),
        ReplayRequest::CheckCancelled(CancelPoint::BeforeParentStateRoot),
        ReplayRequest::ComputeParentRoot,
        ReplayRequest::ReadBlockHashes(0, NUMBER),
        ReplayRequest::PrepareExecutor,
        ReplayRequest::CheckCancelled(CancelPoint::BeforePreExecution),
        ReplayRequest::ApplyPreExecution,
        ReplayRequest::Report(ReplayTestPhase::PreExecutionApplied),
        ReplayRequest::CheckCancelled(CancelPoint::AfterPreExecution),
        ReplayRequest::CheckCancelled(CancelPoint::BeforeTransaction),
        ReplayRequest::ExecuteTransaction(0),
        ReplayRequest::Report(ReplayTestPhase::TransactionExecuted),
        ReplayRequest::CheckCancelled(CancelPoint::AfterTransactionExecution),
        ReplayRequest::FinishInspection(0),
        ReplayRequest::Report(ReplayTestPhase::BeforeFormatter),
        ReplayRequest::CheckCancelled(CancelPoint::BeforeFormatter),
        ReplayRequest::FormatTransaction(0),
        ReplayRequest::Report(ReplayTestPhase::FormatterCompleted),
        ReplayRequest::CheckCancelled(CancelPoint::AfterFormatter),
        ReplayRequest::CommitTransaction(0),
        ReplayRequest::CheckCancelled(CancelPoint::AfterTransactionCommit),
        ReplayRequest::FinishExecution,
        ReplayRequest::CheckCancelled(CancelPoint::BeforeReplayStateRoot),
        ReplayRequest::ComputeReplayRoot,
        ReplayRequest::Report(ReplayTestPhase::RootAComputed),
        ReplayRequest::CheckCancelled(CancelPoint::AfterReplayStateRoot),
        ReplayRequest::BuildStateDiff { state_root: STATE_ROOT, parent_state_root: PARENT_ROOT },
        ReplayRequest::CheckCancelled(CancelPoint::BeforeStateDiffEncoding),
        ReplayRequest::EncodeStateDiff,
        ReplayRequest::Report(ReplayTestPhase::StateDiffEncoded),
        ReplayRequest::CheckCancelled(CancelPoint::AfterStateDiffEncoding),
        ReplayRequest::DecodeStateDiff,
        ReplayRequest::Report(ReplayTestPhase::StateDiffDecoded),
        ReplayRequest::CheckCancelled(CancelPoint::BeforeDecodedStateRoot),
        ReplayRequest::ComputeDecodedRoot,
        ReplayRequest::Report(ReplayTestPhase::RootBComputed),
        ReplayRequest::CheckCancelled(CancelPoint::AfterDecodedStateRoot),
        ReplayRequest::AssembleOutput,
        ReplayRequest::Report(ReplayTestPhase::OutputBuilt),
        ReplayRequest::CheckCancelled(CancelPoint::BeforeJsonSerialization),
        ReplayRequest::Serialize,
        ReplayRequest::Report(ReplayTestPhase::JsonSerializationCompleted),
        ReplayRequest::CheckCancelled(CancelPoint::AfterJsonSerialization),
        ReplayRequest::Report(ReplayTestPhase::JsonSerialized),
        ReplayRequest::Finished,
    ]
}

#[test]
fn verified_replay_runs_through_every_stage() {
    let (requests, result) = replay_with(plan(1, true, true), |_| None);
    assert_eq!(requests, verified_requests());
    assert_eq!(result.unwrap(), "{}");
}

#[test]
fn root_disabled_replay_computes_no_root_and_opens_no_proof_state() {
    for proof_history in [false, true] {
        let (requests, result) = replay_with(plan(1, proof_history, false), |_| None);
        assert_eq!(result.unwrap(), "{}");
        assert!(!requests.iter().any(|request| matches!(
            request,
            ReplayRequest::OpenProofState(_)
                | ReplayRequest::ComputeParentRoot
                | ReplayRequest::ComputeReplayRoot
                | ReplayRequest::ComputeDecodedRoot
        )));
        let opens_history = requests.contains(&ReplayRequest::OpenHistory(PARENT_HASH));
        assert_eq!(opens_history, !proof_history);
    }
}

#[test]
fn every_transaction_is_replayed_in_order() {
    let mut replay = Replay::start(plan(3, false, false));
    let requests = drive(&mut replay, |request| honest(request, 3));
    let executed: Vec<_> = requests
        .iter()
        .filter_map(|request| match request {
            ReplayRequest::CommitTransaction(index) => Some(*index),
            _ => None,
        })
        .collect();
    assert_eq!(executed, [0, 1, 2]);
    assert_eq!(*replay.traces(), [0, 1, 2]);
    assert_eq!(*replay.error_traces(), [100, 101, 102]);
    assert_eq!(replay.events().iter().map(|event| event.idx).collect::<Vec<_>>(), [0, 1, 2]);
    assert_eq!(
        replay.error_events().iter().map(|event| event.idx).collect::<Vec<_>>(),
        [50, 51, 52]
    );
    assert_eq!(*replay.state_diff(), [0xc0]);
    let transactions = replay.transactions();
    assert_eq!(transactions.len(), 3);
    assert!(transactions.iter().all(|entry| entry.gas_used == 21_000));
    assert!(requests.len() <= 39 + 12 * 3 + 1);
}

#[test]
fn inspector_is_enabled_only_for_transactions() {
    let mut replay = Replay::start(plan(1, false, false));
    loop {
        let request = replay.request();
        match request {
            ReplayRequest::ApplyPreExecution | ReplayRequest::FinishExecution => {
                assert!(!replay.inspector_enabled())
            }
            ReplayRequest::ExecuteTransaction(_) => assert!(replay.inspector_enabled()),
            ReplayRequest::Finished => break,
            _ => {}
        }
        replay.advance(honest(request, 1));
    }
}

#[test]
fn state_neutral_block_has_an_empty_state_diff() {
    let mut plan = plan(1, true, true);
    plan.block.block.header.state_root = PARENT_ROOT;
    let mut replay = Replay::start(plan);
    let requests = drive(&mut replay, |request| match request {
        ReplayRequest::ComputeReplayRoot | ReplayRequest::ComputeDecodedRoot => {
            ReplayEvent::Root(PARENT_ROOT)
        }
        _ => honest(request, 1),
    });
    assert!(!requests.contains(&ReplayRequest::EncodeStateDiff));
    assert!(!requests.contains(&ReplayRequest::DecodeStateDiff));
    assert!(requests.contains(&ReplayRequest::ComputeDecodedRoot));
    assert!(replay.state_diff().is_empty());
    assert_eq!(replay.into_result().unwrap(), "{}");
}

#[test]
fn cancellation_stops_at_the_next_check() {
    let points: Vec<_> = verified_requests()
        .into_iter()
        .filter_map(|request| match request {
            ReplayRequest::CheckCancelled(point) => Some(point),
            _ => None,
        })
        .collect();
    assert_eq!(points.len(), 17);
    for point in points {
        let (requests, result) = replay_with(plan(1, true, true), |request| {
            (request == ReplayRequest::CheckCancelled(point))
                .then_some(ReplayEvent::Cancelled(true))
        });
        let error = result.unwrap_err();
        assert_eq!(error.code, REQUEST_CANCELLED);
        assert_eq!(error.message, "REQUEST_CANCELLED");
        assert_eq!(error.data, point.name());
        let position = verified_requests()
            .iter()
            .position(|request| *request == ReplayRequest::CheckCancelled(point))
            .unwrap();
        assert_eq!(requests.len(), position + 2);
        assert_eq!(requests[position + 1], ReplayRequest::Finished);
    }
}

#[test]
fn request_dropped_in_a_phase_never_reaches_another_phase() {
    let phases: Vec<_> = verified_requests()
        .into_iter()
        .filter_map(|request| match request {
            ReplayRequest::Report(phase) if phase != ReplayTestPhase::JsonSerialized => Some(phase),
            _ => None,
        })
        .collect();
    for dropped_in in phases {
        let dropped = std::cell::Cell::new(false);
        let (requests, result) = replay_with(plan(1, true, true), |request| match request {
            ReplayRequest::Report(phase) if phase == dropped_in => {
                dropped.set(true);
                None
            }
            ReplayRequest::CheckCancelled(_) => Some(ReplayEvent::Cancelled(dropped.get())),
            _ => None,
        });
        assert_eq!(result.unwrap_err().code, REQUEST_CANCELLED);
        let last_phase = requests.iter().rev().find_map(|request| match request {
            ReplayRequest::Report(phase) => Some(*phase),
            _ => None,
        });
        assert_eq!(last_phase, Some(dropped_in));
    }
}

#[test]
fn cancellation_names_its_point() {
    assert!(check_cancelled(false, CancelPoint::BeforeFormatter).is_ok());
    let error = check_cancelled(true, CancelPoint::BeforeFormatter).unwrap_err();
    assert_eq!((error.code, error.data.as_str()), (REQUEST_CANCELLED, "before formatter"));
}

fn expect_error(
    plan: ReplayPlan,
    special: impl Fn(ReplayRequest) -> Option<ReplayEvent<u32>>,
    code: i32,
    data: &str,
) -> Vec<ReplayRequest> {
    let (requests, result) = replay_with(plan, special);
    let error = result.unwrap_err();
    assert_eq!((error.code, error.data.as_str()), (code, data));
    requests
}

#[test]
fn parent_must_precede_the_block() {
    for height in [NUMBER, NUMBER - 2, u64::MAX] {
        expect_error(
            plan(1, true, true),
            |request| {
                matches!(request, ReplayRequest::ResolveParent(_))
                    .then_some(ReplayEvent::ParentResolved(height))
            },
            EXECUTION_CONSENSUS_MISMATCH,
            &format!("parent height {height} does not precede block 3"),
        );
    }
    expect_error(
        plan(1, true, true),
        |request| {
            matches!(request, ReplayRequest::LoadParentHeader(_))
                .then_some(ReplayEvent::ParentHeader(None))
        },
        BLOCK_OR_HISTORY_UNAVAILABLE,
        &format!("0x{}", "09".repeat(32)),
    );
    expect_error(
        plan(1, true, true),
        |request| {
            let parent = ParentHeader { number: NUMBER, state_root: PARENT_ROOT };
            matches!(request, ReplayRequest::LoadParentHeader(_))
                .then_some(ReplayEvent::ParentHeader(Some(parent)))
        },
        EXECUTION_CONSENSUS_MISMATCH,
        "parent header height 3 differs from resolved state height 2",
    );
}

#[test]
fn genesis_cannot_be_replayed() {
    let mut plan = plan(0, false, false);
    plan.block.block.header.number = 0;
    let replay = Replay::<u32>::start(plan);
    assert_eq!(replay.request(), ReplayRequest::Finished);
    let error = replay.into_result().unwrap_err();
    assert_eq!(error.code, EXECUTION_CONSENSUS_MISMATCH);
    assert_eq!(error.data, "non-Genesis replay has no parent height");
}

#[test]
fn wrong_roots_end_the_replay() {
    let wrong = FixedBytes([0xee; 32]);
    let (ee, parent, current) = ("ee".repeat(32), "50".repeat(32), "51".repeat(32));
    for (at, data) in [
        (
            ReplayRequest::ComputeParentRoot,
            format!("parent state provider root 0x{ee} != parent header root 0x{parent}"),
        ),
        (
            ReplayRequest::ComputeReplayRoot,
            format!("replay root 0x{ee} != header root 0x{current}"),
        ),
        (
            ReplayRequest::ComputeDecodedRoot,
            format!("decoded root 0x{ee} != replay root 0x{current}"),
        ),
    ] {
        expect_error(
            plan(1, true, true),
            |request| (request == at).then_some(ReplayEvent::Root(wrong)),
            EXECUTION_CONSENSUS_MISMATCH,
            &data,
        );
    }
}

#[test]
fn incomplete_block_hash_window_stops_before_pre_execution() {
    let requests = expect_error(
        plan(1, false, false),
        |request| {
            matches!(request, ReplayRequest::ReadBlockHashes(..))
                .then_some(ReplayEvent::Hashes(vec![PARENT_HASH]))
        },
        BLOCK_OR_HISTORY_UNAVAILABLE,
        "block 3 requires 3 canonical hashes in [0, 3), got 1",
    );
    assert!(!requests.contains(&ReplayRequest::ApplyPreExecution));
}

#[test]
fn execution_must_agree_with_stored_data() {
    let data = "replayed receipts, gasUsed, or requests differ from the header";
    for (gas_used, count, requests) in [
        (21_001, 1, vec![]),
        (21_000, 2, vec![]),
        (21_000, 1, vec![vec![0u8, 1]]),
    ] {
        expect_error(
            plan(1, false, false),
            |request| {
                let outcome = ExecutionOutcome {
                    receipts: receipts(count),
                    gas_used,
                    requests: requests.clone(),
                };
                (request == ReplayRequest::FinishExecution)
                    .then_some(ReplayEvent::Executed(outcome))
            },
            EXECUTION_CONSENSUS_MISMATCH,
            data,
        );
    }
}

#[test]
fn formatted_events_are_checked_before_the_output() {
    let requests = expect_error(
        plan(1, true, true),
        |request| {
            matches!(request, ReplayRequest::FormatTransaction(_)).then_some(
                ReplayEvent::Formatted(TransactionTraces {
                    traces: vec![],
                    error_traces: vec![],
                    events: vec![],
                    error_events: vec![],
                }),
            )
        },
        EXECUTION_CONSENSUS_MISMATCH,
        "formatted event count 0 != stored log count 1",
    );
    assert!(!requests.contains(&ReplayRequest::AssembleOutput));
}

#[test]
fn failures_are_classified_by_what_was_read() {
    let history = [
        ReplayRequest::ResolveParent(PARENT_HASH),
        ReplayRequest::OpenProofState(NUMBER - 1),
        ReplayRequest::LoadParentHeader(PARENT_HASH),
        ReplayRequest::ComputeParentRoot,
        ReplayRequest::ReadBlockHashes(0, NUMBER),
    ];
    let replayed = [
        ReplayRequest::PrepareExecutor,
        ReplayRequest::ApplyPreExecution,
        ReplayRequest::ExecuteTransaction(0),
        ReplayRequest::FinishInspection(0),
        ReplayRequest::FormatTransaction(0),
        ReplayRequest::CommitTransaction(0),
        ReplayRequest::FinishExecution,
        ReplayRequest::ComputeReplayRoot,
        ReplayRequest::BuildStateDiff { state_root: STATE_ROOT, parent_state_root: PARENT_ROOT },
        ReplayRequest::DecodeStateDiff,
        ReplayRequest::ComputeDecodedRoot,
        ReplayRequest::Serialize,
    ];
    for (failing, code) in [
        (history.as_slice(), BLOCK_OR_HISTORY_UNAVAILABLE),
        (replayed.as_slice(), EXECUTION_CONSENSUS_MISMATCH),
    ] {
        for at in failing {
            expect_error(
                plan(1, true, true),
                |request| {
                    (request == *at).then_some(ReplayEvent::Failed(String::from("broken")))
                },
                code,
                "broken",
            );
        }
    }
    expect_error(
        plan(1, false, false),
        |request| {
            matches!(request, ReplayRequest::OpenHistory(_))
                .then_some(ReplayEvent::Failed(String::from("pruned")))
        },
        BLOCK_OR_HISTORY_UNAVAILABLE,
        "pruned",
    );
    expect_error(
        plan(1, true, true),
        |request| {
            (request == ReplayRequest::ExecuteTransaction(0))
                .then_some(ReplayEvent::WorkerLost(String::from("pool closed")))
        },
        BLOCK_OR_HISTORY_UNAVAILABLE,
        "pool closed",
    );
}

#[test]
fn genesis_output_is_only_serialized() {
    let mut replay = Replay::<u32>::serialize_output(plan(0, false, true));
    let requests = drive(&mut replay, |request| honest(request, 0));
    assert_eq!(
        requests,
        [
            ReplayRequest::SpawnWorker,
            ReplayRequest::Report(ReplayTestPhase::OutputBuilt),
            ReplayRequest::CheckCancelled(CancelPoint::BeforeJsonSerialization),
            ReplayRequest::Serialize,
            ReplayRequest::Report(ReplayTestPhase::JsonSerializationCompleted),
            ReplayRequest::CheckCancelled(CancelPoint::AfterJsonSerialization),
            ReplayRequest::Report(ReplayTestPhase::JsonSerialized),
            ReplayRequest::Finished,
        ]
    );
    assert_eq!(replay.into_result().unwrap(), "{}");
}

#[test]
fn serialization_of_genesis_is_cancelled_after_each_phase() {
    for dropped_in in [ReplayTestPhase::OutputBuilt, ReplayTestPhase::JsonSerializationCompleted] {
        let mut dropped = false;
        let mut replay = Replay::<u32>::serialize_output(plan(0, false, true));
        let requests = drive(&mut replay, |request| match request {
            ReplayRequest::CheckCancelled(_) => ReplayEvent::Cancelled(dropped),
            ReplayRequest::Report(phase) => {
                dropped = dropped || phase == dropped_in;
                ReplayEvent::Proceed
            }
            _ => honest(request, 0),
        });
        assert_eq!(replay.into_result().unwrap_err().code, REQUEST_CANCELLED);
        let phases = requests.iter().filter(|r| matches!(r, ReplayRequest::Report(_))).count();
        assert_eq!(phases, if dropped_in == ReplayTestPhase::OutputBuilt { 1 } else { 2 });
    }
}

#[test]
fn phases_hold_their_resources_and_the_end_gives_them_back() {
    let mut replay = Replay::start(plan(1, true, true));
    loop {
        let request = replay.request();
        let snapshot = replay.held();
        match request {
            ReplayRequest::Report(phase) => {
                assert_eq!(snapshot.workers, 1);
                assert_eq!(snapshot.permits, 1);
                assert_eq!(snapshot.provider_readers, 1);
                assert_eq!(
                    snapshot.output_buffers,
                    usize::from(phase == ReplayTestPhase::OutputBuilt)
                );
                assert_eq!(
                    snapshot.serialized_buffers,
                    usize::from(matches!(
                        phase,
                        ReplayTestPhase::JsonSerializationCompleted
                            | ReplayTestPhase::JsonSerialized
                    ))
                );
            }
            ReplayRequest::Finished => break,
            _ => assert_eq!(snapshot.permits, 1),
        }
        replay.advance(honest(request, 1));
    }
    let left = ReplayTestResourceSnapshot {
        permits: 1,
        serialized_buffers: 1,
        ..Default::default()
    };
    assert_eq!(replay.held(), left);
}

#[test]
fn cancelled_replay_leaves_the_ledger_as_it_was() {
    for point in verified_requests() {
        let ReplayRequest::CheckCancelled(point) = point else { continue };
        let mut ledger = ReplayTestResources::default();
        let mut held = ReplayTestResourceSnapshot::default();
        let mut replay = Replay::start(plan(1, true, true));
        loop {
            ledger.rebook(&held, &replay.held());
            held = replay.held();
            assert_eq!(ledger.snapshot(), held);
            let request = replay.request();
            if request == ReplayRequest::Finished {
                break;
            }
            assert!(held.permits == 1);
            replay.advance(match request {
                ReplayRequest::CheckCancelled(at) => ReplayEvent::Cancelled(at == point),
                _ => honest(request, 1),
            });
        }
        assert_eq!(ledger.snapshot(), ReplayTestResourceSnapshot::default());
    }
}
