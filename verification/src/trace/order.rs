//! The order of a replay's requests, over whole runs.
use crate::block::all_logs;
use crate::commitments::requests_hash_of;
use crate::error::{
    BLOCK_OR_HISTORY_UNAVAILABLE, EXECUTION_CONSENSUS_MISMATCH, REQUEST_CANCELLED,
};
use crate::fixed::B256;
use crate::text::{decimal, hex_text};
use crate::trace::events::{events_fault, EventView};
use crate::trace::execution::OutcomeView;
use crate::trace::probe::ReplayTestPhase;
use crate::trace::replay_model::{
    answers, place, replays_transaction, CancelPoint, ParentHeader, PlanView, ReplayEventView,
    ReplayRequest, ReplayStage, ReplayView,
};
use crate::trace::runs::{failed, runs_stay_consistent};
use vstd::prelude::*;

verus! {

/// The requests that the events of a run answer, in order.
pub open spec fn requests_of<T>(start: ReplayView<T>, events: Seq<ReplayEventView<T>>) -> Seq<
    ReplayRequest,
> {
    Seq::new(events.len(), |i: int| start.after_all(events.take(i)).request())
}

/// The positions of the transactions that were asked to be executed, in order.
pub open spec fn executed(requests: Seq<ReplayRequest>) -> Seq<int>
    decreases requests.len(),
{
    if requests.len() == 0 {
        seq![]
    } else {
        match requests.last() {
            ReplayRequest::ExecuteTransaction(i) => executed(requests.drop_last()).push(i as int),
            _ => executed(requests.drop_last()),
        }
    }
}

/// The positions of the transactions whose inspection was asked to be finished, in order.
pub open spec fn inspected(requests: Seq<ReplayRequest>) -> Seq<int>
    decreases requests.len(),
{
    if requests.len() == 0 {
        seq![]
    } else {
        match requests.last() {
            ReplayRequest::FinishInspection(i) => inspected(requests.drop_last()).push(i as int),
            _ => inspected(requests.drop_last()),
        }
    }
}

/// The positions of the transactions that were asked to be formatted, in order.
pub open spec fn formatted(requests: Seq<ReplayRequest>) -> Seq<int>
    decreases requests.len(),
{
    if requests.len() == 0 {
        seq![]
    } else {
        match requests.last() {
            ReplayRequest::FormatTransaction(i) => formatted(requests.drop_last()).push(i as int),
            _ => formatted(requests.drop_last()),
        }
    }
}

/// The positions of the transactions that were asked to be committed, in order.
pub open spec fn committed(requests: Seq<ReplayRequest>) -> Seq<int>
    decreases requests.len(),
{
    if requests.len() == 0 {
        seq![]
    } else {
        match requests.last() {
            ReplayRequest::CommitTransaction(i) => committed(requests.drop_last()).push(i as int),
            _ => committed(requests.drop_last()),
        }
    }
}

/// The positions below `n`, in order.
pub open spec fn first(n: nat) -> Seq<int> {
    Seq::new(n, |i: int| i)
}

/// How many transactions have passed the stage at `after` once the replay is where it is.
spec fn passed<T>(replay: ReplayView<T>, after: nat) -> nat {
    let place = place(replay.stage);
    if place < 15 {
        0
    } else if place <= after {
        replay.transaction
    } else if place <= 26 {
        replay.transaction + 1
    } else {
        replay.plan.block.transactions.len()
    }
}

/// What the requests of a run say of its transactions.
#[verifier::opaque]
spec fn counted<T>(replay: ReplayView<T>, requests: Seq<ReplayRequest>) -> bool {
    &&& executed(requests) == first(passed(replay, 16))
    &&& inspected(requests) == first(passed(replay, 19))
    &&& formatted(requests) == first(passed(replay, 22))
    &&& committed(requests) == first(passed(replay, 25))
}

/// The sequence of the positions below `n` grows by `n`.
proof fn first_grows(n: nat)
    ensures
        first(n).push(n as int) == first(n + 1),
        first(0) == Seq::<int>::empty(),
{
    assert(first(n).push(n as int) =~= first(n + 1));
    assert(first(0) =~= Seq::<int>::empty());
}

/// Going on from a stage leaves the transactions and their number as the requests say.
proof fn moving_on_counts<T>(before: ReplayView<T>, noted: ReplayView<T>)
    requires
        before.consistent(),
        !(before.stage is Done),
        noted.stage == before.stage,
        noted.plan == before.plan,
        noted.transaction == before.transaction,
        !failed(noted.moved_on()),
        !(before.stage is EnterSerializer),
        before.plan.block.transactions.len() <= usize::MAX,
    ensures
        ({
            let after = noted.moved_on();
            let request = before.request();
            let t = before.transaction as int;
            &&& !(after.stage is EnterSerializer)
            &&& before.stage is Execute ==> request == ReplayRequest::ExecuteTransaction(t as usize)
                && t as usize == t
            &&& before.stage is Inspect ==> request == ReplayRequest::FinishInspection(t as usize)
                && t as usize == t
            &&& before.stage is Format ==> request == ReplayRequest::FormatTransaction(t as usize)
                && t as usize == t
            &&& before.stage is Commit ==> request == ReplayRequest::CommitTransaction(t as usize)
                && t as usize == t
            &&& request is ExecuteTransaction ==> before.stage is Execute
            &&& request is FinishInspection ==> before.stage is Inspect
            &&& request is FormatTransaction ==> before.stage is Format
            &&& request is CommitTransaction ==> before.stage is Commit
            &&& passed(after, 16) == passed(before, 16) + if before.stage is Execute {
                1nat
            } else {
                0
            }
            &&& passed(after, 19) == passed(before, 19) + if before.stage is Inspect {
                1nat
            } else {
                0
            }
            &&& passed(after, 22) == passed(before, 22) + if before.stage is Format {
                1nat
            } else {
                0
            }
            &&& passed(after, 25) == passed(before, 25) + if before.stage is Commit {
                1nat
            } else {
                0
            }
            &&& before.stage is Execute ==> passed(before, 16) == t
            &&& before.stage is Inspect ==> passed(before, 19) == t
            &&& before.stage is Format ==> passed(before, 22) == t
            &&& before.stage is Commit ==> passed(before, 25) == t
        }),
{
}

/// One step keeps the count.
proof fn step_counts<T>(
    before: ReplayView<T>,
    requests: Seq<ReplayRequest>,
    event: ReplayEventView<T>,
)
    requires
        before.consistent(),
        counted(before, requests),
        answers(before.stage, event),
        !failed(before.after(event)),
        !(before.stage is EnterSerializer),
        before.plan.block.transactions.len() <= usize::MAX,
    ensures
        counted(before.after(event), requests.push(before.request())),
        !(before.after(event).stage is EnterSerializer),
{
    reveal(counted);
    moving_on_counts(before, before.noted(event));
    let all = requests.push(before.request());
    assert(all.drop_last() =~= requests);
    assert(all.last() == before.request());
    first_grows(passed(before, 16));
    first_grows(passed(before, 19));
    first_grows(passed(before, 22));
    first_grows(passed(before, 25));
}

/// A replay that was just started is consistent.
proof fn started_is_consistent<T>(plan: PlanView)
    requires
        plan.senders.len() == plan.block.transactions.len(),
    ensures
        ReplayView::<T>::started(plan).consistent(),
        ReplayView::<T>::started(plan).plan == plan,
        !(ReplayView::<T>::started(plan).stage is EnterSerializer),
{
}

/// The requests of a run grow by the request that its last event answers.
proof fn requests_grow<T>(start: ReplayView<T>, events: Seq<ReplayEventView<T>>)
    requires
        events.len() > 0,
    ensures
        requests_of(start, events) == requests_of(start, events.drop_last()).push(
            start.after_all(events.drop_last()).request(),
        ),
{
    let earlier = events.drop_last();
    assert forall|i: int| 0 <= i < events.len() implies events.take(i) == earlier.take(i) by {
        assert(events.take(i) =~= earlier.take(i));
    }
    assert(earlier.take(earlier.len() as int) =~= earlier);
    assert(requests_of(start, events) =~= requests_of(start, earlier).push(
        start.after_all(earlier).request(),
    ));
}

/// The requests of a run say how far its transactions have come.
proof fn runs_count<T>(plan: PlanView, events: Seq<ReplayEventView<T>>)
    requires
        plan.senders.len() == plan.block.transactions.len(),
        plan.block.transactions.len() <= usize::MAX,
        ReplayView::<T>::started(plan).accepts_all(events),
    ensures
        ({
            let start = ReplayView::<T>::started(plan);
            let replay = start.after_all(events);
            &&& replay.consistent()
            &&& replay.plan == plan
            &&& !(replay.stage is EnterSerializer)
            &&& !failed(replay) ==> counted(replay, requests_of(start, events))
        }),
    decreases events.len(),
{
    let start = ReplayView::<T>::started(plan);
    started_is_consistent::<T>(plan);
    runs_stay_consistent(start, events);
    if events.len() == 0 {
        reveal(counted);
        first_grows(0);
        assert(requests_of(start, events) =~= seq![]);
    } else {
        let earlier = events.drop_last();
        let before = start.after_all(earlier);
        runs_count(plan, earlier);
        requests_grow(start, events);
        assert(answers(before.stage, events.last()));
        assert(!failed(before));
        if !failed(start.after_all(events)) {
            step_counts(before, requests_of(start, earlier), events.last());
        } else {
            assert(start.after_all(events) == before.after(events.last()));
            assert(before.stage !is EnterSerializer);
            no_way_into_the_serializer(before, events.last());
        }
    }
}

/// No stage of a replay leads to a mere serialization.
proof fn no_way_into_the_serializer<T>(before: ReplayView<T>, event: ReplayEventView<T>)
    ensures
        !(before.after(event).stage is EnterSerializer),
{
}

/// Over a run that ends with an output every transaction of the block is executed, inspected,
/// formatted and committed exactly once, in block order. The number of transactions fits in `usize`,
/// as that of every block in memory does.
pub proof fn transactions_are_replayed_in_block_order<T>(
    plan: PlanView,
    events: Seq<ReplayEventView<T>>,
)
    requires
        plan.senders.len() == plan.block.transactions.len(),
        plan.block.transactions.len() <= usize::MAX,
        ReplayView::<T>::started(plan).accepts_all(events),
        ReplayView::<T>::started(plan).after_all(events).has_output(),
    ensures
        ({
            let requests = requests_of(ReplayView::<T>::started(plan), events);
            let n = plan.block.transactions.len();
            &&& executed(requests).len() == n
            &&& inspected(requests).len() == n
            &&& formatted(requests).len() == n
            &&& committed(requests).len() == n
            &&& forall|i: int|
                0 <= i < n ==> (#[trigger] executed(requests)[i]) == i && inspected(requests)[i] == i
                    && formatted(requests)[i] == i && committed(requests)[i] == i
        }),
{
    runs_count(plan, events);
    reveal(counted);
}

/// Wherever a run has come to, what it asks for of a transaction it asks for of the one that it has
/// asked to be executed last, and it executes transactions in block order without leaving one out. A
/// transaction is executed once the one before it is committed, inspected once it is executed,
/// formatted once it is inspected and committed once it is formatted.
pub proof fn requests_name_the_executed_transaction<T>(
    plan: PlanView,
    events: Seq<ReplayEventView<T>>,
)
    requires
        plan.senders.len() == plan.block.transactions.len(),
        plan.block.transactions.len() <= usize::MAX,
        ReplayView::<T>::started(plan).accepts_all(events),
    ensures
        ({
            let start = ReplayView::<T>::started(plan);
            let requests = requests_of(start, events);
            let done = executed(requests);
            match start.after_all(events).request() {
                ReplayRequest::ExecuteTransaction(i) => {
                    &&& i == done.len()
                    &&& i < plan.block.transactions.len()
                    &&& committed(requests).len() == done.len()
                },
                ReplayRequest::FinishInspection(i) => {
                    &&& done.len() > 0
                    &&& i == done.last()
                    &&& inspected(requests).len() + 1 == done.len()
                },
                ReplayRequest::FormatTransaction(i) => {
                    &&& done.len() > 0
                    &&& i == done.last()
                    &&& inspected(requests).len() == done.len()
                    &&& formatted(requests).len() + 1 == done.len()
                },
                ReplayRequest::CommitTransaction(i) => {
                    &&& done.len() > 0
                    &&& i == done.last()
                    &&& formatted(requests).len() == done.len()
                    &&& committed(requests).len() + 1 == done.len()
                },
                _ => true,
            }
        }),
{
    runs_count(plan, events);
    reveal(counted);
}

/// No transaction is executed before the pre-execution changes are applied, and every transaction is
/// committed before the execution is finished and anything is made of its outcome.
pub proof fn transactions_come_between_the_block_stages<T>(
    plan: PlanView,
    events: Seq<ReplayEventView<T>>,
)
    requires
        plan.senders.len() == plan.block.transactions.len(),
        plan.block.transactions.len() <= usize::MAX,
        ReplayView::<T>::started(plan).accepts_all(events),
    ensures
        ({
            let start = ReplayView::<T>::started(plan);
            let requests = requests_of(start, events);
            match start.after_all(events).request() {
                ReplayRequest::ResolveParent(_)
                | ReplayRequest::OpenHistory(_)
                | ReplayRequest::SpawnWorker
                | ReplayRequest::OpenProofState(_)
                | ReplayRequest::LoadParentHeader(_)
                | ReplayRequest::ComputeParentRoot
                | ReplayRequest::ReadBlockHashes(_, _)
                | ReplayRequest::PrepareExecutor
                | ReplayRequest::ApplyPreExecution => executed(requests).len() == 0,
                ReplayRequest::FinishExecution
                | ReplayRequest::ComputeReplayRoot
                | ReplayRequest::BuildStateDiff { .. }
                | ReplayRequest::EncodeStateDiff
                | ReplayRequest::DecodeStateDiff
                | ReplayRequest::ComputeDecodedRoot
                | ReplayRequest::AssembleOutput
                | ReplayRequest::Serialize => committed(requests).len()
                    == plan.block.transactions.len(),
                _ => true,
            }
        }),
{
    runs_count(plan, events);
    reveal(counted);
}

/// Every stage is followed by the next in the order of the stages. Left out are only the proof state
/// and the roots where they are not wanted, the transactions of an empty block, the encoding and the
/// decoding of a diff that is not there; after a transaction the next one follows while there is one.
pub proof fn stages_follow_one_another<T>(replay: ReplayView<T>)
    requires
        replay.consistent(),
        !(replay.stage is Done),
        !(replay.stage is EnterSerializer),
        replay.parent is Some || place(replay.stage) < 44,
    ensures
        ({
            let here = place(replay.stage);
            let verify = replay.plan.verify_state_roots;
            let count = replay.plan.block.transactions.len();
            place(replay.next()) == if here == 0 {
                2nat
            } else if here == 3 && !(verify && replay.plan.proof_history) {
                5
            } else if here == 6 && !verify {
                9
            } else if here == 14 && count == 0 {
                27
            } else if here == 26 && replay.transaction + 1 < count {
                15
            } else if here == 27 && !verify {
                32
            } else if here == 33 && replay.parent->0.state_root
                == replay.plan.block.header.state_root {
                35
            } else if here == 36 && replay.encoded.len() == 0 {
                38
            } else if here == 38 && !verify {
                43
            } else if here == 43 {
                45
            } else {
                here + 1
            }
        }),
{
}

/// Whether a replay that has come past a stage must have been in it: stages of the root verification
/// only with verification, those of a transaction only if there is one, the encoding only for a block
/// that changes the state, the decoding only for a diff.
pub open spec fn due<T>(replay: ReplayView<T>, stage: ReplayStage) -> bool {
    let verify = replay.plan.verify_state_roots;
    match stage {
        ReplayStage::ResolveParent => replay.plan.proof_history,
        ReplayStage::OpenHistory => !replay.plan.proof_history,
        ReplayStage::OpenProofState => verify && replay.plan.proof_history,
        ReplayStage::ParentRoot | ReplayStage::ReplayRoot | ReplayStage::DecodedRoot => verify,
        ReplayStage::Cancel(CancelPoint::BeforeParentStateRoot)
        | ReplayStage::Cancel(CancelPoint::BeforeReplayStateRoot)
        | ReplayStage::Cancel(CancelPoint::AfterReplayStateRoot)
        | ReplayStage::Cancel(CancelPoint::BeforeDecodedStateRoot)
        | ReplayStage::Cancel(CancelPoint::AfterDecodedStateRoot) => verify,
        ReplayStage::Report(ReplayTestPhase::RootAComputed)
        | ReplayStage::Report(ReplayTestPhase::RootBComputed) => verify,
        ReplayStage::Execute
        | ReplayStage::Inspect
        | ReplayStage::Format
        | ReplayStage::Commit
        | ReplayStage::Cancel(CancelPoint::BeforeTransaction)
        | ReplayStage::Cancel(CancelPoint::AfterTransactionExecution)
        | ReplayStage::Cancel(CancelPoint::BeforeFormatter)
        | ReplayStage::Cancel(CancelPoint::AfterFormatter)
        | ReplayStage::Cancel(CancelPoint::AfterTransactionCommit)
        | ReplayStage::Report(ReplayTestPhase::TransactionExecuted)
        | ReplayStage::Report(ReplayTestPhase::BeforeFormatter)
        | ReplayStage::Report(ReplayTestPhase::FormatterCompleted) =>
            replay.plan.block.transactions.len() > 0,
        ReplayStage::EncodeDiff => !(replay.parent matches Some(parent) && parent.state_root
            == replay.plan.block.header.state_root),
        ReplayStage::DecodeDiff => replay.encoded.len() > 0,
        ReplayStage::EnterSerializer
        | ReplayStage::Done
        | ReplayStage::Report(ReplayTestPhase::InitialCanonicalChecked) => false,
        _ => true,
    }
}

/// Whether a run was in a stage when its event at position `i` came.
pub open spec fn was_in<T>(
    start: ReplayView<T>,
    events: Seq<ReplayEventView<T>>,
    stage: ReplayStage,
    i: int,
) -> bool {
    0 <= i < events.len() && start.after_all(events.take(i)).stage == stage
}

/// Whether a run was in a stage.
pub open spec fn went_through<T>(
    start: ReplayView<T>,
    events: Seq<ReplayEventView<T>>,
    stage: ReplayStage,
) -> bool {
    exists|i: int| #[trigger] was_in(start, events, stage, i)
}

/// A stage that is due is not left out: it is behind the replay already, or the replay is in it, or
/// it is not behind the replay after the event either.
proof fn no_due_stage_is_left_out<T>(
    before: ReplayView<T>,
    event: ReplayEventView<T>,
    stage: ReplayStage,
)
    requires
        before.consistent(),
        answers(before.stage, event),
        !failed(before.after(event)),
        !(before.stage is EnterSerializer),
        before.parent is Some || place(before.stage) < 44,
        before.stage is ResolveParent ==> before.plan.proof_history,
        due(before.after(event), stage),
        place(stage) < place(before.after(event).stage),
    ensures
        before.stage == stage || (due(before, stage) && place(stage) < place(before.stage)),
{
    let noted = before.noted(event);
    let after = before.after(event);
    assert(after == noted.moved_on());
    assert(after.stage == noted.next());
    assert(place(before.stage) == place(stage) && due(after, stage) ==> before.stage == stage);
}

/// A run that was started goes through every stage that is due before it passes it.
proof fn started_runs_go_through<T>(
    plan: PlanView,
    events: Seq<ReplayEventView<T>>,
    stage: ReplayStage,
)
    requires
        plan.senders.len() == plan.block.transactions.len(),
        plan.block.transactions.len() <= usize::MAX,
        ReplayView::<T>::started(plan).accepts_all(events),
        !failed(ReplayView::<T>::started(plan).after_all(events)),
        due(ReplayView::<T>::started(plan).after_all(events), stage),
        place(stage) < place(ReplayView::<T>::started(plan).after_all(events).stage),
    ensures
        went_through(ReplayView::<T>::started(plan), events, stage),
    decreases events.len(),
{
    let start = ReplayView::<T>::started(plan);
    started_is_consistent::<T>(plan);
    if events.len() > 0 {
        let earlier = events.drop_last();
        let before = start.after_all(earlier);
        let last = events.len() - 1;
        runs_count(plan, earlier);
        runs_know_their_parent(plan, earlier);
        assert(answers(before.stage, events.last()));
        no_due_stage_is_left_out(before, events.last(), stage);
        assert(events.take(last) =~= earlier);
        if before.stage == stage {
            assert(was_in(start, events, stage, last));
        } else {
            started_runs_go_through(plan, earlier, stage);
            let i = choose|i: int| #[trigger] was_in(start, earlier, stage, i);
            assert(events.take(i) =~= earlier.take(i));
            assert(was_in(start, events, stage, i));
        }
    }
}

/// A run that was started knows its parent once it has loaded it, and resolves it only with a proof
/// history.
proof fn runs_know_their_parent<T>(plan: PlanView, events: Seq<ReplayEventView<T>>)
    requires
        plan.senders.len() == plan.block.transactions.len(),
        plan.block.transactions.len() <= usize::MAX,
        ReplayView::<T>::started(plan).accepts_all(events),
    ensures
        ({
            let replay = ReplayView::<T>::started(plan).after_all(events);
            &&& replay.parent is Some || place(replay.stage) < 44 || failed(replay)
            &&& replay.stage is ResolveParent ==> plan.proof_history
        }),
    decreases events.len(),
{
    if events.len() > 0 {
        let start = ReplayView::<T>::started(plan);
        let before = start.after_all(events.drop_last());
        runs_count(plan, events.drop_last());
        runs_know_their_parent(plan, events.drop_last());
        assert(answers(before.stage, events.last()));
    }
}

/// A run that ends with an output has gone through every stage that is due: nothing that belongs to
/// the replay of this block was left out.
pub proof fn successful_replay_goes_through_every_due_stage<T>(
    plan: PlanView,
    events: Seq<ReplayEventView<T>>,
    stage: ReplayStage,
)
    requires
        plan.senders.len() == plan.block.transactions.len(),
        plan.block.transactions.len() <= usize::MAX,
        ReplayView::<T>::started(plan).accepts_all(events),
        ReplayView::<T>::started(plan).after_all(events).succeeded(),
        due(ReplayView::<T>::started(plan).after_all(events), stage),
    ensures
        went_through(ReplayView::<T>::started(plan), events, stage),
{
    started_runs_go_through(plan, events, stage);
}

/// Each request belongs to one stage, and speaks of the block of the replay: its parent's hash and
/// height, the at most 256 heights before it, its state root and its parent's.
pub proof fn requests_speak_of_the_block<T>(replay: ReplayView<T>)
    requires
        replay.consistent(),
    ensures
        ({
            let header = replay.plan.block.header;
            match replay.request() {
                ReplayRequest::ResolveParent(hash) => replay.stage is ResolveParent && hash
                    == header.parent_hash,
                ReplayRequest::OpenHistory(hash) => replay.stage is OpenHistory && hash
                    == header.parent_hash,
                ReplayRequest::SpawnWorker => replay.stage is EnterWorker
                    || replay.stage is EnterSerializer,
                ReplayRequest::CheckCancelled(point) => replay.stage == ReplayStage::Cancel(point),
                ReplayRequest::Report(phase) => replay.stage == ReplayStage::Report(phase),
                ReplayRequest::OpenProofState(number) => replay.stage is OpenProofState && number + 1
                    == header.number,
                ReplayRequest::LoadParentHeader(hash) => replay.stage is LoadParentHeader && hash
                    == header.parent_hash,
                ReplayRequest::ComputeParentRoot => replay.stage is ParentRoot,
                ReplayRequest::ReadBlockHashes(from, to) => {
                    &&& replay.stage is HashWindow
                    &&& to == header.number
                    &&& from + 256 == to || (from == 0 && to <= 256)
                },
                ReplayRequest::PrepareExecutor => replay.stage is PrepareExecutor,
                ReplayRequest::ApplyPreExecution => replay.stage is PreExecution,
                ReplayRequest::ExecuteTransaction(_) => replay.stage is Execute,
                ReplayRequest::FinishInspection(_) => replay.stage is Inspect,
                ReplayRequest::FormatTransaction(_) => replay.stage is Format,
                ReplayRequest::CommitTransaction(_) => replay.stage is Commit,
                ReplayRequest::FinishExecution => replay.stage is FinishExecution,
                ReplayRequest::ComputeReplayRoot => replay.stage is ReplayRoot,
                ReplayRequest::BuildStateDiff { state_root, parent_state_root } => {
                    &&& replay.stage is BuildDiff
                    &&& state_root == header.state_root
                    &&& replay.parent matches Some(parent)
                    &&& parent_state_root == parent.state_root
                },
                ReplayRequest::EncodeStateDiff => replay.stage is EncodeDiff,
                ReplayRequest::DecodeStateDiff => replay.stage is DecodeDiff,
                ReplayRequest::ComputeDecodedRoot => replay.stage is DecodedRoot,
                ReplayRequest::AssembleOutput => replay.stage is AssembleOutput,
                ReplayRequest::Serialize => replay.stage is Serialize,
                ReplayRequest::Finished => replay.stage is Done,
            }
        }),
{
}

/// A replay is started for a block with a parent: with proof history it asks for the parent's height,
/// otherwise it takes the height before its own; without a parent it ends at once.
pub proof fn replays_start_at_the_parent<T>(plan: PlanView)
    ensures
        ({
            let start = ReplayView::<T>::started(plan);
            &&& start.plan == plan
            &&& start.transaction == 0
            &&& plan.proof_history ==> start.request() == ReplayRequest::ResolveParent(
                plan.block.header.parent_hash,
            )
            &&& !plan.proof_history && plan.block.header.number > 0 ==> start.request()
                == ReplayRequest::OpenHistory(plan.block.header.parent_hash) && start.parent_number
                + 1 == plan.block.header.number
            &&& !plan.proof_history && plan.block.header.number == 0 ==> start.request() is Finished
                && (start.result matches Some(Err(error)) && error.code
                == EXECUTION_CONSENSUS_MISMATCH)
        }),
{
}

/// The resolved parent state, the loaded parent header and the hashes that were read are those of the
/// block's parent, or the replay ends.
pub proof fn wrong_parents_end_the_replay<T>(
    replay: ReplayView<T>,
    number: u64,
    parent: Option<ParentHeader>,
    hashes: Seq<B256>,
)
    requires
        replay.consistent(),
    ensures
        ({
            let header = replay.plan.block.header;
            &&& replay.stage is ResolveParent ==> (replay.after(
                ReplayEventView::ParentResolved(number),
            ).stage is Done <==> number + 1 != header.number)
            &&& replay.stage is LoadParentHeader ==> (replay.after(
                ReplayEventView::ParentHeader(parent),
            ).stage is Done <==> !(parent matches Some(parent) && parent.number + 1
                == header.number))
            &&& replay.stage is LoadParentHeader && !(replay.after(
                ReplayEventView::ParentHeader(parent),
            ).stage is Done) ==> replay.after(ReplayEventView::ParentHeader(parent)).parent == parent
            &&& replay.stage is HashWindow ==> (replay.after(
                ReplayEventView::Hashes(hashes),
            ).stage is Done <==> !({
                &&& hashes.len() == header.number || (hashes.len() == 256 && header.number > 256)
                &&& header.number <= 256 || hashes.len() == 256
                &&& hashes.len() > 0
                &&& hashes[hashes.len() - 1] == header.parent_hash
            }))
        }),
{
}

/// The execution must give the stored receipts and the header's gas, and its requests must have the
/// header's hash from Unzen on; before, the header must have none. Otherwise the replay ends.
pub proof fn wrong_executions_end_the_replay<T>(replay: ReplayView<T>, outcome: OutcomeView)
    requires
        replay.consistent(),
        replay.stage is FinishExecution,
    ensures
        ({
            let header = replay.plan.block.header;
            let hash = requests_hash_of(outcome.requests);
            let after = replay.after(ReplayEventView::Executed(outcome));
            &&& after.stage is Done ==> {
                ||| outcome.receipts != replay.plan.stored_receipts
                ||| outcome.gas_used != header.gas_used
                ||| replay.plan.is_unzen_active && header.requests_hash != Some(hash)
                ||| !replay.plan.is_unzen_active && header.requests_hash is Some
            }
            &&& !(after.stage is Done) ==> {
                &&& outcome.receipts == replay.plan.stored_receipts
                &&& outcome.gas_used == header.gas_used
                &&& replay.plan.is_unzen_active ==> header.requests_hash == Some(hash)
                &&& !replay.plan.is_unzen_active ==> header.requests_hash is None
            }
        }),
{
}

/// What fails while the block's history is read makes the history unavailable; everything else that
/// fails is a mismatch. A lost worker makes the block unavailable. The text is passed on.
pub proof fn failures_are_classified<T>(replay: ReplayView<T>, text: Seq<char>)
    requires
        replay.consistent(),
    ensures
        ({
            let request = replay.request();
            let history = {
                ||| request is ResolveParent
                ||| request is OpenHistory
                ||| request is OpenProofState
                ||| request is LoadParentHeader
                ||| request is ComputeParentRoot
                ||| request is ReadBlockHashes
            };
            let after = replay.after(ReplayEventView::Failed(text));
            let lost = replay.after(ReplayEventView::WorkerLost(text));
            &&& after.request() is Finished
            &&& after.result matches Some(Err(error))
            &&& error.data == text
            &&& error.code == if history {
                BLOCK_OR_HISTORY_UNAVAILABLE
            } else {
                EXECUTION_CONSENSUS_MISMATCH
            }
            &&& lost.request() is Finished
            &&& lost.result matches Some(Err(loss))
            &&& loss.data == text
            &&& loss.code == BLOCK_OR_HISTORY_UNAVAILABLE
        }),
{
}

/// What the formatted transactions of a run bring, in order.
pub open spec fn formatted_traces<T>(events: Seq<ReplayEventView<T>>) -> Seq<T>
    decreases events.len(),
{
    if events.len() == 0 {
        seq![]
    } else {
        match events.last() {
            ReplayEventView::Formatted { traces, .. } => formatted_traces(events.drop_last())
                + traces,
            _ => formatted_traces(events.drop_last()),
        }
    }
}

/// What the formatted transactions of a run bring of reverted frames, in order.
pub open spec fn formatted_error_traces<T>(events: Seq<ReplayEventView<T>>) -> Seq<T>
    decreases events.len(),
{
    if events.len() == 0 {
        seq![]
    } else {
        match events.last() {
            ReplayEventView::Formatted { error_traces, .. } => formatted_error_traces(
                events.drop_last(),
            ) + error_traces,
            _ => formatted_error_traces(events.drop_last()),
        }
    }
}

/// The events that the formatted transactions of a run bring, in order.
pub open spec fn formatted_events<T>(events: Seq<ReplayEventView<T>>) -> Seq<
    EventView,
>
    decreases events.len(),
{
    if events.len() == 0 {
        seq![]
    } else {
        match events.last() {
            ReplayEventView::Formatted { events: brought, .. } => formatted_events(
                events.drop_last(),
            ) + brought,
            _ => formatted_events(events.drop_last()),
        }
    }
}

/// The events of reverted frames that the formatted transactions of a run bring, in order.
pub open spec fn formatted_error_events<T>(events: Seq<ReplayEventView<T>>) -> Seq<
    EventView,
>
    decreases events.len(),
{
    if events.len() == 0 {
        seq![]
    } else {
        match events.last() {
            ReplayEventView::Formatted { error_events, .. } => formatted_error_events(
                events.drop_last(),
            ) + error_events,
            _ => formatted_error_events(events.drop_last()),
        }
    }
}

/// A replay collects what the formatter brings, transaction by transaction and nothing else, and its
/// output is the text that was serialized.
pub proof fn replays_collect_what_is_formatted<T>(
    plan: PlanView,
    events: Seq<ReplayEventView<T>>,
)
    requires
        ReplayView::<T>::started(plan).accepts_all(events),
    ensures
        ({
            let replay = ReplayView::<T>::started(plan).after_all(events);
            &&& replay.traces == formatted_traces(events)
            &&& replay.error_traces == formatted_error_traces(events)
            &&& replay.events == formatted_events(events)
            &&& replay.error_events == formatted_error_events(events)
            &&& replay.result matches Some(Ok(text)) ==> serialized(events, text)
        }),
    decreases events.len(),
{
    if events.len() > 0 {
        let earlier = events.drop_last();
        replays_collect_what_is_formatted(plan, earlier);
        let before = ReplayView::<T>::started(plan).after_all(earlier);
        assert(events.last() == events[events.len() - 1]);
        assert(answers(before.stage, events.last()));
        if let Some(Ok(text)) = before.result {
            let i = choose|i: int|
                0 <= i < earlier.len() && (#[trigger] earlier[i])
                    == ReplayEventView::<T>::Serialized(text);
            assert(events[i] == ReplayEventView::<T>::Serialized(text));
        }
    }
}

/// Whether one of the events brings a serialized text.
pub open spec fn serialized<T>(events: Seq<ReplayEventView<T>>, text: Seq<char>) -> bool {
    exists|i: int|
        0 <= i < events.len() && (#[trigger] events[i]) == ReplayEventView::<T>::Serialized(text)
}

/// A cancelled replay ends with a cancellation whose text says where it was, in terms of what would
/// have followed; a replay that is not cancelled goes on.
pub proof fn cancelled_replays_say_where_they_were<T>(replay: ReplayView<T>)
    requires
        replay.consistent(),
        replay.request() is CheckCancelled,
    ensures
        ({
            let ended = replay.after(ReplayEventView::Cancelled(true));
            let gone_on = replay.after(ReplayEventView::Cancelled(false));
            &&& ended.request() is Finished
            &&& ended.result matches Some(Err(error))
            &&& error.code == REQUEST_CANCELLED
            &&& match gone_on.request() {
                ReplayRequest::OpenProofState(_)
                | ReplayRequest::LoadParentHeader(_) => error.data == "before provider load"@,
                ReplayRequest::ComputeParentRoot => error.data == "before parent state root"@,
                ReplayRequest::ApplyPreExecution => error.data == "before pre-execution"@,
                ReplayRequest::CheckCancelled(_) => error.data == if replay.transaction == 0
                    && gone_on.transaction == 0 {
                    "after pre-execution"@
                } else {
                    "after transaction commit"@
                },
                ReplayRequest::FinishExecution => error.data == if gone_on.transaction == 0 {
                    "after pre-execution"@
                } else {
                    "after transaction commit"@
                },
                ReplayRequest::ExecuteTransaction(_) => error.data == "before transaction"@,
                ReplayRequest::FinishInspection(_) => error.data == "after transaction execution"@,
                ReplayRequest::FormatTransaction(_) => error.data == "before formatter"@,
                ReplayRequest::CommitTransaction(_) => error.data == "after formatter"@,
                ReplayRequest::ComputeReplayRoot => error.data == "before replay state root"@,
                ReplayRequest::BuildStateDiff { .. } => error.data == "after replay state root"@,
                ReplayRequest::EncodeStateDiff
                | ReplayRequest::Report(ReplayTestPhase::StateDiffEncoded) => error.data
                    == "before state-diff encoding"@,
                ReplayRequest::DecodeStateDiff
                | ReplayRequest::Report(ReplayTestPhase::StateDiffDecoded) => error.data
                    == "after state-diff encoding"@,
                ReplayRequest::ComputeDecodedRoot => error.data == "before decoded state root"@,
                ReplayRequest::AssembleOutput
                | ReplayRequest::Finished => error.data == "after decoded state root"@,
                ReplayRequest::Serialize => error.data == "before JSON serialization"@,
                ReplayRequest::Report(phase) => phase is JsonSerialized && error.data
                    == "after JSON serialization"@,
                _ => false,
            }
        }),
{
}

/// A computed root passes exactly if it is the one that the replay vouches for: the parent header's
/// for the parent state, the block header's for the replayed state, and the block header's again for
/// the decoded diff. Any other root is a mismatch.
pub proof fn roots_pass_exactly<T>(replay: ReplayView<T>, root: B256)
    requires
        replay.consistent(),
        replay.request() is ComputeParentRoot || replay.request() is ComputeReplayRoot
            || replay.request() is ComputeDecodedRoot,
    ensures
        ({
            let after = replay.after(ReplayEventView::Root(root));
            let expected = if replay.request() is ComputeParentRoot {
                replay.parent->0.state_root
            } else {
                replay.plan.block.header.state_root
            };
            &&& root == expected ==> !(after.stage is Done) && after.result is None
            &&& root != expected ==> (after.result matches Some(Err(error)) && error.code
                == EXECUTION_CONSENSUS_MISMATCH)
        }),
{
}

/// The output is assembled exactly if the collected events are the stored logs; otherwise the replay
/// ends with a mismatch where it would have been assembled.
pub proof fn outputs_need_the_stored_logs<T>(replay: ReplayView<T>)
    requires
        replay.consistent(),
        !(replay.stage is Done),
        replay.next() is AssembleOutput,
    ensures
        ({
            let fault = events_fault(replay.events, all_logs(replay.plan.stored_receipts));
            let after = replay.moved_on();
            &&& fault is None ==> after.request() is AssembleOutput && after.result is None
            &&& fault is Some ==> (after.result matches Some(Err(error)) && error.code
                == EXECUTION_CONSENSUS_MISMATCH && error.data == fault->0)
        }),
{
}

/// A stage accepts what its request can bring and nothing else.
pub proof fn requests_are_answered_in_kind<T>(replay: ReplayView<T>, event: ReplayEventView<T>)
    requires
        replay.consistent(),
    ensures
        ({
            let request = replay.request();
            let fits = answers(replay.stage, event);
            &&& event is ParentResolved ==> (fits <==> request is ResolveParent)
            &&& event is ParentHeader ==> (fits <==> request is LoadParentHeader)
            &&& event is Root ==> (fits <==> request is ComputeParentRoot
                || request is ComputeReplayRoot || request is ComputeDecodedRoot)
            &&& event is Hashes ==> (fits <==> request is ReadBlockHashes)
            &&& event is Formatted ==> (fits <==> request is FormatTransaction)
            &&& event is Executed ==> (fits <==> request is FinishExecution)
            &&& event is Encoded ==> (fits <==> request is EncodeStateDiff)
            &&& event is Serialized ==> (fits <==> request is Serialize)
            &&& event is Cancelled ==> (fits <==> request is CheckCancelled)
            &&& event is Proceed ==> (fits <==> {
                ||| request is OpenHistory
                ||| request is SpawnWorker
                ||| request is Report
                ||| request is OpenProofState
                ||| request is PrepareExecutor
                ||| request is ApplyPreExecution
                ||| request is ExecuteTransaction
                ||| request is FinishInspection
                ||| request is CommitTransaction
                ||| request is BuildStateDiff
                ||| request is DecodeStateDiff
                ||| request is AssembleOutput
            })
            &&& event is Failed ==> (fits <==> !({
                ||| request is SpawnWorker
                ||| request is CheckCancelled
                ||| request is Report
                ||| request is EncodeStateDiff
                ||| request is AssembleOutput
                ||| request is Finished
            }))
            &&& event is WorkerLost ==> (fits <==> !(request is ResolveParent
                || request is OpenHistory || request is Finished))
            &&& request is Finished ==> !fits
        }),
{
}

/// A wrong parent or root is named together with what it should have been.
pub proof fn mismatches_name_both_sides<T>(
    replay: ReplayView<T>,
    number: u64,
    parent: ParentHeader,
    root: B256,
)
    requires
        replay.consistent(),
    ensures
        ({
            let header = replay.plan.block.header;
            let resolved = replay.after(ReplayEventView::ParentResolved(number)).result;
            let loaded = replay.after(ReplayEventView::ParentHeader(Some(parent))).result;
            let missing = replay.after(ReplayEventView::ParentHeader(None)).result;
            let computed = replay.after(ReplayEventView::Root(root)).result;
            &&& replay.stage is ResolveParent && number + 1 != header.number ==> (
            resolved matches Some(Err(error)) && error.code == EXECUTION_CONSENSUS_MISMATCH
                && error.data == "parent height "@ + decimal(number as nat)
                + " does not precede block "@ + decimal(header.number as nat))
            &&& replay.stage is LoadParentHeader && parent.number + 1 != header.number ==> (
            loaded matches Some(Err(error)) && error.code == EXECUTION_CONSENSUS_MISMATCH
                && error.data == "parent header height "@ + decimal(parent.number as nat)
                + " differs from resolved state height "@ + decimal((header.number - 1) as nat))
            &&& replay.stage is LoadParentHeader ==> (missing matches Some(Err(error)) && error.code
                == BLOCK_OR_HISTORY_UNAVAILABLE && error.data == hex_text(header.parent_hash.0@))
            &&& replay.request() is ComputeParentRoot && root != replay.parent->0.state_root ==> (
            computed matches Some(Err(error)) && error.data == "parent state provider root "@
                + hex_text(root.0@) + " != parent header root "@ + hex_text(
                replay.parent->0.state_root.0@,
            ))
            &&& replay.request() is ComputeReplayRoot && root != header.state_root ==> (
            computed matches Some(Err(error)) && error.data == "replay root "@ + hex_text(root.0@)
                + " != header root "@ + hex_text(header.state_root.0@))
            &&& replay.request() is ComputeDecodedRoot && root != header.state_root ==> (
            computed matches Some(Err(error)) && error.data == "decoded root "@ + hex_text(root.0@)
                + " != replay root "@ + hex_text(header.state_root.0@))
        }),
{
}

/// An event brings its own and leaves the rest: the height of the parent, the parent header, the
/// replayed root, what was formatted, the encoded diff and the serialized output each come with one
/// kind of event; the current transaction moves on by one when it is over, and at no other time.
pub proof fn events_bring_their_own<T>(before: ReplayView<T>, event: ReplayEventView<T>)
    requires
        before.consistent(),
        answers(before.stage, event),
        !failed(before.after(event)),
    ensures
        ({
            let after = before.after(event);
            &&& after.plan == before.plan
            &&& after.transaction == if before.request() == ReplayRequest::CheckCancelled(
                CancelPoint::AfterTransactionCommit,
            ) {
                before.transaction + 1
            } else {
                before.transaction
            }
            &&& after.parent_number == match event {
                ReplayEventView::ParentResolved(number) => number,
                _ => before.parent_number,
            }
            &&& after.parent == match event {
                ReplayEventView::ParentHeader(parent) => parent,
                _ => before.parent,
            }
            &&& after.replay_root == match event {
                ReplayEventView::Root(root) if before.request() is ComputeReplayRoot => Some(root),
                _ => before.replay_root,
            }
            &&& after.encoded == match event {
                ReplayEventView::Encoded(bytes) => bytes,
                _ => before.encoded,
            }
            &&& after.result == match event {
                ReplayEventView::Serialized(text) => Some(Ok(text)),
                _ => before.result,
            }
            &&& !(event is Formatted) ==> {
                &&& after.traces == before.traces
                &&& after.error_traces == before.error_traces
                &&& after.events == before.events
                &&& after.error_events == before.error_events
            }
        }),
{
}

/// The tracing inspector is enabled from right before a transaction is executed until right after it
/// is committed; neither the pre-execution changes nor the end of the execution are traced.
pub proof fn transactions_alone_are_inspected<T>(replay: ReplayView<T>)
    requires
        replay.consistent(),
    ensures
        replays_transaction(replay.stage) <==> match replay.request() {
            ReplayRequest::ExecuteTransaction(_)
            | ReplayRequest::FinishInspection(_)
            | ReplayRequest::FormatTransaction(_)
            | ReplayRequest::CommitTransaction(_) => true,
            ReplayRequest::CheckCancelled(point) => point is BeforeTransaction
                || point is AfterTransactionExecution || point is BeforeFormatter
                || point is AfterFormatter || point is AfterTransactionCommit,
            ReplayRequest::Report(phase) => phase is TransactionExecuted || phase is BeforeFormatter
                || phase is FormatterCompleted,
            _ => false,
        },
{
}

/// An output that needs no replay takes a worker, and from there on goes the way of a built output:
/// its serialization, and nothing before.
pub proof fn serializations_begin_with_the_output<T>(plan: PlanView)
    ensures
        ({
            let start = ReplayView::<T>::serializing(plan);
            let entered = start.after(ReplayEventView::Proceed);
            let reported = entered.after(ReplayEventView::Proceed);
            &&& start.plan == plan
            &&& start.request() is SpawnWorker
            &&& entered.request() == ReplayRequest::Report(ReplayTestPhase::OutputBuilt)
            &&& reported.request() == ReplayRequest::CheckCancelled(
                CancelPoint::BeforeJsonSerialization,
            )
            &&& reported.after(ReplayEventView::Cancelled(false)).request() is Serialize
            &&& start.parent is None
            &&& start.result is None
        }),
{
}

} // verus!
