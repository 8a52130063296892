//! What holds of whole runs of a replay.
use crate::block::all_logs;
use crate::commitments::requests_hash_of;
use crate::error::{cancelled, BLOCK_REORGED, REQUEST_CANCELLED};
use crate::fixed::B256;
use crate::trace::canonical::hashes_fault;
use crate::trace::events::events_fault;
use crate::trace::execution::execution_agrees;
use crate::trace::probe::{ReplayTestPhase, ReplayTestResourceSnapshot};
use crate::trace::replay_model::{
    answers, concludes_block, events_keep_replays_consistent, place, verifies_roots, CancelPoint,
    ParentHeader, PlanView, ReplayEventView, ReplayStage, ReplayView,
};
use vstd::prelude::*;

verus! {

impl<T> ReplayView<T> {
    /// The replay after a sequence of events.
    pub open spec fn after_all(self, events: Seq<ReplayEventView<T>>) -> ReplayView<T>
        decreases events.len(),
    {
        if events.len() == 0 {
            self
        } else {
            self.after_all(events.drop_last()).after(events.last())
        }
    }

    /// Whether every event of a sequence answers what the replay waits for when it comes.
    pub open spec fn accepts_all(self, events: Seq<ReplayEventView<T>>) -> bool
        decreases events.len(),
    {
        events.len() > 0 ==> {
            &&& self.accepts_all(events.drop_last())
            &&& answers(self.after_all(events.drop_last()).stage, events.last())
        }
    }

    /// How far the replay has come, as a number.
    pub open spec fn progress(self) -> int {
        let place = place(self.stage);
        if place < 15 {
            place as int
        } else if place <= 26 {
            15 + 12 * self.transaction + (place - 15)
        } else {
            15 + 12 * self.plan.block.transactions.len() + (place - 27)
        }
    }
}

/// Every event takes a replay closer to its end.
pub proof fn every_event_makes_progress<T>(replay: ReplayView<T>, event: ReplayEventView<T>)
    requires
        replay.consistent(),
        answers(replay.stage, event),
    ensures
        replay.progress() < replay.after(event).progress(),
{
    events_keep_replays_consistent(replay, event);
}

/// A run of a consistent replay stays consistent, and each event makes progress.
pub proof fn runs_stay_consistent<T>(replay: ReplayView<T>, events: Seq<ReplayEventView<T>>)
    requires
        replay.consistent(),
        replay.accepts_all(events),
    ensures
        replay.after_all(events).consistent(),
        replay.after_all(events).plan == replay.plan,
        replay.progress() + events.len() <= replay.after_all(events).progress(),
    decreases events.len(),
{
    if events.len() > 0 {
        runs_stay_consistent(replay, events.drop_last());
        events_keep_replays_consistent(replay.after_all(events.drop_last()), events.last());
        every_event_makes_progress(replay.after_all(events.drop_last()), events.last());
    }
}

/// A replay ends after a number of events that is bounded by the number of its transactions.
pub proof fn replays_end<T>(replay: ReplayView<T>, events: Seq<ReplayEventView<T>>)
    requires
        replay.consistent(),
        replay.accepts_all(events),
    ensures
        events.len() <= 39 + 12 * replay.plan.block.transactions.len(),
{
    runs_stay_consistent(replay, events);
}

/// Without state-root verification no stage of a replay computes a state root or opens
/// proof-history state.
pub proof fn roots_are_computed_only_on_demand<T>(
    replay: ReplayView<T>,
    events: Seq<ReplayEventView<T>>,
)
    requires
        replay.consistent(),
        replay.accepts_all(events),
        !replay.plan.verify_state_roots,
    ensures
        !verifies_roots(replay.after_all(events).stage),
        !(replay.after_all(events).request() is ComputeParentRoot),
        !(replay.after_all(events).request() is ComputeReplayRoot),
        !(replay.after_all(events).request() is ComputeDecodedRoot),
        !(replay.after_all(events).request() is OpenProofState),
{
    runs_stay_consistent(replay, events);
}

/// A cancelled request ends the replay at the next check, with the name of the check and without
/// another request.
pub proof fn cancellation_ends_the_replay<T>(replay: ReplayView<T>, point: CancelPoint)
    requires
        replay.stage == ReplayStage::Cancel(point),
    ensures
        ({
            let after = replay.after(ReplayEventView::Cancelled(true));
            &&& after.stage is Done
            &&& after.result == Some(Err::<Seq<char>, _>(cancelled(point.label())))
            &&& after.request() is Finished
        }),
{
}

/// With state-root verification every reported phase but the last is followed by a cancellation
/// check.
pub proof fn every_phase_is_followed_by_a_check<T>(replay: ReplayView<T>, phase: ReplayTestPhase)
    requires
        replay.consistent(),
        replay.plan.verify_state_roots,
        replay.stage == ReplayStage::Report(phase),
        !(phase is JsonSerialized),
    ensures
        replay.after(ReplayEventView::Proceed).stage is Cancel,
{
}

/// With state-root verification a replay that is cancelled in any phase but the last, and whose
/// worker lives on, never reaches another phase: it does nothing but one more cancellation check,
/// and ends as cancelled, holding nothing.
pub proof fn cancelled_replay_reaches_no_further_phase<T>(
    replay: ReplayView<T>,
    phase: ReplayTestPhase,
    events: Seq<ReplayEventView<T>>,
)
    requires
        replay.consistent(),
        replay.plan.verify_state_roots,
        replay.stage == ReplayStage::Report(phase),
        !(phase is JsonSerialized),
        replay.accepts_all(events),
        forall|i: int|
            0 <= i < events.len() ==> !((#[trigger] events[i]) is WorkerLost) && events[i]
                != ReplayEventView::<T>::Cancelled(false),
    ensures
        events.len() <= 2,
        events.len() == 1 ==> replay.after_all(events).request() is CheckCancelled,
        events.len() == 2 ==> {
            &&& replay.after_all(events).stage is Done
            &&& replay.after_all(events).held() == ReplayTestResourceSnapshot::drained()
            &&& replay.after_all(events).result matches Some(Err(error))
            &&& error.code == REQUEST_CANCELLED
        },
    decreases events.len(),
{
    if events.len() > 0 {
        let earlier = events.drop_last();
        cancelled_replay_reaches_no_further_phase(replay, phase, earlier);
        every_phase_is_followed_by_a_check(replay, phase);
        assert(events.last() == events[events.len() - 1]);
        if events.len() == 1 {
            assert(replay.after_all(earlier) == replay);
        }
    }
}

/// Without state-root verification every phase but the last and two others is followed by a
/// cancellation check: after the provider is loaded, and after the state diff is decoded, the replay
/// goes on unchecked.
pub proof fn two_phases_are_unchecked_without_roots<T>(
    replay: ReplayView<T>,
    phase: ReplayTestPhase,
)
    requires
        replay.consistent(),
        !replay.plan.verify_state_roots,
        replay.stage == ReplayStage::Report(phase),
        !(phase is JsonSerialized),
    ensures
        replay.after(ReplayEventView::Proceed).stage is Cancel <==> !(phase is ProviderLoaded
            || phase is StateDiffDecoded),
{
}

/// A replay that was started, rather than a mere serialization, knows its parent from the time the
/// header is loaded.
pub open spec fn knows_its_parent<T>(replay: ReplayView<T>) -> bool {
    place(replay.stage) >= 6 && !failed(replay) ==> replay.parent is Some
}

/// Whether one of the events is an execution that agrees with the block's stored data.
pub open spec fn has_agreeing_execution<T>(
    plan: PlanView,
    events: Seq<ReplayEventView<T>>,
) -> bool {
    exists|i: int|
        0 <= i < events.len() && agreeing_execution(plan, #[trigger] events[i])
}

/// Whether an event is an execution that agrees with the block's stored data.
pub open spec fn agreeing_execution<T>(plan: PlanView, event: ReplayEventView<T>) -> bool {
    event matches ReplayEventView::Executed(outcome) && execution_agrees(
        plan.block.header,
        plan.stored_receipts,
        plan.is_unzen_active,
        outcome.receipts,
        outcome.gas_used,
        requests_hash_of(outcome.requests),
    )
}

/// Whether an event brings the complete `BLOCKHASH` window of the block.
pub open spec fn complete_window<T>(plan: PlanView, event: ReplayEventView<T>) -> bool {
    event matches ReplayEventView::Hashes(hashes) && hashes_fault(
        plan.block.header.number,
        plan.block.header.parent_hash,
        hashes,
    ) is None
}

/// Whether one of the events brings the complete `BLOCKHASH` window of the block.
pub open spec fn has_complete_window<T>(plan: PlanView, events: Seq<ReplayEventView<T>>) -> bool {
    exists|i: int| 0 <= i < events.len() && complete_window(plan, #[trigger] events[i])
}

/// Whether the event at position `i` says that the opened parent state has the root of the parent
/// header.
pub open spec fn parent_root_event<T>(
    start: ReplayView<T>,
    events: Seq<ReplayEventView<T>>,
    parent: ParentHeader,
    i: int,
) -> bool {
    let before = start.after_all(events.take(i));
    &&& 0 <= i < events.len()
    &&& before.stage is ParentRoot
    &&& before.parent == Some(parent)
    &&& events[i] == ReplayEventView::<T>::Root(parent.state_root)
}

/// Whether some event says that the opened parent state has the root of the parent header.
pub open spec fn has_parent_root<T>(
    start: ReplayView<T>,
    events: Seq<ReplayEventView<T>>,
    parent: ParentHeader,
) -> bool {
    exists|i: int| #[trigger] parent_root_event(start, events, parent, i)
}

/// Whether the event at position `i` says that the decoded state diff leads to the header's root.
pub open spec fn decoded_root_event<T>(
    start: ReplayView<T>,
    events: Seq<ReplayEventView<T>>,
    i: int,
) -> bool {
    &&& 0 <= i < events.len()
    &&& start.after_all(events.take(i)).stage is DecodedRoot
    &&& events[i] == ReplayEventView::<T>::Root(start.plan.block.header.state_root)
}

/// Whether some event says that the decoded state diff leads to the header's root.
pub open spec fn has_decoded_root<T>(start: ReplayView<T>, events: Seq<ReplayEventView<T>>) -> bool {
    exists|i: int| #[trigger] decoded_root_event(start, events, i)
}

/// Whether the replay has failed.
pub open spec fn failed<T>(replay: ReplayView<T>) -> bool {
    replay.result matches Some(Err(_))
}

/// Whether the events of a replay whose output is being assembled are the stored logs.
pub open spec fn events_are_stored_logs<T>(replay: ReplayView<T>) -> bool {
    place(replay.stage) >= 43 && !failed(replay) ==> events_fault(
        replay.events,
        all_logs(replay.plan.stored_receipts),
    ) is None
}

/// Going on passes the end of the execution, and the check of the events, only from there.
proof fn moving_on_passes_in_order<T>(noted: ReplayView<T>)
    requires
        noted.stage !is Done,
        noted.stage != ReplayStage::Report(ReplayTestPhase::InitialCanonicalChecked),
        !(noted.stage is EnterSerializer),
    ensures
        ({
            let after = noted.moved_on();
            &&& !(after.stage is EnterSerializer)
            &&& !failed(after) && place(after.stage) > 27 ==> place(noted.stage) >= 27
            &&& !failed(after) && place(after.stage) > 9 ==> place(noted.stage) >= 9
            &&& !failed(after) && place(after.stage) >= 6 ==> place(noted.stage) >= 5
            &&& !failed(after) && noted.plan.verify_state_roots && place(after.stage) > 8 ==> place(
                noted.stage,
            ) >= 8
            &&& !failed(after) && noted.replay_root is Some && place(after.stage) > 40 ==> place(
                noted.stage,
            ) >= 40
            &&& !failed(after) && place(after.stage) >= 43 ==> place(noted.stage) >= 38
            &&& !failed(after) && place(after.stage) == 43 ==> events_fault(
                noted.events,
                all_logs(noted.plan.stored_receipts),
            ) is None
            &&& place(noted.stage) >= 43 ==> place(after.stage) > 43
            &&& after.stage is AssembleOutput || place(noted.stage) >= 43 || place(after.stage)
                < 43 || failed(after)
            &&& after.parent == noted.parent
            &&& after.events == noted.events
            &&& after.plan == noted.plan
        }),
{
}

/// What holds at every moment of a replay that was started.
#[verifier::opaque]
pub open spec fn sound<T>(replay: ReplayView<T>) -> bool {
    &&& replay.consistent()
    &&& knows_its_parent(replay)
    &&& events_are_stored_logs(replay)
    &&& !(replay.stage is EnterSerializer)
}

/// Whether the replay has passed the end of the execution.
#[verifier::opaque]
pub open spec fn past_execution<T>(replay: ReplayView<T>) -> bool {
    place(replay.stage) > 27 && !failed(replay)
}

/// Whether the replay has passed the check of the `BLOCKHASH` window.
#[verifier::opaque]
pub open spec fn past_window<T>(replay: ReplayView<T>) -> bool {
    place(replay.stage) > 9 && !failed(replay)
}

/// Whether the replay has verified the root of the parent state.
#[verifier::opaque]
pub open spec fn past_parent_root<T>(replay: ReplayView<T>) -> bool {
    replay.plan.verify_state_roots && place(replay.stage) > 8 && !failed(replay)
}

/// Whether the replay has verified the root of the decoded state diff.
#[verifier::opaque]
pub open spec fn past_decoded_root<T>(replay: ReplayView<T>) -> bool {
    replay.plan.verify_state_roots && place(replay.stage) > 40 && !failed(replay)
}

/// One step of a replay that was started.
proof fn started_step<T>(before: ReplayView<T>, event: ReplayEventView<T>)
    requires
        sound(before),
        answers(before.stage, event),
    ensures
        sound(before.after(event)),
        before.after(event).plan == before.plan,
        past_execution(before.after(event)) ==> past_execution(before) || agreeing_execution(
            before.plan,
            event,
        ),
        past_window(before.after(event)) ==> past_window(before) || complete_window(
            before.plan,
            event,
        ),
        past_parent_root(before.after(event)) ==> {
            &&& before.parent matches Some(parent)
            &&& before.after(event).parent == Some(parent)
            &&& past_parent_root(before) || (before.stage is ParentRoot && event
                == ReplayEventView::<T>::Root(parent.state_root))
        },
        past_decoded_root(before.after(event)) ==> past_decoded_root(before) || (
        before.stage is DecodedRoot && event == ReplayEventView::<T>::Root(
            before.plan.block.header.state_root,
        )),
{
    reveal(sound);
    reveal(past_execution);
    reveal(past_window);
    reveal(past_parent_root);
    reveal(past_decoded_root);
    events_keep_replays_consistent(before, event);
    match event {
        ReplayEventView::ParentResolved(number) => {
            moving_on_passes_in_order(ReplayView { parent_number: number, ..before });
        },
        ReplayEventView::ParentHeader(parent) => {
            moving_on_passes_in_order(ReplayView { parent, ..before });
        },
        ReplayEventView::Root(root) => {
            moving_on_passes_in_order(
                ReplayView {
                    replay_root: if before.stage is ReplayRoot {
                        Some(root)
                    } else {
                        before.replay_root
                    },
                    ..before
                },
            );
        },
        ReplayEventView::Formatted { traces, error_traces, events, error_events } => {
            moving_on_passes_in_order(
                ReplayView {
                    traces: before.traces + traces,
                    error_traces: before.error_traces + error_traces,
                    events: before.events + events,
                    error_events: before.error_events + error_events,
                    ..before
                },
            );
        },
        ReplayEventView::Encoded(bytes) => {
            moving_on_passes_in_order(ReplayView { encoded: bytes, ..before });
        },
        ReplayEventView::Serialized(text) => {
            moving_on_passes_in_order(ReplayView { result: Some(Ok(text)), ..before });
        },
        _ => {
            moving_on_passes_in_order(before);
        },
    }
}

/// A replay that was just started is sound, and has not been executed.
proof fn started_replays<T>(plan: PlanView)
    requires
        plan.senders.len() == plan.block.transactions.len(),
    ensures
        sound(ReplayView::<T>::started(plan)),
        ReplayView::<T>::started(plan).plan == plan,
        !past_execution(ReplayView::<T>::started(plan)),
        !past_window(ReplayView::<T>::started(plan)),
        !past_parent_root(ReplayView::<T>::started(plan)),
        !past_decoded_root(ReplayView::<T>::started(plan)),
{
    reveal(sound);
    reveal(past_execution);
    reveal(past_window);
    reveal(past_parent_root);
    reveal(past_decoded_root);
}

/// Every run of a replay that was started is sound. It passes the end of the execution only with an
/// execution that agrees with the stored data, and the check of the `BLOCKHASH` window only with the
/// complete window.
proof fn started_runs<T>(plan: PlanView, events: Seq<ReplayEventView<T>>)
    requires
        plan.senders.len() == plan.block.transactions.len(),
        ReplayView::<T>::started(plan).accepts_all(events),
    ensures
        ({
            let replay = ReplayView::<T>::started(plan).after_all(events);
            &&& sound(replay)
            &&& replay.plan == plan
            &&& past_execution(replay) ==> has_agreeing_execution(plan, events)
            &&& past_window(replay) ==> has_complete_window(plan, events)
        }),
    decreases events.len(),
{
    let start = ReplayView::<T>::started(plan);
    started_replays::<T>(plan);
    if events.len() > 0 {
        let earlier = events.drop_last();
        started_runs(plan, earlier);
        started_step(start.after_all(earlier), events.last());
        if has_agreeing_execution(plan, earlier) {
            let i = choose|i: int|
                0 <= i < earlier.len() && agreeing_execution(plan, #[trigger] earlier[i]);
            assert(agreeing_execution(plan, events[i]));
        }
        if agreeing_execution(plan, events.last()) {
            assert(agreeing_execution(plan, events[events.len() - 1]));
        }
        if has_complete_window(plan, earlier) {
            let i = choose|i: int|
                0 <= i < earlier.len() && complete_window(plan, #[trigger] earlier[i]);
            assert(complete_window(plan, events[i]));
        }
        if complete_window(plan, events.last()) {
            assert(complete_window(plan, events[events.len() - 1]));
        }
    }
}

/// A run of a replay that was started verifies the parent root and the decoded root only with events
/// that bring them.
proof fn started_runs_verify_roots<T>(plan: PlanView, events: Seq<ReplayEventView<T>>)
    requires
        plan.senders.len() == plan.block.transactions.len(),
        ReplayView::<T>::started(plan).accepts_all(events),
    ensures
        ({
            let start = ReplayView::<T>::started(plan);
            let replay = start.after_all(events);
            &&& past_parent_root(replay) ==> replay.parent is Some && has_parent_root(
                start,
                events,
                replay.parent->0,
            )
            &&& past_decoded_root(replay) ==> has_decoded_root(start, events)
        }),
    decreases events.len(),
{
    let start = ReplayView::<T>::started(plan);
    started_replays::<T>(plan);
    if events.len() > 0 {
        let earlier = events.drop_last();
        let before = start.after_all(earlier);
        let replay = start.after_all(events);
        let last = events.len() - 1;
        started_runs(plan, earlier);
        started_runs_verify_roots(plan, earlier);
        started_step(before, events.last());
        assert(events.take(last) =~= earlier);
        assert(events.last() == events[last]);
        if past_parent_root(replay) {
            let parent = replay.parent->0;
            if past_parent_root(before) {
                let i = choose|i: int| #[trigger] parent_root_event(start, earlier, parent, i);
                assert(events.take(i) =~= earlier.take(i));
                assert(parent_root_event(start, events, parent, i));
            } else {
                assert(parent_root_event(start, events, parent, last));
            }
        }
        if past_decoded_root(replay) {
            if past_decoded_root(before) {
                let i = choose|i: int| #[trigger] decoded_root_event(start, earlier, i);
                assert(events.take(i) =~= earlier.take(i));
                assert(decoded_root_event(start, events, i));
            } else {
                assert(decoded_root_event(start, events, last));
            }
        }
    }
}

/// A replay has an output only if the execution gave the stored receipts, the header's gas and the
/// header's requests, and the formatted events are the stored logs.
pub proof fn successful_replay_agrees_with_stored_data<T>(
    plan: PlanView,
    events: Seq<ReplayEventView<T>>,
)
    requires
        plan.senders.len() == plan.block.transactions.len(),
        ReplayView::<T>::started(plan).accepts_all(events),
        ReplayView::<T>::started(plan).after_all(events).has_output(),
    ensures
        has_agreeing_execution(plan, events),
        events_fault(
            ReplayView::<T>::started(plan).after_all(events).events,
            all_logs(plan.stored_receipts),
        ) is None,
{
    started_runs(plan, events);
    reveal(sound);
    reveal(past_execution);
}

/// In every phase it reports a replay holds one worker, one permit and one provider reader, an output
/// only while that is not serialized, and a serialized output only from then on.
pub proof fn reported_phase_decides_what_is_held<T>(
    plan: PlanView,
    events: Seq<ReplayEventView<T>>,
    phase: ReplayTestPhase,
)
    requires
        plan.senders.len() == plan.block.transactions.len(),
        ReplayView::<T>::started(plan).accepts_all(events),
        ReplayView::<T>::started(plan).after_all(events).stage == ReplayStage::Report(phase),
    ensures
        ReplayView::<T>::started(plan).after_all(events).held() == (ReplayTestResourceSnapshot {
            workers: 1,
            permits: 1,
            provider_readers: 1,
            output_buffers: if phase is OutputBuilt {
                1
            } else {
                0
            },
            serialized_buffers: if phase is JsonSerializationCompleted || phase is JsonSerialized {
                1
            } else {
                0
            },
        }),
{
    started_runs(plan, events);
    reveal(sound);
}

/// Nothing is executed before the complete `BLOCKHASH` window of the block was read.
pub proof fn execution_needs_a_complete_window<T>(plan: PlanView, events: Seq<ReplayEventView<T>>)
    requires
        plan.senders.len() == plan.block.transactions.len(),
        ReplayView::<T>::started(plan).accepts_all(events),
        ({
            let request = ReplayView::<T>::started(plan).after_all(events).request();
            request is ApplyPreExecution || request is ExecuteTransaction
        }),
    ensures
        has_complete_window(plan, events),
{
    started_runs(plan, events);
    reveal(sound);
    reveal(past_window);
}

/// With state-root verification a replay has an output only if the replayed state has the header's
/// root.
pub proof fn successful_replay_has_the_header_root<T>(
    plan: PlanView,
    events: Seq<ReplayEventView<T>>,
)
    requires
        plan.senders.len() == plan.block.transactions.len(),
        ReplayView::<T>::started(plan).accepts_all(events),
        ReplayView::<T>::started(plan).after_all(events).has_output(),
        plan.verify_state_roots,
    ensures
        ReplayView::<T>::started(plan).after_all(events).replay_root == Some(
            plan.block.header.state_root,
        ),
{
    started_runs(plan, events);
    reveal(sound);
    reveal(past_execution);
}

/// With state-root verification a replay has an output only if all three roots were computed and
/// are right: the opened parent state has the parent header's root, and the replayed state and the
/// decoded state diff have the header's root.
pub proof fn successful_replay_verified_every_root<T>(
    plan: PlanView,
    events: Seq<ReplayEventView<T>>,
)
    requires
        plan.senders.len() == plan.block.transactions.len(),
        ReplayView::<T>::started(plan).accepts_all(events),
        ReplayView::<T>::started(plan).after_all(events).has_output(),
        plan.verify_state_roots,
    ensures
        ({
            let start = ReplayView::<T>::started(plan);
            let replay = start.after_all(events);
            &&& replay.parent matches Some(parent)
            &&& has_parent_root(start, events, parent)
            &&& replay.replay_root == Some(plan.block.header.state_root)
            &&& has_decoded_root(start, events)
            &&& start.plan == plan
        }),
{
    started_runs(plan, events);
    started_runs_verify_roots(plan, events);
    reveal(sound);
    reveal(past_parent_root);
    reveal(past_decoded_root);
}

/// The opened parent state passes only with the root of the parent header.
pub proof fn parent_root_must_be_the_header_root<T>(replay: ReplayView<T>, root: B256)
    requires
        replay.consistent(),
        replay.stage is ParentRoot,
    ensures
        replay.parent is Some,
        replay.after(ReplayEventView::Root(root)).stage is Done <==> root
            != replay.parent->0.state_root,
{
}

/// The decoded state diff passes only with the root of the replayed state.
pub proof fn decoded_root_must_be_the_replay_root<T>(
    replay: ReplayView<T>,
    root: B256,
)
    requires
        replay.consistent(),
        replay.stage is DecodedRoot,
    ensures
        replay.after(ReplayEventView::Root(root)).stage is Done <==> root
            != replay.plan.block.header.state_root,
{
}

/// A block that leaves the state as its parent did has an empty state diff, throughout.
pub proof fn state_neutral_block_has_an_empty_diff<T>(
    replay: ReplayView<T>,
    events: Seq<ReplayEventView<T>>,
)
    requires
        replay.consistent(),
        replay.accepts_all(events),
        replay.after_all(events).state_neutral(),
    ensures
        replay.after_all(events).encoded.len() == 0,
{
    runs_stay_consistent(replay, events);
}

/// Before its output is assembled, a replay has replayed every transaction of its block.
pub proof fn every_transaction_is_replayed<T>(
    replay: ReplayView<T>,
    events: Seq<ReplayEventView<T>>,
)
    requires
        replay.consistent(),
        replay.accepts_all(events),
        concludes_block(replay.after_all(events).stage),
    ensures
        replay.after_all(events).transaction == replay.plan.block.transactions.len(),
{
    runs_stay_consistent(replay, events);
}

/// A replay never reports a reorg itself: that is for the canonical checks around it.
pub proof fn replays_never_report_a_reorg<T>(
    replay: ReplayView<T>,
    event: ReplayEventView<T>,
)
    requires
        replay.consistent(),
        answers(replay.stage, event),
    ensures
        replay.after(event).result matches Some(Err(error)) ==> error.code != BLOCK_REORGED,
{
}

} // verus!
