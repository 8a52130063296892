//! What an answered request says of the replay behind it.
use crate::block::all_logs;
use crate::chain::{reached, TaikoChainSpec};
use crate::trace::canonical::HashLookup;
use crate::trace::consensus::{commitments_of, consensus_holds};
use crate::trace::events::events_fault;
use crate::trace::handler::{
    block_fault, events_keep_requests_consistent, output_is_of_a_sound_canonical_block,
    requests_are_answered, shows_sound_block, HandlerEventView, HandlerView,
};
use crate::trace::replay_model::{PlanView, ReplayEventView, ReplayView};
use crate::trace::runs::{
    has_agreeing_execution, has_decoded_root, has_parent_root,
    successful_replay_agrees_with_stored_data, successful_replay_verified_every_root,
};
use vstd::prelude::*;

verus! {

/// Whether one of the events says that a worker has finished with this output.
pub open spec fn worker_gave(events: Seq<HandlerEventView>, text: Seq<char>) -> bool {
    exists|i: int|
        0 <= i < events.len() && (#[trigger] events[i]) == HandlerEventView::Finished(Ok(text))
}

/// The output of a request is what its worker gave.
pub proof fn output_comes_from_the_worker(
    chain: TaikoChainSpec,
    is_pending: bool,
    events: Seq<HandlerEventView>,
)
    requires
        HandlerView::started(chain, is_pending).accepts_all(events),
    ensures
        HandlerView::started(chain, is_pending).after_all(events).answer matches Some(Ok(text))
            ==> worker_gave(events, text),
    decreases events.len(),
{
    let start = HandlerView::started(chain, is_pending);
    if events.len() > 0 {
        let earlier = events.drop_last();
        let before = start.after_all(earlier);
        output_comes_from_the_worker(chain, is_pending, earlier);
        requests_are_answered(start, earlier);
        events_keep_requests_consistent(before, events.last());
        assert(events.last() == events[events.len() - 1]);
        if let Some(Ok(text)) = before.answer {
            let i = choose|i: int|
                0 <= i < earlier.len() && (#[trigger] earlier[i]) == HandlerEventView::Finished(
                    Ok(text),
                );
            assert(events[i] == HandlerEventView::Finished(Ok(text)));
        }
    }
}

/// Whether a request was served by a replay: its block and receipts are those of the plan, the plan
/// knows whether Unzen is active, and its worker ran the replay.
pub open spec fn served_by<T>(
    chain: TaikoChainSpec,
    events: Seq<HandlerEventView>,
    plan: PlanView,
    replay_events: Seq<ReplayEventView<T>>,
) -> bool {
    &&& plan.senders.len() == plan.block.transactions.len()
    &&& plan.is_unzen_active == reached(chain.unzen_time, plan.block.header.timestamp)
    &&& ReplayView::<T>::started(plan).accepts_all(replay_events)
    &&& forall|i: int|
        0 <= i < events.len() ==> served_event(#[trigger] events[i], plan, replay_events)
}

/// Whether an event of a request agrees with the replay that serves it.
pub open spec fn served_event<T>(
    event: HandlerEventView,
    plan: PlanView,
    replay_events: Seq<ReplayEventView<T>>,
) -> bool {
    match event {
        HandlerEventView::Block { block, receipts, .. } => block == plan.block && receipts
            == plan.stored_receipts,
        HandlerEventView::Finished(result) => ReplayView::<T>::started(plan).after_all(
            replay_events,
        ).result == Some(result),
        _ => true,
    }
}

/// A request for a block other than Genesis is answered without an error only with the output of
/// the replay that served it, and only if everything agrees: the block was found canonical at the
/// end, its stored data agree with its header, the execution gave the stored receipts, the header's
/// gas and the header's requests, the formatted events are the stored logs, and, with state-root
/// verification, the parent state, the replayed state and the decoded state diff have the roots that
/// the headers name.
pub proof fn output_is_a_validated_replay<T>(
    chain: TaikoChainSpec,
    is_pending: bool,
    events: Seq<HandlerEventView>,
    plan: PlanView,
    replay_events: Seq<ReplayEventView<T>>,
)
    requires
        HandlerView::started(chain, is_pending).accepts_all(events),
        HandlerView::started(chain, is_pending).after_all(events).stage is Done,
        !HandlerView::started(chain, is_pending).after_all(events).has_error(),
        HandlerView::started(chain, is_pending).after_all(events).number != 0,
        served_by(chain, events, plan, replay_events),
    ensures
        ({
            let request = HandlerView::started(chain, is_pending).after_all(events);
            let start = ReplayView::<T>::started(plan);
            let replay = start.after_all(replay_events);
            &&& request.answer == replay.result
            &&& replay.has_output()
            &&& request.number == plan.block.header.number
            &&& events.last() == HandlerEventView::Lookup(HashLookup::Found(Some(request.hash)))
            &&& block_fault(chain, plan.block, plan.stored_receipts) is None
            &&& consensus_holds(
                plan.block,
                plan.stored_receipts,
                commitments_of(plan.block, plan.stored_receipts),
                plan.is_unzen_active,
            )
            &&& has_agreeing_execution(plan, replay_events)
            &&& events_fault(replay.events, all_logs(plan.stored_receipts)) is None
            &&& plan.verify_state_roots ==> {
                &&& replay.parent is Some
                &&& has_parent_root(start, replay_events, replay.parent->0)
                &&& replay.replay_root == Some(plan.block.header.state_root)
                &&& has_decoded_root(start, replay_events)
            }
        }),
{
    let started = HandlerView::started(chain, is_pending);
    let request = started.after_all(events);
    let replay = ReplayView::<T>::started(plan).after_all(replay_events);
    requests_are_answered(started, events);
    output_is_of_a_sound_canonical_block(chain, is_pending, events);
    let shown = choose|i: int|
        0 <= i < events.len() && shows_sound_block(request, #[trigger] events[i]);
    assert(served_event(events[shown], plan, replay_events));
    output_comes_from_the_worker(chain, is_pending, events);
    let text = request.answer->0->Ok_0;
    let finished = choose|i: int|
        0 <= i < events.len() && (#[trigger] events[i]) == HandlerEventView::Finished(Ok(text));
    assert(served_event(events[finished], plan, replay_events));
    successful_replay_agrees_with_stored_data(plan, replay_events);
    if plan.verify_state_roots {
        successful_replay_verified_every_root(plan, replay_events);
    }
}

} // verus!
