//! What a replay holds in which stage, and that it gives everything back.
use crate::error::RpcErrorView;
use crate::trace::handler::{HandlerEventView, HandlerView};
use crate::trace::probe::{rebookings_add_up, ReplayTestPhase, ReplayTestResourceSnapshot};
use crate::trace::replay::Replay;
use crate::trace::replay_model::{
    CancelPoint, ReplayEventView, ReplayRequest, ReplayStage, ReplayView,
};
use vstd::prelude::*;

verus! {

impl<T> ReplayView<T> {
    /// What the replay holds: its permit throughout, a provider reader once the parent state is
    /// open, a worker once it has one, the output until it is serialized and the serialized output
    /// from then on. The serialization of an output that needs no replay reads no state. Of a replay
    /// that has ended, the permit and the serialized output are left for the request to take; a
    /// replay that has failed has given everything back.
    pub open spec fn held(self) -> ReplayTestResourceSnapshot {
        let permit = ReplayTestResourceSnapshot {
            permits: 1,
            ..ReplayTestResourceSnapshot::drained()
        };
        let working = ReplayTestResourceSnapshot {
            workers: 1,
            provider_readers: if self.parent is Some {
                1
            } else {
                0
            },
            ..permit
        };
        match self.stage {
            ReplayStage::ResolveParent | ReplayStage::OpenHistory => permit,
            ReplayStage::EnterWorker => ReplayTestResourceSnapshot {
                provider_readers: 1,
                ..permit
            },
            ReplayStage::EnterSerializer => ReplayTestResourceSnapshot {
                output_buffers: 1,
                ..permit
            },
            ReplayStage::Report(ReplayTestPhase::OutputBuilt)
            | ReplayStage::Cancel(CancelPoint::BeforeJsonSerialization)
            | ReplayStage::Serialize => ReplayTestResourceSnapshot { output_buffers: 1, ..working },
            ReplayStage::Report(ReplayTestPhase::JsonSerializationCompleted)
            | ReplayStage::Cancel(CancelPoint::AfterJsonSerialization)
            | ReplayStage::Report(ReplayTestPhase::JsonSerialized) => ReplayTestResourceSnapshot {
                serialized_buffers: 1,
                ..working
            },
            ReplayStage::Done => if self.has_output() {
                ReplayTestResourceSnapshot { serialized_buffers: 1, ..permit }
            } else {
                ReplayTestResourceSnapshot::drained()
            },
            _ => ReplayTestResourceSnapshot { provider_readers: 1, ..working },
        }
    }
}

impl<T> Replay<T> {
    /// What the replay holds.
    pub fn held(&self) -> (r: ReplayTestResourceSnapshot)
        ensures
            r == self@.held(),
    {
        let mut held = ReplayTestResourceSnapshot::default();
        held.permits = 1;
        match self.stage() {
            ReplayStage::ResolveParent | ReplayStage::OpenHistory => {},
            ReplayStage::EnterWorker => {
                held.provider_readers = 1;
            },
            ReplayStage::EnterSerializer => {
                held.output_buffers = 1;
            },
            ReplayStage::Report(ReplayTestPhase::OutputBuilt)
            | ReplayStage::Cancel(CancelPoint::BeforeJsonSerialization)
            | ReplayStage::Serialize => {
                held.workers = 1;
                held.provider_readers = self.provider_readers();
                held.output_buffers = 1;
            },
            ReplayStage::Report(ReplayTestPhase::JsonSerializationCompleted)
            | ReplayStage::Cancel(CancelPoint::AfterJsonSerialization)
            | ReplayStage::Report(ReplayTestPhase::JsonSerialized) => {
                held.workers = 1;
                held.provider_readers = self.provider_readers();
                held.serialized_buffers = 1;
            },
            ReplayStage::Done => {
                if self.has_output() {
                    held.serialized_buffers = 1;
                } else {
                    held.permits = 0;
                }
            },
            _ => {
                held.workers = 1;
                held.provider_readers = 1;
            },
        }
        held
    }

    /// How many provider readers are held once the output is built.
    fn provider_readers(&self) -> (r: usize)
        ensures
            r == if self@.parent is Some {
                1usize
            } else {
                0
            },
    {
        if self.parent().is_some() {
            1
        } else {
            0
        }
    }
}

/// A replay that has ended without an output holds nothing.
pub proof fn failed_replay_holds_nothing<T>(replay: ReplayView<T>)
    requires
        replay.stage is Done,
        !replay.has_output(),
    ensures
        replay.held() == ReplayTestResourceSnapshot::drained(),
{
}

/// Whatever a replay has come to, the request behind it takes over exactly what the replay has left,
/// which is the permit and the output, or nothing.
pub proof fn request_takes_over_what_is_left<T>(
    replay: ReplayView<T>,
    request: HandlerView,
    result: Result<Seq<char>, RpcErrorView>,
)
    requires
        replay.stage is Done,
        replay.result == Some(result),
        request.stage is Replay || request.stage is Serialization,
    ensures
        request.held() == ReplayTestResourceSnapshot::drained(),
        request.after(HandlerEventView::Finished(result)).held() == replay.held(),
{
}

/// A request that is answered holds nothing, and neither does one that is to be answered with an
/// error.
pub proof fn answered_request_holds_nothing(request: HandlerView)
    requires
        request.stage is Done || request.stage is Recheck,
    ensures
        request.held() == ReplayTestResourceSnapshot::drained(),
{
}

/// The ledger after a run of a replay, with what the replay holds booked at its start and after every
/// event.
pub open spec fn booked<T>(
    ledger: ReplayTestResourceSnapshot,
    start: ReplayView<T>,
    events: Seq<ReplayEventView<T>>,
) -> ReplayTestResourceSnapshot
    decreases events.len(),
{
    if events.len() == 0 {
        ledger.rebooked(ReplayTestResourceSnapshot::drained(), start.held())
    } else {
        booked(ledger, start, events.drop_last()).rebooked(
            start.after_all(events.drop_last()).held(),
            start.after_all(events).held(),
        )
    }
}

/// The ledger is always what it was before the replay plus what the replay holds now.
pub proof fn ledger_follows_the_replay<T>(
    ledger: ReplayTestResourceSnapshot,
    start: ReplayView<T>,
    events: Seq<ReplayEventView<T>>,
)
    ensures
        booked(ledger, start, events) == ledger.rebooked(
            ReplayTestResourceSnapshot::drained(),
            start.after_all(events).held(),
        ),
    decreases events.len(),
{
    if events.len() > 0 {
        let earlier = events.drop_last();
        ledger_follows_the_replay(ledger, start, earlier);
        rebookings_add_up(
            ledger,
            ReplayTestResourceSnapshot::drained(),
            start.after_all(earlier).held(),
            start.after_all(events).held(),
        );
    }
}

/// A replay that ends without an output, cancelled or failed wherever it was, leaves every count as
/// it was before; so does one with an output once the request has booked what it took over and holds
/// nothing any more.
pub proof fn ended_replay_leaves_the_ledger_as_it_was<T>(
    ledger: ReplayTestResourceSnapshot,
    start: ReplayView<T>,
    events: Seq<ReplayEventView<T>>,
)
    requires
        start.after_all(events).stage is Done,
    ensures
        !start.after_all(events).has_output() ==> booked(ledger, start, events) == ledger,
        booked(ledger, start, events).rebooked(
            start.after_all(events).held(),
            ReplayTestResourceSnapshot::drained(),
        ) == ledger,
{
    let drained = ReplayTestResourceSnapshot::drained();
    ledger_follows_the_replay(ledger, start, events);
    rebookings_add_up(ledger, drained, start.after_all(events).held(), drained);
}

/// A replay holds at most one of each resource: a permit unless it has failed; a worker from when it
/// has one until it ends; a reader from when the parent state is open until it ends, unless it only
/// serializes; the output from when it is assembled until it is serialized; and then the serialized
/// output.
pub proof fn replays_hold_what_they_work_with<T>(replay: ReplayView<T>)
    requires
        replay.consistent(),
    ensures
        ({
            let held = replay.held();
            let waiting = replay.request() is ResolveParent || replay.request() is OpenHistory
                || replay.request() is SpawnWorker;
            let over = replay.request() is Finished;
            let serializes = {
                ||| replay.stage is EnterSerializer
                ||| replay.request() is Serialize
                ||| replay.request() == ReplayRequest::Report(ReplayTestPhase::OutputBuilt)
                ||| replay.request() == ReplayRequest::CheckCancelled(
                    CancelPoint::BeforeJsonSerialization,
                )
            };
            &&& held.permits == if over && !replay.has_output() {
                0int
            } else {
                1
            }
            &&& held.workers == if waiting || over {
                0int
            } else {
                1
            }
            &&& held.output_buffers == if serializes {
                1int
            } else {
                0
            }
            &&& held.serialized_buffers == if replay.has_output() {
                1int
            } else {
                0
            }
            &&& over || replay.request() is ResolveParent || replay.request() is OpenHistory
                ==> held.provider_readers == 0
            &&& replay.stage is EnterWorker ==> held.provider_readers == 1
            &&& !waiting && !over && replay.parent is Some ==> held.provider_readers == 1
            &&& !waiting && !over && replay.parent is None && !serializes && !replay.has_output()
                ==> held.provider_readers == 1
            &&& (serializes || replay.has_output()) && replay.parent is None
                ==> held.provider_readers == 0
        }),
{
}

/// A request itself holds its permit from when it is granted until a worker takes it over, and again
/// with the output that the worker hands back, until it is answered or fails.
pub proof fn requests_hold_their_permit(request: HandlerView)
    requires
        request.consistent(),
    ensures
        ({
            let held = request.held();
            let asks = request.request();
            let ready = asks is CheckDeadline || (asks is LookupHash && request.answer matches Some(
                Ok(_),
            ));
            let early = request.answer is None && !(asks is AcquirePermit) && !(asks is Replay)
                && !(asks is SerializeGenesis);
            &&& held.permits == if early || ready {
                1int
            } else {
                0
            }
            &&& held.serialized_buffers == if ready {
                1int
            } else {
                0
            }
            &&& held.workers == 0
            &&& held.provider_readers == 0
            &&& held.output_buffers == 0
        }),
{
}

} // verus!
