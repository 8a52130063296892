//! The fields of a replay, behind its view.
use crate::error::{RpcError, RpcErrorView};
use crate::fixed::B256;
use crate::trace::events::{event_views, DebankEvent};
use crate::trace::replay_model::ReplayView;
use crate::trace::replay_model::{
    ParentHeader, ReplayEvent, ReplayPlan, ReplayStage, TransactionTraces,
};
use vstd::prelude::*;

verus! {

/// The replay of one block.
#[derive(Debug)]
pub struct Replay<T> {
    plan: ReplayPlan,
    stage: ReplayStage,
    transaction: usize,
    parent_number: u64,
    parent: Option<ParentHeader>,
    replay_root: Option<B256>,
    encoded: Vec<u8>,
    traces: Vec<T>,
    error_traces: Vec<T>,
    events: Vec<DebankEvent>,
    error_events: Vec<DebankEvent>,
    result: Option<Result<String, RpcError>>,
}

/// What an optional result says.
pub open spec fn result_view(result: Option<Result<String, RpcError>>) -> Option<
    Result<Seq<char>, RpcErrorView>,
> {
    match result {
        Some(Ok(text)) => Some(Ok(text@)),
        Some(Err(error)) => Some(Err(error@)),
        None => None,
    }
}

impl<T> View for Replay<T> {
    type V = ReplayView<T>;

    closed spec fn view(&self) -> ReplayView<T> {
        ReplayView {
            plan: self.plan@,
            stage: self.stage,
            transaction: self.transaction as nat,
            parent_number: self.parent_number,
            parent: self.parent,
            replay_root: self.replay_root,
            encoded: self.encoded@,
            traces: self.traces@,
            error_traces: self.error_traces@,
            events: event_views(self.events@),
            error_events: event_views(self.error_events@),
            result: result_view(self.result),
        }
    }
}

impl<T> Replay<T> {
    /// A replay in its first stage.
    pub(crate) fn at(plan: ReplayPlan, stage: ReplayStage, parent_number: u64) -> (r: Self)
        ensures
            r@ == ReplayView::<T>::at(plan@, stage, parent_number),
    {
        let r = Replay {
            plan,
            stage,
            transaction: 0,
            parent_number,
            parent: None,
            replay_root: None,
            encoded: Vec::new(),
            traces: Vec::new(),
            error_traces: Vec::new(),
            events: Vec::new(),
            error_events: Vec::new(),
            result: None,
        };
        assert(r@.events =~= seq![]);
        assert(r@.error_events =~= seq![]);
        r
    }

    /// Ends the replay with an error.
    pub(crate) fn end(&mut self, error: RpcError)
        ensures
            final(self)@ == old(self)@.ended(error@),
    {
        self.stage = ReplayStage::Done;
        self.result = Some(Err(error));
        assert(self@ =~= old(self)@.ended(error@));
    }

    /// Enters a stage.
    pub(crate) fn enter(&mut self, stage: ReplayStage)
        ensures
            final(self)@ == (ReplayView { stage, ..old(self)@ }),
    {
        self.stage = stage;
    }

    /// Goes on to the next transaction.
    pub(crate) fn next_transaction(&mut self)
        requires
            old(self)@.transaction < old(self)@.plan.block.transactions.len(),
        ensures
            final(self)@ == (ReplayView {
                transaction: old(self)@.transaction + 1,
                ..old(self)@
            }),
    {
        assert(self.transaction < self.plan.block.block.transactions.len());
        self.transaction = self.transaction + 1;
    }

    /// Keeps what an event brings.
    pub(crate) fn note(&mut self, event: ReplayEvent<T>)
        ensures
            final(self)@ == old(self)@.noted(event@),
    {
        match event {
            ReplayEvent::ParentResolved(number) => self.parent_number = number,
            ReplayEvent::ParentHeader(parent) => self.parent = parent,
            ReplayEvent::Root(root) => {
                if let ReplayStage::ReplayRoot = self.stage {
                    self.replay_root = Some(root);
                }
            },
            ReplayEvent::Formatted(formatted) => self.note_traces(formatted),
            ReplayEvent::Encoded(bytes) => self.encoded = bytes,
            ReplayEvent::Serialized(text) => self.result = Some(Ok(text)),
            _ => {},
        }
    }

    /// Keeps the formatted traces of the current transaction.
    fn note_traces(&mut self, formatted: TransactionTraces<T>)
        ensures
            final(self)@ == old(self)@.noted(ReplayEvent::Formatted(formatted)@),
    {
        let TransactionTraces { traces, error_traces, events, error_events } = formatted;
        let mut traces = traces;
        let mut error_traces = error_traces;
        let mut events = events;
        let mut error_events = error_events;
        let ghost noted = self@.noted(ReplayEvent::Formatted(formatted)@);
        self.traces.append(&mut traces);
        self.error_traces.append(&mut error_traces);
        self.events.append(&mut events);
        self.error_events.append(&mut error_events);
        assert(self@.events =~= noted.events);
        assert(self@.error_events =~= noted.error_events);
    }

    /// What the replay is about.
    pub(crate) fn plan(&self) -> (r: &ReplayPlan)
        ensures
            r@ == self@.plan,
    {
        &self.plan
    }

    /// What the replay is waiting for.
    pub fn stage(&self) -> (r: ReplayStage)
        ensures
            r == self@.stage,
    {
        self.stage
    }

    /// Position of the current transaction.
    pub(crate) fn transaction(&self) -> (r: usize)
        ensures
            r as nat == self@.transaction,
    {
        self.transaction
    }

    /// Height of the parent state.
    pub(crate) fn parent_number(&self) -> (r: u64)
        ensures
            r == self@.parent_number,
    {
        self.parent_number
    }

    /// The parent header, once it is loaded.
    pub(crate) fn parent(&self) -> (r: Option<ParentHeader>)
        ensures
            r == self@.parent,
    {
        self.parent
    }

    /// The verified state root of the replayed state.
    pub(crate) fn replay_root(&self) -> (r: Option<B256>)
        ensures
            r == self@.replay_root,
    {
        self.replay_root
    }

    /// The formatted traces of the block, in transaction order.
    pub fn traces(&self) -> (r: &Vec<T>)
        ensures
            r@ == self@.traces,
    {
        &self.traces
    }

    /// The formatted traces of reverted frames, in transaction order.
    pub fn error_traces(&self) -> (r: &Vec<T>)
        ensures
            r@ == self@.error_traces,
    {
        &self.error_traces
    }

    /// The formatted events of the block, in transaction order.
    pub fn events(&self) -> (r: &Vec<DebankEvent>)
        ensures
            event_views(r@) == self@.events,
    {
        &self.events
    }

    /// The formatted events of reverted frames, in transaction order.
    pub fn error_events(&self) -> (r: &Vec<DebankEvent>)
        ensures
            event_views(r@) == self@.error_events,
    {
        &self.error_events
    }

    /// The encoded state diff: empty for a block that leaves the state as its parent did.
    pub fn state_diff(&self) -> (r: &Vec<u8>)
        ensures
            r@ == self@.encoded,
    {
        &self.encoded
    }

    /// Whether there is a serialized output.
    pub(crate) fn has_output(&self) -> (r: bool)
        ensures
            r == self@.has_output(),
    {
        match &self.result {
            Some(Ok(_)) => true,
            _ => false,
        }
    }

    /// The serialized output, or the error.
    pub fn into_result(self) -> (r: Result<String, RpcError>)
        requires
            self@.result is Some,
        ensures
            result_view(Some(r)) == self@.result,
    {
        self.result.unwrap()
    }
}

} // verus!
