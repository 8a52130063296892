//! The replay of one block as a sequence of decisions.
//!
//! A [`Replay`] says what has to be done next, is told what came of it, and decides how to go on.
//! It opens no state, executes nothing and computes no root itself.
use crate::commitments::requests_hash;
use crate::error::{mismatch_error, unavailable_error, RpcError, RpcErrorView};
use crate::fixed::B256;
use crate::text::{decimal_text, hex_string};
use crate::trace::canonical::{block_hash_window_start, check_block_hashes};
use crate::trace::events::validate_formatted_events;
use crate::trace::execution::check_execution;
use crate::trace::probe::ReplayTestPhase;
use crate::trace::replay_model::{
    answers, check_cancelled, events_keep_replays_consistent, replays_transaction, CancelPoint,
    ParentHeader, ReplayEvent, ReplayPlan, ReplayRequest, ReplayStage,
};
use crate::trace::replay_model::{ReplayEventView, ReplayView};
pub use crate::trace::replay_state::Replay;
use crate::trace::transactions::{
    build_transactions, debank_transaction_views, debank_transactions, DebankTransaction,
};
use vstd::prelude::*;

verus! {

/// What an optional error says.
pub open spec fn optional_error(error: Option<RpcError>) -> Option<RpcErrorView> {
    match error {
        Some(error) => Some(error@),
        None => None,
    }
}

impl<T> Replay<T> {
    /// Begins the replay of a block.
    pub fn start(plan: ReplayPlan) -> (r: Self)
        requires
            plan.block.well_formed(),
        ensures
            r@ == ReplayView::<T>::started(plan@),
            r@.consistent(),
    {
        let number: u64 = plan.block.block.header.number;
        if plan.proof_history {
            return Self::at(plan, ReplayStage::ResolveParent, 0);
        }
        if number == 0 {
            let mut replay = Self::at(plan, ReplayStage::OpenHistory, 0);
            replay.end(
                mismatch_error(String::from_str("non-Genesis replay has no parent height")),
            );
            return replay;
        }
        Self::at(plan, ReplayStage::OpenHistory, number - 1)
    }

    /// Begins the serialization of an output that needs no replay.
    pub fn serialize_output(plan: ReplayPlan) -> (r: Self)
        requires
            plan.block.well_formed(),
        ensures
            r@ == ReplayView::<T>::serializing(plan@),
            r@.consistent(),
    {
        Self::at(plan, ReplayStage::EnterSerializer, 0)
    }

    /// The stage that follows when nothing goes wrong.
    fn next_stage(&self) -> (r: ReplayStage)
        requires
            self@.stage == ReplayStage::Cancel(CancelPoint::AfterTransactionCommit)
                ==> self@.transaction < self@.plan.block.transactions.len(),
        ensures
            r == self@.next(),
    {
        let verify = self.plan().verify_state_roots;
        let count: usize = self.plan().block.block.transactions.len();
        match self.stage() {
            ReplayStage::ResolveParent | ReplayStage::OpenHistory => ReplayStage::EnterWorker,
            ReplayStage::EnterWorker => ReplayStage::Cancel(CancelPoint::BeforeProviderLoad),
            ReplayStage::EnterSerializer => ReplayStage::Report(ReplayTestPhase::OutputBuilt),
            ReplayStage::Cancel(point) => match point {
                CancelPoint::BeforeProviderLoad => if verify && self.plan().proof_history {
                    ReplayStage::OpenProofState
                } else {
                    ReplayStage::LoadParentHeader
                },
                CancelPoint::BeforeParentStateRoot => ReplayStage::ParentRoot,
                CancelPoint::BeforePreExecution => ReplayStage::PreExecution,
                CancelPoint::AfterPreExecution => if count > 0 {
                    ReplayStage::Cancel(CancelPoint::BeforeTransaction)
                } else {
                    ReplayStage::FinishExecution
                },
                CancelPoint::BeforeTransaction => ReplayStage::Execute,
                CancelPoint::AfterTransactionExecution => ReplayStage::Inspect,
                CancelPoint::BeforeFormatter => ReplayStage::Format,
                CancelPoint::AfterFormatter => ReplayStage::Commit,
                CancelPoint::AfterTransactionCommit => if self.transaction() + 1 < count {
                    ReplayStage::Cancel(CancelPoint::BeforeTransaction)
                } else {
                    ReplayStage::FinishExecution
                },
                CancelPoint::BeforeReplayStateRoot => ReplayStage::ReplayRoot,
                CancelPoint::AfterReplayStateRoot => ReplayStage::BuildDiff,
                CancelPoint::BeforeStateDiffEncoding => if self.is_state_neutral() {
                    ReplayStage::Report(ReplayTestPhase::StateDiffEncoded)
                } else {
                    ReplayStage::EncodeDiff
                },
                CancelPoint::AfterStateDiffEncoding => if self.state_diff().len() == 0 {
                    ReplayStage::Report(ReplayTestPhase::StateDiffDecoded)
                } else {
                    ReplayStage::DecodeDiff
                },
                CancelPoint::BeforeDecodedStateRoot => ReplayStage::DecodedRoot,
                CancelPoint::AfterDecodedStateRoot => ReplayStage::AssembleOutput,
                CancelPoint::BeforeJsonSerialization => ReplayStage::Serialize,
                CancelPoint::AfterJsonSerialization => ReplayStage::Report(
                    ReplayTestPhase::JsonSerialized,
                ),
            },
            ReplayStage::Report(phase) => match phase {
                ReplayTestPhase::ProviderLoaded => if verify {
                    ReplayStage::Cancel(CancelPoint::BeforeParentStateRoot)
                } else {
                    ReplayStage::HashWindow
                },
                ReplayTestPhase::PreExecutionApplied => ReplayStage::Cancel(
                    CancelPoint::AfterPreExecution,
                ),
                ReplayTestPhase::TransactionExecuted => ReplayStage::Cancel(
                    CancelPoint::AfterTransactionExecution,
                ),
                ReplayTestPhase::BeforeFormatter => ReplayStage::Cancel(
                    CancelPoint::BeforeFormatter,
                ),
                ReplayTestPhase::FormatterCompleted => ReplayStage::Cancel(
                    CancelPoint::AfterFormatter,
                ),
                ReplayTestPhase::RootAComputed => ReplayStage::Cancel(
                    CancelPoint::AfterReplayStateRoot,
                ),
                ReplayTestPhase::StateDiffEncoded => ReplayStage::Cancel(
                    CancelPoint::AfterStateDiffEncoding,
                ),
                ReplayTestPhase::StateDiffDecoded => if self.replay_root().is_some() {
                    ReplayStage::Cancel(CancelPoint::BeforeDecodedStateRoot)
                } else {
                    ReplayStage::AssembleOutput
                },
                ReplayTestPhase::RootBComputed => ReplayStage::Cancel(
                    CancelPoint::AfterDecodedStateRoot,
                ),
                ReplayTestPhase::OutputBuilt => ReplayStage::Cancel(
                    CancelPoint::BeforeJsonSerialization,
                ),
                ReplayTestPhase::JsonSerializationCompleted => ReplayStage::Cancel(
                    CancelPoint::AfterJsonSerialization,
                ),
                ReplayTestPhase::JsonSerialized
                | ReplayTestPhase::InitialCanonicalChecked => ReplayStage::Done,
            },
            ReplayStage::OpenProofState => ReplayStage::LoadParentHeader,
            ReplayStage::LoadParentHeader => ReplayStage::Report(ReplayTestPhase::ProviderLoaded),
            ReplayStage::ParentRoot => ReplayStage::HashWindow,
            ReplayStage::HashWindow => ReplayStage::PrepareExecutor,
            ReplayStage::PrepareExecutor => ReplayStage::Cancel(CancelPoint::BeforePreExecution),
            ReplayStage::PreExecution => ReplayStage::Report(ReplayTestPhase::PreExecutionApplied),
            ReplayStage::Execute => ReplayStage::Report(ReplayTestPhase::TransactionExecuted),
            ReplayStage::Inspect => ReplayStage::Report(ReplayTestPhase::BeforeFormatter),
            ReplayStage::Format => ReplayStage::Report(ReplayTestPhase::FormatterCompleted),
            ReplayStage::Commit => ReplayStage::Cancel(CancelPoint::AfterTransactionCommit),
            ReplayStage::FinishExecution => if verify {
                ReplayStage::Cancel(CancelPoint::BeforeReplayStateRoot)
            } else {
                ReplayStage::BuildDiff
            },
            ReplayStage::ReplayRoot => ReplayStage::Report(ReplayTestPhase::RootAComputed),
            ReplayStage::BuildDiff => ReplayStage::Cancel(CancelPoint::BeforeStateDiffEncoding),
            ReplayStage::EncodeDiff => ReplayStage::Report(ReplayTestPhase::StateDiffEncoded),
            ReplayStage::DecodeDiff => ReplayStage::Report(ReplayTestPhase::StateDiffDecoded),
            ReplayStage::DecodedRoot => ReplayStage::Report(ReplayTestPhase::RootBComputed),
            ReplayStage::AssembleOutput => ReplayStage::Report(ReplayTestPhase::OutputBuilt),
            ReplayStage::Serialize => ReplayStage::Report(
                ReplayTestPhase::JsonSerializationCompleted,
            ),
            ReplayStage::Done => ReplayStage::Done,
        }
    }

    /// Whether the block leaves the state as its parent did.
    fn is_state_neutral(&self) -> (r: bool)
        ensures
            r == self@.state_neutral(),
    {
        match self.parent() {
            Some(parent) => parent.state_root == self.plan().block.block.header.state_root,
            None => false,
        }
    }

    /// Goes on to the next stage.
    fn move_on(&mut self)
        requires
            old(self)@.stage == ReplayStage::Cancel(CancelPoint::AfterTransactionCommit) ==> old(
                self,
            )@.transaction < old(self)@.plan.block.transactions.len(),
        ensures
            final(self)@ == old(self)@.moved_on(),
    {
        let stage = self.next_stage();
        if let ReplayStage::Cancel(CancelPoint::AfterTransactionCommit) = self.stage() {
            self.next_transaction();
        }
        self.enter(stage);
        if let ReplayStage::AssembleOutput = stage {
            match validate_formatted_events(self.events(), &self.plan().stored_receipts) {
                Ok(()) => {},
                Err(error) => self.end(error),
            }
        }
    }

    /// What the stages read is there.
    pub open spec fn ready(self) -> bool {
        &&& self@.stage == ReplayStage::Cancel(CancelPoint::AfterTransactionCommit)
            ==> self@.transaction < self@.plan.block.transactions.len()
        &&& self@.stage is ParentRoot ==> self@.parent is Some
        &&& self@.stage is DecodedRoot ==> self@.replay_root is Some
    }

    /// Takes note of what came of the last request and decides how to go on.
    pub fn advance(&mut self, event: ReplayEvent<T>)
        requires
            old(self)@.consistent(),
            answers(old(self)@.stage, event@),
        ensures
            final(self)@ == old(self)@.after(event@),
            final(self)@.consistent(),
    {
        proof {
            events_keep_replays_consistent(self@, event@);
            assert(self.ready());
        }
        self.decide(event);
    }

    /// Ends the replay, or goes on with what an event brings.
    fn decide(&mut self, event: ReplayEvent<T>)
        requires
            old(self).ready(),
            answers(old(self)@.stage, event@),
        ensures
            final(self)@ == old(self)@.after(event@),
    {
        match self.judge(&event) {
            Some(error) => self.end(error),
            None => {
                self.note(event);
                self.move_on();
            },
        }
    }

    /// The error with which an event ends the replay, if it does.
    fn judge(&self, event: &ReplayEvent<T>) -> (r: Option<RpcError>)
        requires
            self.ready(),
            answers(self@.stage, event@),
        ensures
            optional_error(r) == self@.fault(event@),
    {
        match event {
            ReplayEvent::Failed(error) => Some(
                if self.stage().is_history_stage() {
                    unavailable_error(error.clone())
                } else {
                    mismatch_error(error.clone())
                },
            ),
            ReplayEvent::WorkerLost(error) => Some(unavailable_error(error.clone())),
            ReplayEvent::Cancelled(is_cancelled) => match self.stage() {
                ReplayStage::Cancel(point) => check_cancelled(*is_cancelled, point).err(),
                _ => None,
            },
            ReplayEvent::ParentResolved(number) => self.judge_parent_height(*number),
            ReplayEvent::ParentHeader(parent) => self.judge_parent(parent),
            ReplayEvent::Root(root) => self.judge_root(root),
            ReplayEvent::Hashes(hashes) => {
                let header = &self.plan().block.block.header;
                check_block_hashes(header.number, header.parent_hash, hashes).err()
            },
            ReplayEvent::Executed(outcome) => {
                let plan = self.plan();
                let hash = requests_hash(&outcome.requests);
                check_execution(
                    &plan.block.block.header,
                    &plan.stored_receipts,
                    plan.is_unzen_active,
                    outcome,
                    hash,
                ).err()
            },
            _ => None,
        }
    }

    /// Checks that the resolved parent state is the block's parent.
    fn judge_parent_height(&self, number: u64) -> (r: Option<RpcError>)
        ensures
            optional_error(r) == self@.fault(ReplayEventView::ParentResolved(number)),
    {
        let block_number: u64 = self.plan().block.block.header.number;
        if number == u64::MAX || number + 1 != block_number {
            return Some(
                mismatch_error(
                    String::from_str("parent height ").concat(decimal_text(number).as_str()).concat(
                        " does not precede block ",
                    ).concat(decimal_text(block_number).as_str()),
                ),
            );
        }
        None
    }

    /// Checks that the loaded parent header has the height of the parent state.
    fn judge_parent(&self, parent: &Option<ParentHeader>) -> (r: Option<RpcError>)
        ensures
            optional_error(r) == self@.fault(ReplayEventView::ParentHeader(*parent)),
    {
        match parent {
            None => Some(
                unavailable_error(hex_string(&self.plan().block.block.header.parent_hash.0)),
            ),
            Some(found) => {
                if found.number != self.parent_number() {
                    return Some(
                        mismatch_error(
                            String::from_str("parent header height ").concat(
                                decimal_text(found.number).as_str(),
                            ).concat(" differs from resolved state height ").concat(
                                decimal_text(self.parent_number()).as_str(),
                            ),
                        ),
                    );
                }
                None
            },
        }
    }

    /// Checks a computed state root against the one that it must be.
    fn judge_root(&self, root: &B256) -> (r: Option<RpcError>)
        requires
            self.ready(),
            self@.stage is ParentRoot || self@.stage is ReplayRoot || self@.stage is DecodedRoot,
        ensures
            optional_error(r) == self@.fault(ReplayEventView::Root(*root)),
    {
        let (expected, before, after) = match self.stage() {
            ReplayStage::ParentRoot => (
                self.parent().unwrap().state_root,
                "parent state provider root ",
                " != parent header root ",
            ),
            ReplayStage::ReplayRoot => (
                self.plan().block.block.header.state_root,
                "replay root ",
                " != header root ",
            ),
            _ => (self.replay_root().unwrap(), "decoded root ", " != replay root "),
        };
        if *root != expected {
            return Some(
                mismatch_error(
                    String::from_str(before).concat(hex_string(&root.0).as_str()).concat(
                        after,
                    ).concat(hex_string(&expected.0).as_str()),
                ),
            );
        }
        None
    }

    /// What the replay wants to have done next.
    pub fn request(&self) -> (r: ReplayRequest)
        requires
            self@.consistent(),
        ensures
            r == self@.request(),
            match r {
                ReplayRequest::ExecuteTransaction(i)
                | ReplayRequest::FinishInspection(i)
                | ReplayRequest::FormatTransaction(i)
                | ReplayRequest::CommitTransaction(i) => i as nat == self@.transaction && i
                    < self@.plan.block.transactions.len(),
                _ => true,
            },
    {
        let header = &self.plan().block.block.header;
        match self.stage() {
            ReplayStage::ResolveParent => ReplayRequest::ResolveParent(header.parent_hash),
            ReplayStage::OpenHistory => ReplayRequest::OpenHistory(header.parent_hash),
            ReplayStage::EnterWorker | ReplayStage::EnterSerializer => ReplayRequest::SpawnWorker,
            ReplayStage::Cancel(point) => ReplayRequest::CheckCancelled(point),
            ReplayStage::Report(phase) => ReplayRequest::Report(phase),
            ReplayStage::OpenProofState => ReplayRequest::OpenProofState(self.parent_number()),
            ReplayStage::LoadParentHeader => ReplayRequest::LoadParentHeader(header.parent_hash),
            ReplayStage::ParentRoot => ReplayRequest::ComputeParentRoot,
            ReplayStage::HashWindow => ReplayRequest::ReadBlockHashes(
                block_hash_window_start(header.number),
                header.number,
            ),
            ReplayStage::PrepareExecutor => ReplayRequest::PrepareExecutor,
            ReplayStage::PreExecution => ReplayRequest::ApplyPreExecution,
            ReplayStage::Execute => ReplayRequest::ExecuteTransaction(self.transaction()),
            ReplayStage::Inspect => ReplayRequest::FinishInspection(self.transaction()),
            ReplayStage::Format => ReplayRequest::FormatTransaction(self.transaction()),
            ReplayStage::Commit => ReplayRequest::CommitTransaction(self.transaction()),
            ReplayStage::FinishExecution => ReplayRequest::FinishExecution,
            ReplayStage::ReplayRoot => ReplayRequest::ComputeReplayRoot,
            ReplayStage::BuildDiff => ReplayRequest::BuildStateDiff {
                state_root: header.state_root,
                parent_state_root: self.parent().unwrap().state_root,
            },
            ReplayStage::EncodeDiff => ReplayRequest::EncodeStateDiff,
            ReplayStage::DecodeDiff => ReplayRequest::DecodeStateDiff,
            ReplayStage::DecodedRoot => ReplayRequest::ComputeDecodedRoot,
            ReplayStage::AssembleOutput => ReplayRequest::AssembleOutput,
            ReplayStage::Serialize => ReplayRequest::Serialize,
            ReplayStage::Done => ReplayRequest::Finished,
        }
    }

    /// Whether the tracing inspector has to be enabled: only while transactions are replayed.
    pub fn inspector_enabled(&self) -> (r: bool)
        ensures
            r == replays_transaction(self@.stage),
    {
        match self.stage() {
            ReplayStage::Execute
            | ReplayStage::Inspect
            | ReplayStage::Format
            | ReplayStage::Commit => true,
            ReplayStage::Cancel(point) => matches!(
                point,
                CancelPoint::BeforeTransaction
                    | CancelPoint::AfterTransactionExecution
                    | CancelPoint::BeforeFormatter
                    | CancelPoint::AfterFormatter
                    | CancelPoint::AfterTransactionCommit
            ),
            ReplayStage::Report(phase) => matches!(
                phase,
                ReplayTestPhase::TransactionExecuted
                    | ReplayTestPhase::BeforeFormatter
                    | ReplayTestPhase::FormatterCompleted
            ),
            _ => false,
        }
    }

    /// The block-file transactions of the block.
    pub fn transactions(&self) -> (r: Vec<DebankTransaction>)
        requires
            self@.consistent(),
        ensures
            debank_transaction_views(r@) == debank_transactions(
                self@.plan.block.transactions,
                self@.plan.senders,
                self@.plan.stored_receipts,
                self@.plan.block.header.base_fee_per_gas,
            ),
    {
        build_transactions(&self.plan().block, &self.plan().stored_receipts)
    }
}

} // verus!
