//! What the replay of one block is: its stages, what it waits for, and how it goes on.
use crate::block::{all_logs, receipt_views, Receipt, RecoveredBlock};
use crate::block::{BlockView, ReceiptView};
use crate::commitments::requests_hash_of;
use crate::error::{cancelled, cancelled_error, mismatch, unavailable, RpcError, RpcErrorView};
use crate::fixed::{Address, B256};
use crate::text::{decimal, hex_text};
use crate::trace::canonical::{hashes_fault, window_start};
use crate::trace::events::{event_views, events_fault, DebankEvent, EventView};
use crate::trace::execution::{execution_agrees, ExecutionOutcome, OutcomeView};
use crate::trace::probe::ReplayTestPhase;
use vstd::prelude::*;

verus! {

/// A point at which a replay stops if its request was cancelled.
#[derive(Clone, Copy, Debug, PartialEq, Eq, Structural)]
pub enum CancelPoint {
    BeforeProviderLoad,
    BeforeParentStateRoot,
    BeforePreExecution,
    AfterPreExecution,
    BeforeTransaction,
    AfterTransactionExecution,
    BeforeFormatter,
    AfterFormatter,
    AfterTransactionCommit,
    BeforeReplayStateRoot,
    AfterReplayStateRoot,
    BeforeStateDiffEncoding,
    AfterStateDiffEncoding,
    BeforeDecodedStateRoot,
    AfterDecodedStateRoot,
    BeforeJsonSerialization,
    AfterJsonSerialization,
}

impl CancelPoint {
    /// The name of the point.
    pub open spec fn label(self) -> Seq<char> {
        match self {
            CancelPoint::BeforeProviderLoad => "before provider load"@,
            CancelPoint::BeforeParentStateRoot => "before parent state root"@,
            CancelPoint::BeforePreExecution => "before pre-execution"@,
            CancelPoint::AfterPreExecution => "after pre-execution"@,
            CancelPoint::BeforeTransaction => "before transaction"@,
            CancelPoint::AfterTransactionExecution => "after transaction execution"@,
            CancelPoint::BeforeFormatter => "before formatter"@,
            CancelPoint::AfterFormatter => "after formatter"@,
            CancelPoint::AfterTransactionCommit => "after transaction commit"@,
            CancelPoint::BeforeReplayStateRoot => "before replay state root"@,
            CancelPoint::AfterReplayStateRoot => "after replay state root"@,
            CancelPoint::BeforeStateDiffEncoding => "before state-diff encoding"@,
            CancelPoint::AfterStateDiffEncoding => "after state-diff encoding"@,
            CancelPoint::BeforeDecodedStateRoot => "before decoded state root"@,
            CancelPoint::AfterDecodedStateRoot => "after decoded state root"@,
            CancelPoint::BeforeJsonSerialization => "before JSON serialization"@,
            CancelPoint::AfterJsonSerialization => "after JSON serialization"@,
        }
    }

    /// The name of the point.
    pub fn name(self) -> (r: &'static str)
        ensures
            r@ == self.label(),
    {
        match self {
            CancelPoint::BeforeProviderLoad => "before provider load",
            CancelPoint::BeforeParentStateRoot => "before parent state root",
            CancelPoint::BeforePreExecution => "before pre-execution",
            CancelPoint::AfterPreExecution => "after pre-execution",
            CancelPoint::BeforeTransaction => "before transaction",
            CancelPoint::AfterTransactionExecution => "after transaction execution",
            CancelPoint::BeforeFormatter => "before formatter",
            CancelPoint::AfterFormatter => "after formatter",
            CancelPoint::AfterTransactionCommit => "after transaction commit",
            CancelPoint::BeforeReplayStateRoot => "before replay state root",
            CancelPoint::AfterReplayStateRoot => "after replay state root",
            CancelPoint::BeforeStateDiffEncoding => "before state-diff encoding",
            CancelPoint::AfterStateDiffEncoding => "after state-diff encoding",
            CancelPoint::BeforeDecodedStateRoot => "before decoded state root",
            CancelPoint::AfterDecodedStateRoot => "after decoded state root",
            CancelPoint::BeforeJsonSerialization => "before JSON serialization",
            CancelPoint::AfterJsonSerialization => "after JSON serialization",
        }
    }
}

/// Stops before starting a new replay stage after deadline or client disconnect.
pub fn check_cancelled(is_cancelled: bool, point: CancelPoint) -> (r: Result<(), RpcError>)
    ensures
        r is Ok <==> !is_cancelled,
        r matches Err(error) ==> error@ == cancelled(point.label()),
{
    if is_cancelled {
        return Err(cancelled_error(String::from_str(point.name())));
    }
    Ok(())
}

/// What a replay is waiting for.
#[derive(Clone, Copy, Debug, PartialEq, Eq, Structural)]
pub enum ReplayStage {
    /// The height of the parent state from proof history.
    ResolveParent,
    /// The archive state of the parent.
    OpenHistory,
    /// A worker for the replay.
    EnterWorker,
    /// A worker that serializes a finished output.
    EnterSerializer,
    /// Whether the request was cancelled.
    Cancel(CancelPoint),
    /// A phase report.
    Report(ReplayTestPhase),
    /// The proof-history state of the parent.
    OpenProofState,
    /// The parent header.
    LoadParentHeader,
    /// The state root of the parent state.
    ParentRoot,
    /// The hashes of the `BLOCKHASH` window.
    HashWindow,
    /// The executor.
    PrepareExecutor,
    /// Pre-execution changes.
    PreExecution,
    /// The execution of the current transaction.
    Execute,
    /// The exact errors of the current transaction.
    Inspect,
    /// The formatted traces of the current transaction.
    Format,
    /// The commit of the current transaction.
    Commit,
    /// The outcome of the execution.
    FinishExecution,
    /// The state root of the replayed state.
    ReplayRoot,
    /// The state diff.
    BuildDiff,
    /// The encoded state diff.
    EncodeDiff,
    /// The state diff decoded again.
    DecodeDiff,
    /// The state root of the decoded state diff.
    DecodedRoot,
    /// The output.
    AssembleOutput,
    /// The serialized output.
    Serialize,
    /// Nothing: the replay is over.
    Done,
}

impl ReplayStage {
    /// Whether the stage reads the block's history, so that its failure means that the history is
    /// unavailable.
    pub open spec fn reads_history(self) -> bool {
        self is ResolveParent || self is OpenHistory || self is OpenProofState
            || self is LoadParentHeader || self is ParentRoot || self is HashWindow
    }

    /// Whether the stage reads the block's history.
    pub fn is_history_stage(self) -> (r: bool)
        ensures
            r == self.reads_history(),
    {
        matches!(
            self,
            ReplayStage::ResolveParent
                | ReplayStage::OpenHistory
                | ReplayStage::OpenProofState
                | ReplayStage::LoadParentHeader
                | ReplayStage::ParentRoot
                | ReplayStage::HashWindow
        )
    }
}

/// What a replay is about, fixed from the start.
#[derive(Debug)]
pub struct ReplayPlan {
    /// The block to replay.
    pub block: RecoveredBlock,
    /// The receipts stored for it.
    pub stored_receipts: Vec<Receipt>,
    /// Whether Unzen is active for it.
    pub is_unzen_active: bool,
    /// Whether there is a proof history.
    pub proof_history: bool,
    /// Whether state roots are computed and verified.
    pub verify_state_roots: bool,
}

/// What a [`ReplayPlan`] says.
pub struct PlanView {
    pub block: BlockView,
    pub senders: Seq<Address>,
    pub stored_receipts: Seq<ReceiptView>,
    pub is_unzen_active: bool,
    pub proof_history: bool,
    pub verify_state_roots: bool,
}

impl View for ReplayPlan {
    type V = PlanView;

    open spec fn view(&self) -> PlanView {
        PlanView {
            block: self.block.block@,
            senders: self.block.senders@,
            stored_receipts: receipt_views(self.stored_receipts@),
            is_unzen_active: self.is_unzen_active,
            proof_history: self.proof_history,
            verify_state_roots: self.verify_state_roots,
        }
    }
}

/// What is read of a parent header.
#[derive(Clone, Copy, Debug)]
pub struct ParentHeader {
    pub number: u64,
    pub state_root: B256,
}

/// The formatted traces of one transaction.
#[derive(Debug)]
pub struct TransactionTraces<T> {
    pub traces: Vec<T>,
    pub error_traces: Vec<T>,
    pub events: Vec<DebankEvent>,
    pub error_events: Vec<DebankEvent>,
}

/// What came of the last request.
#[derive(Debug)]
pub enum ReplayEvent<T> {
    /// It was done, and gave nothing.
    Proceed,
    /// It failed with this error text.
    Failed(String),
    /// The worker was lost with this error text.
    WorkerLost(String),
    /// Whether the request was cancelled.
    Cancelled(bool),
    /// The height of the parent state.
    ParentResolved(u64),
    /// The parent header, if it exists.
    ParentHeader(Option<ParentHeader>),
    /// A state root.
    Root(B256),
    /// The hashes of the `BLOCKHASH` window.
    Hashes(Vec<B256>),
    /// The formatted traces of the current transaction.
    Formatted(TransactionTraces<T>),
    /// The outcome of the execution.
    Executed(ExecutionOutcome),
    /// The encoded state diff.
    Encoded(Vec<u8>),
    /// The serialized output.
    Serialized(String),
}

/// What a [`ReplayEvent`] says.
pub enum ReplayEventView<T> {
    Proceed,
    Failed(Seq<char>),
    WorkerLost(Seq<char>),
    Cancelled(bool),
    ParentResolved(u64),
    ParentHeader(Option<ParentHeader>),
    Root(B256),
    Hashes(Seq<B256>),
    Formatted { traces: Seq<T>, error_traces: Seq<T>, events: Seq<EventView>, error_events: Seq<EventView> },
    Executed(OutcomeView),
    Encoded(Seq<u8>),
    Serialized(Seq<char>),
}

impl<T> View for ReplayEvent<T> {
    type V = ReplayEventView<T>;

    open spec fn view(&self) -> ReplayEventView<T> {
        match *self {
            ReplayEvent::Proceed => ReplayEventView::Proceed,
            ReplayEvent::Failed(error) => ReplayEventView::Failed(error@),
            ReplayEvent::WorkerLost(error) => ReplayEventView::WorkerLost(error@),
            ReplayEvent::Cancelled(is_cancelled) => ReplayEventView::Cancelled(is_cancelled),
            ReplayEvent::ParentResolved(number) => ReplayEventView::ParentResolved(number),
            ReplayEvent::ParentHeader(header) => ReplayEventView::ParentHeader(header),
            ReplayEvent::Root(root) => ReplayEventView::Root(root),
            ReplayEvent::Hashes(hashes) => ReplayEventView::Hashes(hashes@),
            ReplayEvent::Formatted(formatted) => ReplayEventView::Formatted {
                traces: formatted.traces@,
                error_traces: formatted.error_traces@,
                events: event_views(formatted.events@),
                error_events: event_views(formatted.error_events@),
            },
            ReplayEvent::Executed(outcome) => ReplayEventView::Executed(outcome@),
            ReplayEvent::Encoded(bytes) => ReplayEventView::Encoded(bytes@),
            ReplayEvent::Serialized(text) => ReplayEventView::Serialized(text@),
        }
    }
}

/// Whether an event answers what a stage waits for.
pub open spec fn answers<T>(stage: ReplayStage, event: ReplayEventView<T>) -> bool {
    match event {
        ReplayEventView::WorkerLost(_) => !(stage is ResolveParent || stage is OpenHistory
            || stage is Done),
        ReplayEventView::Failed(_) => match stage {
            ReplayStage::EnterWorker
            | ReplayStage::EnterSerializer
            | ReplayStage::Cancel(_)
            | ReplayStage::Report(_)
            | ReplayStage::EncodeDiff
            | ReplayStage::AssembleOutput
            | ReplayStage::Done => false,
            _ => true,
        },
        ReplayEventView::Cancelled(_) => stage is Cancel,
        ReplayEventView::ParentResolved(_) => stage is ResolveParent,
        ReplayEventView::ParentHeader(_) => stage is LoadParentHeader,
        ReplayEventView::Root(_) => stage is ParentRoot || stage is ReplayRoot
            || stage is DecodedRoot,
        ReplayEventView::Hashes(_) => stage is HashWindow,
        ReplayEventView::Formatted { .. } => stage is Format,
        ReplayEventView::Executed(_) => stage is FinishExecution,
        ReplayEventView::Encoded(_) => stage is EncodeDiff,
        ReplayEventView::Serialized(_) => stage is Serialize,
        ReplayEventView::Proceed => match stage {
            ReplayStage::OpenHistory
            | ReplayStage::EnterWorker
            | ReplayStage::EnterSerializer
            | ReplayStage::Report(_)
            | ReplayStage::OpenProofState
            | ReplayStage::PrepareExecutor
            | ReplayStage::PreExecution
            | ReplayStage::Execute
            | ReplayStage::Inspect
            | ReplayStage::Commit
            | ReplayStage::BuildDiff
            | ReplayStage::DecodeDiff
            | ReplayStage::AssembleOutput => true,
            _ => false,
        },
    }
}

/// How far a replay has come.
pub struct ReplayView<T> {
    pub plan: PlanView,
    pub stage: ReplayStage,
    /// Position of the current transaction.
    pub transaction: nat,
    /// Height of the parent state.
    pub parent_number: u64,
    /// The parent header, once it is loaded.
    pub parent: Option<ParentHeader>,
    /// The verified state root of the replayed state.
    pub replay_root: Option<B256>,
    /// The encoded state diff.
    pub encoded: Seq<u8>,
    pub traces: Seq<T>,
    pub error_traces: Seq<T>,
    pub events: Seq<EventView>,
    pub error_events: Seq<EventView>,
    /// The serialized output, or the error.
    pub result: Option<Result<Seq<char>, RpcErrorView>>,
}

impl<T> ReplayView<T> {
    /// A replay that has not begun.
    pub open spec fn at(plan: PlanView, stage: ReplayStage, parent_number: u64) -> ReplayView<T> {
        ReplayView {
            plan,
            stage,
            transaction: 0,
            parent_number,
            parent: None,
            replay_root: None,
            encoded: seq![],
            traces: seq![],
            error_traces: seq![],
            events: seq![],
            error_events: seq![],
            result: None,
        }
    }

    /// The first stage of a replay: a block without a parent height cannot be replayed.
    pub open spec fn started(plan: PlanView) -> ReplayView<T> {
        let number = plan.block.header.number;
        if plan.proof_history {
            Self::at(plan, ReplayStage::ResolveParent, 0)
        } else if number == 0 {
            Self::at(plan, ReplayStage::OpenHistory, 0).ended(
                mismatch("non-Genesis replay has no parent height"@),
            )
        } else {
            Self::at(plan, ReplayStage::OpenHistory, (number - 1) as u64)
        }
    }

    /// The first stage of a serialization without a replay.
    pub open spec fn serializing(plan: PlanView) -> ReplayView<T> {
        Self::at(plan, ReplayStage::EnterSerializer, 0)
    }

    /// The replay, over with an error.
    pub open spec fn ended(self, error: RpcErrorView) -> ReplayView<T> {
        ReplayView { stage: ReplayStage::Done, result: Some(Err(error)), ..self }
    }

    /// Whether the block leaves the state as its parent did.
    pub open spec fn state_neutral(self) -> bool {
        self.parent matches Some(parent) && parent.state_root == self.plan.block.header.state_root
    }

    /// The stage that follows when nothing goes wrong.
    pub open spec fn next(self) -> ReplayStage {
        let verify = self.plan.verify_state_roots;
        let count = self.plan.block.transactions.len();
        match self.stage {
            ReplayStage::ResolveParent | ReplayStage::OpenHistory => ReplayStage::EnterWorker,
            ReplayStage::EnterWorker => ReplayStage::Cancel(CancelPoint::BeforeProviderLoad),
            ReplayStage::EnterSerializer => ReplayStage::Report(ReplayTestPhase::OutputBuilt),
            ReplayStage::Cancel(point) => match point {
                CancelPoint::BeforeProviderLoad => if verify && self.plan.proof_history {
                    ReplayStage::OpenProofState
                } else {
                    ReplayStage::LoadParentHeader
                },
                CancelPoint::BeforeParentStateRoot => ReplayStage::ParentRoot,
                CancelPoint::BeforePreExecution => ReplayStage::PreExecution,
                CancelPoint::AfterPreExecution => if count > 0 {
                    ReplayStage::Cancel(CancelPoint::BeforeTransaction)
                } else {
                    ReplayStage::FinishExecution
                },
                CancelPoint::BeforeTransaction => ReplayStage::Execute,
                CancelPoint::AfterTransactionExecution => ReplayStage::Inspect,
                CancelPoint::BeforeFormatter => ReplayStage::Format,
                CancelPoint::AfterFormatter => ReplayStage::Commit,
                CancelPoint::AfterTransactionCommit => if self.transaction + 1 < count {
                    ReplayStage::Cancel(CancelPoint::BeforeTransaction)
                } else {
                    ReplayStage::FinishExecution
                },
                CancelPoint::BeforeReplayStateRoot => ReplayStage::ReplayRoot,
                CancelPoint::AfterReplayStateRoot => ReplayStage::BuildDiff,
                CancelPoint::BeforeStateDiffEncoding => if self.state_neutral() {
                    ReplayStage::Report(ReplayTestPhase::StateDiffEncoded)
                } else {
                    ReplayStage::EncodeDiff
                },
                CancelPoint::AfterStateDiffEncoding => if self.encoded.len() == 0 {
                    ReplayStage::Report(ReplayTestPhase::StateDiffDecoded)
                } else {
                    ReplayStage::DecodeDiff
                },
                CancelPoint::BeforeDecodedStateRoot => ReplayStage::DecodedRoot,
                CancelPoint::AfterDecodedStateRoot => ReplayStage::AssembleOutput,
                CancelPoint::BeforeJsonSerialization => ReplayStage::Serialize,
                CancelPoint::AfterJsonSerialization => ReplayStage::Report(
                    ReplayTestPhase::JsonSerialized,
                ),
            },
            ReplayStage::Report(phase) => match phase {
                ReplayTestPhase::ProviderLoaded => if verify {
                    ReplayStage::Cancel(CancelPoint::BeforeParentStateRoot)
                } else {
                    ReplayStage::HashWindow
                },
                ReplayTestPhase::PreExecutionApplied => ReplayStage::Cancel(
                    CancelPoint::AfterPreExecution,
                ),
                ReplayTestPhase::TransactionExecuted => ReplayStage::Cancel(
                    CancelPoint::AfterTransactionExecution,
                ),
                ReplayTestPhase::BeforeFormatter => ReplayStage::Cancel(
                    CancelPoint::BeforeFormatter,
                ),
                ReplayTestPhase::FormatterCompleted => ReplayStage::Cancel(
                    CancelPoint::AfterFormatter,
                ),
                ReplayTestPhase::RootAComputed => ReplayStage::Cancel(
                    CancelPoint::AfterReplayStateRoot,
                ),
                ReplayTestPhase::StateDiffEncoded => ReplayStage::Cancel(
                    CancelPoint::AfterStateDiffEncoding,
                ),
                ReplayTestPhase::StateDiffDecoded => if self.replay_root is Some {
                    ReplayStage::Cancel(CancelPoint::BeforeDecodedStateRoot)
                } else {
                    ReplayStage::AssembleOutput
                },
                ReplayTestPhase::RootBComputed => ReplayStage::Cancel(
                    CancelPoint::AfterDecodedStateRoot,
                ),
                ReplayTestPhase::OutputBuilt => ReplayStage::Cancel(
                    CancelPoint::BeforeJsonSerialization,
                ),
                ReplayTestPhase::JsonSerializationCompleted => ReplayStage::Cancel(
                    CancelPoint::AfterJsonSerialization,
                ),
                ReplayTestPhase::JsonSerialized
                | ReplayTestPhase::InitialCanonicalChecked => ReplayStage::Done,
            },
            ReplayStage::OpenProofState => ReplayStage::LoadParentHeader,
            ReplayStage::LoadParentHeader => ReplayStage::Report(ReplayTestPhase::ProviderLoaded),
            ReplayStage::ParentRoot => ReplayStage::HashWindow,
            ReplayStage::HashWindow => ReplayStage::PrepareExecutor,
            ReplayStage::PrepareExecutor => ReplayStage::Cancel(CancelPoint::BeforePreExecution),
            ReplayStage::PreExecution => ReplayStage::Report(ReplayTestPhase::PreExecutionApplied),
            ReplayStage::Execute => ReplayStage::Report(ReplayTestPhase::TransactionExecuted),
            ReplayStage::Inspect => ReplayStage::Report(ReplayTestPhase::BeforeFormatter),
            ReplayStage::Format => ReplayStage::Report(ReplayTestPhase::FormatterCompleted),
            ReplayStage::Commit => ReplayStage::Cancel(CancelPoint::AfterTransactionCommit),
            ReplayStage::FinishExecution => if verify {
                ReplayStage::Cancel(CancelPoint::BeforeReplayStateRoot)
            } else {
                ReplayStage::BuildDiff
            },
            ReplayStage::ReplayRoot => ReplayStage::Report(ReplayTestPhase::RootAComputed),
            ReplayStage::BuildDiff => ReplayStage::Cancel(CancelPoint::BeforeStateDiffEncoding),
            ReplayStage::EncodeDiff => ReplayStage::Report(ReplayTestPhase::StateDiffEncoded),
            ReplayStage::DecodeDiff => ReplayStage::Report(ReplayTestPhase::StateDiffDecoded),
            ReplayStage::DecodedRoot => ReplayStage::Report(ReplayTestPhase::RootBComputed),
            ReplayStage::AssembleOutput => ReplayStage::Report(ReplayTestPhase::OutputBuilt),
            ReplayStage::Serialize => ReplayStage::Report(
                ReplayTestPhase::JsonSerializationCompleted,
            ),
            ReplayStage::Done => ReplayStage::Done,
        }
    }

    /// The replay in its next stage. Output is assembled only from events that are the stored logs.
    pub open spec fn moved_on(self) -> ReplayView<T> {
        let stage = self.next();
        let moved = ReplayView {
            stage,
            transaction: if self.stage == ReplayStage::Cancel(CancelPoint::AfterTransactionCommit) {
                self.transaction + 1
            } else {
                self.transaction
            },
            ..self
        };
        if stage is AssembleOutput {
            match events_fault(self.events, all_logs(self.plan.stored_receipts)) {
                Some(fault) => moved.ended(mismatch(fault)),
                None => moved,
            }
        } else {
            moved
        }
    }

    /// The error with which an event ends the replay, if it does.
    pub open spec fn fault(self, event: ReplayEventView<T>) -> Option<RpcErrorView> {
        let header = self.plan.block.header;
        match event {
            ReplayEventView::Failed(error) => Some(
                if self.stage.reads_history() {
                    unavailable(error)
                } else {
                    mismatch(error)
                },
            ),
            ReplayEventView::WorkerLost(error) => Some(unavailable(error)),
            ReplayEventView::Cancelled(is_cancelled) => if is_cancelled {
                Some(cancelled(self.stage->Cancel_0.label()))
            } else {
                None
            },
            ReplayEventView::ParentResolved(number) => if number + 1 == header.number {
                None
            } else {
                Some(
                    mismatch(
                        "parent height "@ + decimal(number as nat) + " does not precede block "@
                            + decimal(header.number as nat),
                    ),
                )
            },
            ReplayEventView::ParentHeader(parent) => match parent {
                None => Some(unavailable(hex_text(header.parent_hash.0@))),
                Some(found) => if found.number == self.parent_number {
                    None
                } else {
                    Some(
                        mismatch(
                            "parent header height "@ + decimal(found.number as nat)
                                + " differs from resolved state height "@ + decimal(
                                self.parent_number as nat,
                            ),
                        ),
                    )
                },
            },
            ReplayEventView::Root(root) => match self.root_fault(root) {
                Some(fault) => Some(mismatch(fault)),
                None => None,
            },
            ReplayEventView::Hashes(hashes) => hashes_fault(
                header.number,
                header.parent_hash,
                hashes,
            ),
            ReplayEventView::Executed(outcome) => if execution_agrees(
                header,
                self.plan.stored_receipts,
                self.plan.is_unzen_active,
                outcome.receipts,
                outcome.gas_used,
                requests_hash_of(outcome.requests),
            ) {
                None
            } else {
                Some(mismatch("replayed receipts, gasUsed, or requests differ from the header"@))
            },
            _ => None,
        }
    }

    /// The replay with what an event brings, in the same stage.
    pub open spec fn noted(self, event: ReplayEventView<T>) -> ReplayView<T> {
        match event {
            ReplayEventView::ParentResolved(number) => ReplayView { parent_number: number, ..self },
            ReplayEventView::ParentHeader(parent) => ReplayView { parent, ..self },
            ReplayEventView::Root(root) => ReplayView {
                replay_root: if self.stage is ReplayRoot {
                    Some(root)
                } else {
                    self.replay_root
                },
                ..self
            },
            ReplayEventView::Formatted { traces, error_traces, events, error_events } => ReplayView {
                traces: self.traces + traces,
                error_traces: self.error_traces + error_traces,
                events: self.events + events,
                error_events: self.error_events + error_events,
                ..self
            },
            ReplayEventView::Encoded(bytes) => ReplayView { encoded: bytes, ..self },
            ReplayEventView::Serialized(text) => ReplayView { result: Some(Ok(text)), ..self },
            _ => self,
        }
    }

    /// The replay after an event: over with an error, or in its next stage.
    pub open spec fn after(self, event: ReplayEventView<T>) -> ReplayView<T> {
        match self.fault(event) {
            Some(error) => self.ended(error),
            None => self.noted(event).moved_on(),
        }
    }

    /// What is wrong with a computed state root: it must be the one that the replay vouches for.
    pub open spec fn root_fault(self, root: B256) -> Option<Seq<char>> {
        let shown = hex_text(root.0@);
        if self.stage is ParentRoot {
            let expected = self.parent->0.state_root;
            if root == expected {
                None
            } else {
                Some(
                    "parent state provider root "@ + shown + " != parent header root "@ + hex_text(
                        expected.0@,
                    ),
                )
            }
        } else if self.stage is ReplayRoot {
            let expected = self.plan.block.header.state_root;
            if root == expected {
                None
            } else {
                Some("replay root "@ + shown + " != header root "@ + hex_text(expected.0@))
            }
        } else {
            let expected = self.replay_root->0;
            if root == expected {
                None
            } else {
                Some("decoded root "@ + shown + " != replay root "@ + hex_text(expected.0@))
            }
        }
    }
}

/// The order of the stages of a replay.
pub open spec fn place(stage: ReplayStage) -> nat {
    match stage {
        ReplayStage::ResolveParent => 0,
        ReplayStage::OpenHistory => 1,
        ReplayStage::EnterWorker => 2,
        ReplayStage::Cancel(point) => match point {
            CancelPoint::BeforeProviderLoad => 3,
            CancelPoint::BeforeParentStateRoot => 7,
            CancelPoint::BeforePreExecution => 11,
            CancelPoint::AfterPreExecution => 14,
            CancelPoint::BeforeTransaction => 15,
            CancelPoint::AfterTransactionExecution => 18,
            CancelPoint::BeforeFormatter => 21,
            CancelPoint::AfterFormatter => 24,
            CancelPoint::AfterTransactionCommit => 26,
            CancelPoint::BeforeReplayStateRoot => 28,
            CancelPoint::AfterReplayStateRoot => 31,
            CancelPoint::BeforeStateDiffEncoding => 33,
            CancelPoint::AfterStateDiffEncoding => 36,
            CancelPoint::BeforeDecodedStateRoot => 39,
            CancelPoint::AfterDecodedStateRoot => 42,
            CancelPoint::BeforeJsonSerialization => 46,
            CancelPoint::AfterJsonSerialization => 49,
        },
        ReplayStage::OpenProofState => 4,
        ReplayStage::LoadParentHeader => 5,
        ReplayStage::Report(phase) => match phase {
            ReplayTestPhase::InitialCanonicalChecked => 0,
            ReplayTestPhase::ProviderLoaded => 6,
            ReplayTestPhase::PreExecutionApplied => 13,
            ReplayTestPhase::TransactionExecuted => 17,
            ReplayTestPhase::BeforeFormatter => 20,
            ReplayTestPhase::FormatterCompleted => 23,
            ReplayTestPhase::RootAComputed => 30,
            ReplayTestPhase::StateDiffEncoded => 35,
            ReplayTestPhase::StateDiffDecoded => 38,
            ReplayTestPhase::RootBComputed => 41,
            ReplayTestPhase::OutputBuilt => 45,
            ReplayTestPhase::JsonSerializationCompleted => 48,
            ReplayTestPhase::JsonSerialized => 50,
        },
        ReplayStage::ParentRoot => 8,
        ReplayStage::HashWindow => 9,
        ReplayStage::PrepareExecutor => 10,
        ReplayStage::PreExecution => 12,
        ReplayStage::Execute => 16,
        ReplayStage::Inspect => 19,
        ReplayStage::Format => 22,
        ReplayStage::Commit => 25,
        ReplayStage::FinishExecution => 27,
        ReplayStage::ReplayRoot => 29,
        ReplayStage::BuildDiff => 32,
        ReplayStage::EncodeDiff => 34,
        ReplayStage::DecodeDiff => 37,
        ReplayStage::DecodedRoot => 40,
        ReplayStage::AssembleOutput => 43,
        ReplayStage::EnterSerializer => 44,
        ReplayStage::Serialize => 47,
        ReplayStage::Done => 51,
    }
}

/// Whether a stage belongs to the replay of one transaction.
pub open spec fn replays_transaction(stage: ReplayStage) -> bool {
    15 <= place(stage) <= 26
}

/// Whether a stage comes after the transactions, and not after the output is assembled.
pub open spec fn concludes_block(stage: ReplayStage) -> bool {
    27 <= place(stage) <= 43
}

/// Whether a stage belongs to the verification of state roots.
pub open spec fn verifies_roots(stage: ReplayStage) -> bool {
    let place = place(stage);
    place == 4 || place == 7 || place == 8 || 28 <= place <= 31 || 39 <= place <= 42
}

impl<T> ReplayView<T> {
    /// Whether there is a serialized output.
    pub open spec fn has_output(self) -> bool {
        self.result matches Some(Ok(_))
    }

    /// Whether the replay has ended with an output.
    pub open spec fn succeeded(self) -> bool {
        self.stage is Done && self.has_output()
    }

    /// What holds of a replay at every moment.
    pub open spec fn consistent(self) -> bool {
        let place = place(self.stage);
        let header = self.plan.block.header;
        let verify = self.plan.verify_state_roots;
        // Phases of other parts of a request do not occur here.
        &&& self.stage != ReplayStage::Report(ReplayTestPhase::InitialCanonicalChecked)
        &&& self.plan.senders.len() == self.plan.block.transactions.len()
        // There is a current transaction while transactions are replayed.
        &&& replays_transaction(self.stage) ==> self.transaction
            < self.plan.block.transactions.len()
        &&& place < 15 ==> self.transaction == 0
        &&& concludes_block(self.stage) ==> self.transaction == self.plan.block.transactions.len()
        &&& place < 15 ==> self.events.len() == 0
        // The parent precedes the block, and is known once it is loaded.
        &&& 1 <= place <= 43 ==> self.parent_number + 1 == header.number
        &&& place <= 5 ==> self.parent is None
        &&& 6 <= place <= 43 ==> self.parent is Some
        &&& self.parent matches Some(parent) ==> parent.number == self.parent_number
        // Roots are computed only if they are to be verified, and only the header's root passes.
        &&& verifies_roots(self.stage) ==> verify
        &&& place == 4 ==> self.plan.proof_history
        &&& self.replay_root matches Some(root) ==> verify && root == header.state_root
        &&& (30 <= place <= 50 || self.succeeded()) && self.parent is Some && verify
            ==> self.replay_root is Some
        // A block that leaves the state alone has an empty diff.
        &&& place <= 34 ==> self.encoded.len() == 0
        &&& place == 34 ==> !self.state_neutral()
        &&& self.encoded.len() > 0 ==> self.parent is Some && !self.state_neutral()
        // There is an output from the serialization on, and nothing before.
        &&& place < 48 ==> self.result is None
        &&& 48 <= place <= 50 ==> self.has_output()
        &&& self.stage is Done ==> self.result is Some
    }
}

/// What a replay wants to have done next.
#[derive(Clone, Copy, Debug, PartialEq, Eq)]
pub enum ReplayRequest {
    /// Resolve the state of the block with this hash in proof history.
    ResolveParent(B256),
    /// Open the archive state of the block with this hash.
    OpenHistory(B256),
    /// Start a worker.
    SpawnWorker,
    /// Say whether the request was cancelled.
    CheckCancelled(CancelPoint),
    /// Report a phase.
    Report(ReplayTestPhase),
    /// Open the proof-history state at this height.
    OpenProofState(u64),
    /// Load the header with this hash.
    LoadParentHeader(B256),
    /// Compute the state root of the opened state.
    ComputeParentRoot,
    /// Read the canonical hashes from the first height up to and without the second.
    ReadBlockHashes(u64, u64),
    /// Prepare the executor for the block.
    PrepareExecutor,
    /// Apply pre-execution changes.
    ApplyPreExecution,
    /// Execute the transaction at this position without committing it.
    ExecuteTransaction(usize),
    /// Close the transaction's inspection and take its exact errors.
    FinishInspection(usize),
    /// Format the transaction's traces.
    FormatTransaction(usize),
    /// Commit the transaction.
    CommitTransaction(usize),
    /// Finish the execution.
    FinishExecution,
    /// Compute the state root of the opened state with the replayed changes.
    ComputeReplayRoot,
    /// Build the state diff between this state root and the one before it.
    BuildStateDiff { state_root: B256, parent_state_root: B256 },
    /// Encode the state diff.
    EncodeStateDiff,
    /// Decode the encoded state diff and compare it with the one that was encoded.
    DecodeStateDiff,
    /// Compute the state root of the opened state with the decoded changes.
    ComputeDecodedRoot,
    /// Assemble the output.
    AssembleOutput,
    /// Serialize the output.
    Serialize,
    /// Take the result.
    Finished,
}

impl<T> ReplayView<T> {
    /// What the replay wants to have done next.
    pub open spec fn request(self) -> ReplayRequest {
        let header = self.plan.block.header;
        match self.stage {
            ReplayStage::ResolveParent => ReplayRequest::ResolveParent(header.parent_hash),
            ReplayStage::OpenHistory => ReplayRequest::OpenHistory(header.parent_hash),
            ReplayStage::EnterWorker | ReplayStage::EnterSerializer => ReplayRequest::SpawnWorker,
            ReplayStage::Cancel(point) => ReplayRequest::CheckCancelled(point),
            ReplayStage::Report(phase) => ReplayRequest::Report(phase),
            ReplayStage::OpenProofState => ReplayRequest::OpenProofState(self.parent_number),
            ReplayStage::LoadParentHeader => ReplayRequest::LoadParentHeader(header.parent_hash),
            ReplayStage::ParentRoot => ReplayRequest::ComputeParentRoot,
            ReplayStage::HashWindow => ReplayRequest::ReadBlockHashes(
                window_start(header.number),
                header.number,
            ),
            ReplayStage::PrepareExecutor => ReplayRequest::PrepareExecutor,
            ReplayStage::PreExecution => ReplayRequest::ApplyPreExecution,
            ReplayStage::Execute => ReplayRequest::ExecuteTransaction(self.transaction as usize),
            ReplayStage::Inspect => ReplayRequest::FinishInspection(self.transaction as usize),
            ReplayStage::Format => ReplayRequest::FormatTransaction(self.transaction as usize),
            ReplayStage::Commit => ReplayRequest::CommitTransaction(self.transaction as usize),
            ReplayStage::FinishExecution => ReplayRequest::FinishExecution,
            ReplayStage::ReplayRoot => ReplayRequest::ComputeReplayRoot,
            ReplayStage::BuildDiff => ReplayRequest::BuildStateDiff {
                state_root: header.state_root,
                parent_state_root: self.parent->0.state_root,
            },
            ReplayStage::EncodeDiff => ReplayRequest::EncodeStateDiff,
            ReplayStage::DecodeDiff => ReplayRequest::DecodeStateDiff,
            ReplayStage::DecodedRoot => ReplayRequest::ComputeDecodedRoot,
            ReplayStage::AssembleOutput => ReplayRequest::AssembleOutput,
            ReplayStage::Serialize => ReplayRequest::Serialize,
            ReplayStage::Done => ReplayRequest::Finished,
        }
    }
}

/// [`ReplayView::consistent`] without its definition, for proofs that need not look into it.
#[verifier::opaque]
pub open spec fn consistent_folded<T>(replay: ReplayView<T>) -> bool {
    replay.consistent()
}

/// A consistent replay that ends stays consistent.
proof fn ending_keeps_consistency<T>(replay: ReplayView<T>, error: RpcErrorView)
    requires
        consistent_folded(replay),
    ensures
        consistent_folded(replay.ended(error)),
{
    reveal(consistent_folded);
}

/// A consistent replay that goes on stays consistent.
proof fn moving_on_keeps_consistency<T>(replay: ReplayView<T>, event: ReplayEventView<T>)
    requires
        consistent_folded(replay),
        answers(replay.stage, event),
        replay.fault(event) is None,
    ensures
        consistent_folded(replay.noted(event).moved_on()),
{
    reveal(consistent_folded);
}

/// Whatever an event says, the replay stays consistent and keeps its plan.
pub proof fn events_keep_replays_consistent<T>(replay: ReplayView<T>, event: ReplayEventView<T>)
    requires
        replay.consistent(),
        answers(replay.stage, event),
    ensures
        replay.after(event).consistent(),
        replay.after(event).plan == replay.plan,
{
    reveal(consistent_folded);
    events_keep_replays_folded(replay, event);
}

/// The same without looking into consistency.
pub proof fn events_keep_replays_folded<T>(replay: ReplayView<T>, event: ReplayEventView<T>)
    requires
        consistent_folded(replay),
        answers(replay.stage, event),
    ensures
        consistent_folded(replay.after(event)),
        replay.after(event).plan == replay.plan,
{
    match replay.fault(event) {
        Some(error) => {
            ending_keeps_consistency(replay, error);
        },
        None => {
            moving_on_keeps_consistency(replay, event);
        },
    }
}

} // verus!
