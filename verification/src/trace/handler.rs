//! A `trace_debankBlock` request as a sequence of decisions.
//!
//! A [`Handler`] says what has to be done next, is told what came of it, and decides how to go on.
//! It waits for nothing and reads nothing itself.
use crate::block::{receipt_views, Receipt, RecoveredBlock, TxType};
use crate::block::{BlockView, ReceiptView};
use crate::chain::{reached, TaikoChainSpec};
use crate::error::{
    cancelled, cancelled_error, unavailable, unavailable_error, RpcError, RpcErrorView,
};
use crate::fixed::{FixedBytes, B256, ZERO_WORD};
use crate::trace::canonical::{
    assert_canonical, canonical_fault, prefer_reorg_error, preferred_error, HashLookup,
};
use crate::trace::consensus::{
    check_transaction_types, commitments_of, consensus_holds, stored_mismatch,
    unsupported_transaction, validate_stored_consensus,
};
use crate::trace::genesis::{
    check_genesis_block, check_genesis_diff, genesis_block_fault, genesis_diff_fault,
    GenesisDecoding,
};
use crate::trace::probe::ReplayTestResourceSnapshot;
use crate::trace::replay_state::result_view;
use vstd::prelude::*;

verus! {

/// End-to-end deadline for a replay request, in seconds.
pub const DEBANK_REQUEST_TIMEOUT_SECS: u64 = 300;

/// What waiting for a replay permit gave.
#[derive(Debug)]
pub enum PermitOutcome {
    Granted,
    TimedOut,
    Closed(String),
}

/// Why there is no replay permit.
pub open spec fn permit_fault(outcome: PermitOutcome) -> Option<RpcErrorView> {
    match outcome {
        PermitOutcome::Granted => None,
        PermitOutcome::TimedOut => Some(cancelled("tracing permit deadline"@)),
        PermitOutcome::Closed(error) => Some(unavailable(error@)),
    }
}

/// Judges what waiting for a replay permit gave.
pub fn acquire_replay_permit(outcome: PermitOutcome) -> (r: Result<(), RpcError>)
    ensures
        match permit_fault(outcome) {
            None => r is Ok,
            Some(fault) => r matches Err(error) && error@ == fault,
        },
{
    match outcome {
        PermitOutcome::Granted => Ok(()),
        PermitOutcome::TimedOut => Err(
            cancelled_error(String::from_str("tracing permit deadline")),
        ),
        PermitOutcome::Closed(error) => Err(unavailable_error(error)),
    }
}

/// What loading the block and its receipts gave.
#[derive(Debug)]
pub enum LoadOutcome {
    /// A block with this height and hash, and its receipts.
    Loaded { number: u64, hash: B256 },
    /// No block; the text is the requested block id.
    Missing(String),
    /// The provider failed with this error text.
    Failed(String),
    /// The request's deadline has passed.
    TimedOut,
}

/// Why there is no block.
pub open spec fn load_fault(outcome: LoadOutcome) -> Option<RpcErrorView> {
    match outcome {
        LoadOutcome::Loaded { .. } => None,
        LoadOutcome::Missing(block_id) => Some(unavailable(block_id@)),
        LoadOutcome::Failed(error) => Some(unavailable(error@)),
        LoadOutcome::TimedOut => Some(cancelled("provider deadline"@)),
    }
}

/// What a request is waiting for.
#[derive(Clone, Copy, Debug, PartialEq, Eq, Structural)]
pub enum HandlerStage {
    /// A replay permit.
    Permit,
    /// The block and its receipts.
    Load,
    /// The canonical hash at the block's height.
    InitialCheck,
    /// The report that the block was canonical.
    ReportChecked,
    /// The block, to be checked against its commitments.
    CheckBlock,
    /// The configured Genesis state.
    GenesisBlock,
    /// The decoded Genesis state diff.
    GenesisDiff,
    /// The serialization of the Genesis output.
    Serialization,
    /// The replay.
    Replay,
    /// Whether the deadline has passed.
    Deadline,
    /// The canonical hash at the block's height, before the output is returned.
    FinalCheck,
    /// The canonical hash at the block's height, before an error is returned.
    Recheck,
    /// Nothing: the request is answered.
    Done,
}

/// What came of the last step of a request.
#[derive(Debug)]
pub enum HandlerEvent<'a> {
    Permit(PermitOutcome),
    Load(LoadOutcome),
    Lookup(HashLookup),
    Reported,
    /// The block that was loaded, and its receipts.
    Block { block: &'a RecoveredBlock, receipts: &'a Vec<Receipt> },
    /// The Genesis block that was loaded, its receipts and the configured Genesis state root.
    Genesis { block: &'a RecoveredBlock, receipts: &'a Vec<Receipt>, configured_state_root: B256 },
    /// The Genesis state root, the number of allocated accounts and the decoded state diff.
    GenesisDiff { state_root: B256, allocated_accounts: usize, decoding: GenesisDecoding },
    /// The worker has finished.
    Finished(Result<String, RpcError>),
    /// The deadline has come before the worker has finished.
    DeadlineReached,
    /// Whether the deadline has passed.
    DeadlinePassed(bool),
}

/// What a [`HandlerEvent`] says.
pub enum HandlerEventView {
    Permit(PermitOutcome),
    Load(LoadOutcome),
    Lookup(HashLookup),
    Reported,
    Block { block: BlockView, hash: B256, receipts: Seq<ReceiptView> },
    Genesis { block: BlockView, hash: B256, receipts: Seq<ReceiptView>, configured_state_root: B256 },
    GenesisDiff { state_root: B256, allocated_accounts: usize, decoding: GenesisDecoding },
    Finished(Result<Seq<char>, RpcErrorView>),
    DeadlineReached,
    DeadlinePassed(bool),
}

impl<'a> View for HandlerEvent<'a> {
    type V = HandlerEventView;

    open spec fn view(&self) -> HandlerEventView {
        match *self {
            HandlerEvent::Permit(outcome) => HandlerEventView::Permit(outcome),
            HandlerEvent::Load(outcome) => HandlerEventView::Load(outcome),
            HandlerEvent::Lookup(lookup) => HandlerEventView::Lookup(lookup),
            HandlerEvent::Reported => HandlerEventView::Reported,
            HandlerEvent::Block { block, receipts } => HandlerEventView::Block {
                block: block.block@,
                hash: block.hash,
                receipts: receipt_views(receipts@),
            },
            HandlerEvent::Genesis { block, receipts, configured_state_root } =>
                HandlerEventView::Genesis {
                block: block.block@,
                hash: block.hash,
                receipts: receipt_views(receipts@),
                configured_state_root,
            },
            HandlerEvent::GenesisDiff { state_root, allocated_accounts, decoding } =>
                HandlerEventView::GenesisDiff { state_root, allocated_accounts, decoding },
            HandlerEvent::Finished(result) => HandlerEventView::Finished(
                match result {
                    Ok(text) => Ok(text@),
                    Err(error) => Err(error@),
                },
            ),
            HandlerEvent::DeadlineReached => HandlerEventView::DeadlineReached,
            HandlerEvent::DeadlinePassed(passed) => HandlerEventView::DeadlinePassed(passed),
        }
    }
}

/// How far a request has come.
pub struct HandlerView {
    pub chain: TaikoChainSpec,
    pub stage: HandlerStage,
    /// Height of the requested block.
    pub number: u64,
    /// Hash of the requested block.
    pub hash: B256,
    /// State root of a Genesis block that was checked.
    pub genesis_state_root: Option<B256>,
    /// The serialized output, or the error, that is to be returned if nothing else comes up.
    pub answer: Option<Result<Seq<char>, RpcErrorView>>,
}

/// The order of the stages of a request.
pub open spec fn order(stage: HandlerStage) -> nat {
    match stage {
        HandlerStage::Permit => 0,
        HandlerStage::Load => 1,
        HandlerStage::InitialCheck => 2,
        HandlerStage::ReportChecked => 3,
        HandlerStage::CheckBlock => 4,
        HandlerStage::GenesisBlock => 5,
        HandlerStage::GenesisDiff => 6,
        HandlerStage::Serialization => 7,
        HandlerStage::Replay => 7,
        HandlerStage::Deadline => 8,
        HandlerStage::FinalCheck => 9,
        HandlerStage::Recheck => 10,
        HandlerStage::Done => 11,
    }
}

/// What is wrong with a block that is to be replayed.
pub open spec fn block_fault(
    chain: TaikoChainSpec,
    block: BlockView,
    receipts: Seq<ReceiptView>,
) -> Option<RpcErrorView> {
    if !consensus_holds(
        block,
        receipts,
        commitments_of(block, receipts),
        reached(chain.unzen_time, block.header.timestamp),
    ) {
        Some(stored_mismatch())
    } else if exists|i: int|
        0 <= i < block.transactions.len() && (#[trigger] block.transactions[i]).tx_type
            == TxType::Eip4844 {
        Some(unsupported_transaction())
    } else {
        None
    }
}

impl HandlerView {
    /// A request that has just come in.
    pub open spec fn started(chain: TaikoChainSpec, is_pending: bool) -> HandlerView {
        let request = HandlerView {
            chain,
            stage: HandlerStage::Permit,
            number: 0,
            hash: FixedBytes(ZERO_WORD),
            genesis_state_root: None,
            answer: None,
        };
        if is_pending {
            request.refused(unavailable("pending is not a stable replay target"@))
        } else {
            request
        }
    }

    /// The request, answered with an error at once.
    pub open spec fn refused(self, error: RpcErrorView) -> HandlerView {
        HandlerView { stage: HandlerStage::Done, answer: Some(Err(error)), ..self }
    }

    /// The request, to be answered with an error once the block's identity is rechecked.
    pub open spec fn failed(self, error: RpcErrorView) -> HandlerView {
        HandlerView { stage: HandlerStage::Recheck, answer: Some(Err(error)), ..self }
    }

    /// The request in another stage.
    pub open spec fn at(self, stage: HandlerStage) -> HandlerView {
        HandlerView { stage, ..self }
    }

    /// Whether an event answers what the request waits for.
    pub open spec fn answered_by(self, event: HandlerEventView) -> bool {
        match event {
            HandlerEventView::Permit(_) => self.stage is Permit,
            HandlerEventView::Load(_) => self.stage is Load,
            HandlerEventView::Lookup(_) => self.stage is InitialCheck || self.stage is FinalCheck
                || self.stage is Recheck,
            HandlerEventView::Reported => self.stage is ReportChecked,
            HandlerEventView::Block { block, hash, .. } => self.stage is CheckBlock && hash
                == self.hash && block.header.number == self.number,
            HandlerEventView::Genesis { block, hash, .. } => self.stage is GenesisBlock && hash
                == self.hash && block.header.number == self.number,
            HandlerEventView::GenesisDiff { state_root, .. } => self.stage is GenesisDiff
                && self.genesis_state_root == Some(state_root),
            HandlerEventView::Finished(_) => self.stage is Serialization || self.stage is Replay,
            HandlerEventView::DeadlineReached => self.stage is Serialization
                || self.stage is Replay,
            HandlerEventView::DeadlinePassed(_) => self.stage is Deadline,
        }
    }

    /// The request after an event.
    pub open spec fn after(self, event: HandlerEventView) -> HandlerView {
        match event {
            HandlerEventView::Permit(outcome) => match permit_fault(outcome) {
                Some(fault) => self.refused(fault),
                None => self.at(HandlerStage::Load),
            },
            HandlerEventView::Load(outcome) => match load_fault(outcome) {
                Some(fault) => self.refused(fault),
                None => HandlerView {
                    stage: HandlerStage::InitialCheck,
                    number: outcome->number,
                    hash: outcome->hash,
                    ..self
                },
            },
            HandlerEventView::Lookup(lookup) => {
                let fault = canonical_fault(self.number, self.hash, lookup);
                if self.stage is InitialCheck {
                    match fault {
                        Some(fault) => self.refused(fault),
                        None => self.at(HandlerStage::ReportChecked),
                    }
                } else if self.stage is FinalCheck {
                    match fault {
                        Some(fault) => self.failed(fault),
                        None => self.at(HandlerStage::Done),
                    }
                } else {
                    self.refused(
                        preferred_error(self.number, self.hash, self.answer->0->Err_0, lookup),
                    )
                }
            },
            HandlerEventView::Reported => self.at(HandlerStage::CheckBlock),
            HandlerEventView::Block { block, receipts, .. } => match block_fault(
                self.chain,
                block,
                receipts,
            ) {
                Some(fault) => self.failed(fault),
                None => if self.number == 0 {
                    self.at(HandlerStage::GenesisBlock)
                } else {
                    self.at(HandlerStage::Replay)
                },
            },
            HandlerEventView::Genesis { block, receipts, configured_state_root, .. } =>
                match genesis_block_fault(block, receipts, configured_state_root) {
                Some(fault) => self.failed(crate::error::mismatch(fault)),
                None => HandlerView {
                    stage: HandlerStage::GenesisDiff,
                    genesis_state_root: Some(block.header.state_root),
                    ..self
                },
            },
            HandlerEventView::GenesisDiff { state_root, allocated_accounts, decoding } =>
                match genesis_diff_fault(state_root, allocated_accounts, decoding) {
                Some(fault) => self.failed(crate::error::mismatch(fault)),
                None => self.at(HandlerStage::Serialization),
            },
            HandlerEventView::Finished(result) => match result {
                Ok(text) => HandlerView {
                    stage: HandlerStage::Deadline,
                    answer: Some(Ok(text)),
                    ..self
                },
                Err(error) => self.failed(error),
            },
            HandlerEventView::DeadlineReached => self.failed(
                cancelled(
                    if self.stage is Serialization {
                        "serialization deadline"@
                    } else {
                        "replay deadline"@
                    },
                ),
            ),
            HandlerEventView::DeadlinePassed(passed) => if passed {
                self.failed(cancelled("final canonical-check deadline"@))
            } else {
                self.at(HandlerStage::FinalCheck)
            },
        }
    }

    /// What holds of a request at every moment.
    pub open spec fn consistent(self) -> bool {
        &&& order(self.stage) <= 7 ==> self.answer is None
        &&& self.stage is Deadline || self.stage is FinalCheck ==> (self.answer matches Some(Ok(_)))
        &&& self.stage is Recheck ==> (self.answer matches Some(Err(_)))
        &&& self.stage is Done ==> self.answer is Some
        &&& self.stage is GenesisDiff ==> self.genesis_state_root is Some
        &&& self.stage is GenesisBlock || self.stage is GenesisDiff || self.stage is Serialization
            ==> self.number == 0
        &&& self.stage is Replay ==> self.number != 0
    }
}

/// Whatever an event says, the request stays consistent.
pub proof fn events_keep_requests_consistent(request: HandlerView, event: HandlerEventView)
    requires
        request.consistent(),
        request.answered_by(event),
    ensures
        request.after(event).consistent(),
        request.after(event).chain == request.chain,
{
}

/// What a request wants to have done next.
#[derive(Clone, Copy, Debug, PartialEq, Eq)]
pub enum HandlerRequest {
    /// Wait for a replay permit until the deadline.
    AcquirePermit,
    /// Load the block and its receipts, until the deadline.
    LoadBlock,
    /// Look up the canonical hash at this height.
    LookupHash(u64),
    /// Report that the block was canonical.
    ReportChecked,
    /// Hand over the block and its receipts.
    ShowBlock,
    /// Hand over the block, its receipts and the configured Genesis state root.
    ShowGenesis,
    /// Build, encode and decode the Genesis state diff.
    BuildGenesisDiff,
    /// Serialize the Genesis output, until the deadline.
    SerializeGenesis,
    /// Replay the block, until the deadline.
    Replay,
    /// Say whether the deadline has passed.
    CheckDeadline,
    /// Return the answer.
    Answer,
}

impl HandlerView {
    /// What the request wants to have done next.
    pub open spec fn request(self) -> HandlerRequest {
        match self.stage {
            HandlerStage::Permit => HandlerRequest::AcquirePermit,
            HandlerStage::Load => HandlerRequest::LoadBlock,
            HandlerStage::InitialCheck
            | HandlerStage::FinalCheck
            | HandlerStage::Recheck => HandlerRequest::LookupHash(self.number),
            HandlerStage::ReportChecked => HandlerRequest::ReportChecked,
            HandlerStage::CheckBlock => HandlerRequest::ShowBlock,
            HandlerStage::GenesisBlock => HandlerRequest::ShowGenesis,
            HandlerStage::GenesisDiff => HandlerRequest::BuildGenesisDiff,
            HandlerStage::Serialization => HandlerRequest::SerializeGenesis,
            HandlerStage::Replay => HandlerRequest::Replay,
            HandlerStage::Deadline => HandlerRequest::CheckDeadline,
            HandlerStage::Done => HandlerRequest::Answer,
        }
    }
}

/// A `trace_debankBlock` request.
#[derive(Debug)]
pub struct Handler {
    chain: TaikoChainSpec,
    stage: HandlerStage,
    number: u64,
    hash: B256,
    genesis_state_root: Option<B256>,
    answer: Option<Result<String, RpcError>>,
}

impl View for Handler {
    type V = HandlerView;

    closed spec fn view(&self) -> HandlerView {
        HandlerView {
            chain: self.chain,
            stage: self.stage,
            number: self.number,
            hash: self.hash,
            genesis_state_root: self.genesis_state_root,
            answer: result_view(self.answer),
        }
    }
}

impl Handler {
    /// Begins a request for a block. The pending block is no stable replay target.
    pub fn start(chain: TaikoChainSpec, is_pending: bool) -> (r: Self)
        ensures
            r@ == HandlerView::started(chain, is_pending),
            r@.consistent(),
    {
        let mut request = Handler {
            chain,
            stage: HandlerStage::Permit,
            number: 0,
            hash: FixedBytes(ZERO_WORD),
            genesis_state_root: None,
            answer: None,
        };
        if is_pending {
            request.refuse(
                unavailable_error(String::from_str("pending is not a stable replay target")),
            );
        }
        request
    }

    /// Answers with an error at once.
    fn refuse(&mut self, error: RpcError)
        ensures
            final(self)@ == old(self)@.refused(error@),
    {
        self.stage = HandlerStage::Done;
        self.answer = Some(Err(error));
    }

    /// Answers with an error once the block's identity is rechecked.
    fn fail(&mut self, error: RpcError)
        ensures
            final(self)@ == old(self)@.failed(error@),
    {
        self.stage = HandlerStage::Recheck;
        self.answer = Some(Err(error));
    }

    /// Checks the block that is to be replayed.
    fn check_block(&self, block: &RecoveredBlock, receipts: &Vec<Receipt>) -> (r: Result<
        (),
        RpcError,
    >)
        ensures
            match block_fault(self@.chain, block.block@, receipt_views(receipts@)) {
                None => r is Ok,
                Some(fault) => r matches Err(error) && error@ == fault,
            },
    {
        let is_unzen_active = self.chain.is_unzen_active(block.block.header.timestamp);
        match validate_stored_consensus(&block.block, receipts, is_unzen_active) {
            Ok(()) => {},
            Err(error) => return Err(error),
        }
        let r = check_transaction_types(&block.block.transactions);
        proof {
            let transactions = block.block.transactions@;
            let views = block.block@.transactions;
            if r is Ok {
                assert forall|i: int| 0 <= i < views.len() implies (#[trigger] views[i]).tx_type
                    != TxType::Eip4844 by {
                    assert(transactions[i].tx_type != TxType::Eip4844);
                }
            } else {
                let i = choose|i: int|
                    0 <= i < transactions.len() && (#[trigger] transactions[i]).tx_type
                        == TxType::Eip4844;
                assert(views[i].tx_type == TxType::Eip4844);
            }
        }
        r
    }

    /// Takes note of what came of the last step and decides how to go on.
    pub fn advance(&mut self, event: HandlerEvent<'_>)
        requires
            old(self)@.consistent(),
            old(self)@.answered_by(event@),
        ensures
            final(self)@ == old(self)@.after(event@),
            final(self)@.consistent(),
    {
        proof {
            events_keep_requests_consistent(self@, event@);
        }
        match event {
            HandlerEvent::Permit(outcome) => match acquire_replay_permit(outcome) {
                Ok(()) => self.stage = HandlerStage::Load,
                Err(error) => self.refuse(error),
            },
            HandlerEvent::Load(outcome) => match outcome {
                LoadOutcome::Loaded { number, hash } => {
                    self.stage = HandlerStage::InitialCheck;
                    self.number = number;
                    self.hash = hash;
                },
                LoadOutcome::Missing(block_id) => self.refuse(unavailable_error(block_id)),
                LoadOutcome::Failed(error) => self.refuse(unavailable_error(error)),
                LoadOutcome::TimedOut => self.refuse(
                    cancelled_error(String::from_str("provider deadline")),
                ),
            },
            HandlerEvent::Lookup(lookup) => self.looked_up(lookup),
            HandlerEvent::Reported => self.stage = HandlerStage::CheckBlock,
            HandlerEvent::Block { block, receipts } => match self.check_block(block, receipts) {
                Ok(()) => {
                    self.stage =
                    if self.number == 0 {
                        HandlerStage::GenesisBlock
                    } else {
                        HandlerStage::Replay
                    };
                },
                Err(error) => self.fail(error),
            },
            HandlerEvent::Genesis { block, receipts, configured_state_root } => {
                match check_genesis_block(&block.block, receipts, configured_state_root) {
                    Ok(()) => {
                        self.stage = HandlerStage::GenesisDiff;
                        self.genesis_state_root = Some(block.block.header.state_root);
                    },
                    Err(error) => self.fail(error),
                }
            },
            HandlerEvent::GenesisDiff { state_root, allocated_accounts, decoding } => {
                match check_genesis_diff(state_root, allocated_accounts, &decoding) {
                    Ok(()) => self.stage = HandlerStage::Serialization,
                    Err(error) => self.fail(error),
                }
            },
            HandlerEvent::Finished(result) => match result {
                Ok(text) => {
                    self.stage = HandlerStage::Deadline;
                    self.answer = Some(Ok(text));
                },
                Err(error) => self.fail(error),
            },
            HandlerEvent::DeadlineReached => {
                let detail = if let HandlerStage::Serialization = self.stage {
                    "serialization deadline"
                } else {
                    "replay deadline"
                };
                self.fail(cancelled_error(String::from_str(detail)));
            },
            HandlerEvent::DeadlinePassed(passed) => {
                if passed {
                    self.fail(
                        cancelled_error(String::from_str("final canonical-check deadline")),
                    );
                } else {
                    self.stage = HandlerStage::FinalCheck;
                }
            },
        }
    }

    /// Decides how to go on once the canonical hash at the block's height is known.
    fn looked_up(&mut self, lookup: HashLookup)
        requires
            old(self)@.consistent(),
            old(self)@.answered_by(HandlerEventView::Lookup(lookup)),
        ensures
            final(self)@ == old(self)@.after(HandlerEventView::Lookup(lookup)),
    {
        match self.stage {
            HandlerStage::InitialCheck => match assert_canonical(self.number, self.hash, &lookup) {
                Ok(()) => self.stage = HandlerStage::ReportChecked,
                Err(error) => self.refuse(error),
            },
            HandlerStage::FinalCheck => match assert_canonical(self.number, self.hash, &lookup) {
                Ok(()) => self.stage = HandlerStage::Done,
                Err(error) => self.fail(error),
            },
            _ => {
                if let Some(Err(original)) = self.answer.take() {
                    let error = prefer_reorg_error(self.number, self.hash, original, &lookup);
                    self.refuse(error);
                }
            },
        }
    }

    /// What the request wants to have done next.
    pub fn request(&self) -> (r: HandlerRequest)
        ensures
            r == self@.request(),
    {
        match self.stage {
            HandlerStage::Permit => HandlerRequest::AcquirePermit,
            HandlerStage::Load => HandlerRequest::LoadBlock,
            HandlerStage::InitialCheck
            | HandlerStage::FinalCheck
            | HandlerStage::Recheck => HandlerRequest::LookupHash(self.number),
            HandlerStage::ReportChecked => HandlerRequest::ReportChecked,
            HandlerStage::CheckBlock => HandlerRequest::ShowBlock,
            HandlerStage::GenesisBlock => HandlerRequest::ShowGenesis,
            HandlerStage::GenesisDiff => HandlerRequest::BuildGenesisDiff,
            HandlerStage::Serialization => HandlerRequest::SerializeGenesis,
            HandlerStage::Replay => HandlerRequest::Replay,
            HandlerStage::Deadline => HandlerRequest::CheckDeadline,
            HandlerStage::Done => HandlerRequest::Answer,
        }
    }

    /// The serialized output, or the error.
    pub fn into_answer(self) -> (r: Result<String, RpcError>)
        requires
            self@.consistent(),
            self@.stage is Done,
        ensures
            result_view(Some(r)) == self@.answer,
    {
        self.answer.unwrap()
    }
}

impl HandlerView {
    /// What the request itself holds: the permit once it is granted, and what a finished worker
    /// hands back until the answer is settled. While a worker runs, the worker holds it all.
    pub open spec fn held(self) -> ReplayTestResourceSnapshot {
        match self.stage {
            HandlerStage::Load
            | HandlerStage::InitialCheck
            | HandlerStage::ReportChecked
            | HandlerStage::CheckBlock
            | HandlerStage::GenesisBlock
            | HandlerStage::GenesisDiff => ReplayTestResourceSnapshot {
                permits: 1,
                ..ReplayTestResourceSnapshot::drained()
            },
            HandlerStage::Deadline | HandlerStage::FinalCheck => ReplayTestResourceSnapshot {
                permits: 1,
                serialized_buffers: 1,
                ..ReplayTestResourceSnapshot::drained()
            },
            HandlerStage::Permit
            | HandlerStage::Serialization
            | HandlerStage::Replay
            | HandlerStage::Recheck
            | HandlerStage::Done => ReplayTestResourceSnapshot::drained(),
        }
    }
}

impl Handler {
    /// What the request itself holds.
    pub fn held(&self) -> (r: ReplayTestResourceSnapshot)
        ensures
            r == self@.held(),
    {
        let mut held = ReplayTestResourceSnapshot::default();
        match self.stage {
            HandlerStage::Load
            | HandlerStage::InitialCheck
            | HandlerStage::ReportChecked
            | HandlerStage::CheckBlock
            | HandlerStage::GenesisBlock
            | HandlerStage::GenesisDiff => {
                held.permits = 1;
            },
            HandlerStage::Deadline | HandlerStage::FinalCheck => {
                held.permits = 1;
                held.serialized_buffers = 1;
            },
            HandlerStage::Permit
            | HandlerStage::Serialization
            | HandlerStage::Replay
            | HandlerStage::Recheck
            | HandlerStage::Done => {},
        }
        held
    }
}

impl HandlerView {
    /// Whether the request is, or is to be, answered with an error.
    pub open spec fn has_error(self) -> bool {
        self.answer matches Some(Err(_))
    }

    /// The request after a sequence of events.
    pub open spec fn after_all(self, events: Seq<HandlerEventView>) -> HandlerView
        decreases events.len(),
    {
        if events.len() == 0 {
            self
        } else {
            self.after_all(events.drop_last()).after(events.last())
        }
    }

    /// Whether every event of a sequence answers what the request waits for when it comes.
    pub open spec fn accepts_all(self, events: Seq<HandlerEventView>) -> bool
        decreases events.len(),
    {
        events.len() > 0 ==> {
            &&& self.accepts_all(events.drop_last())
            &&& self.after_all(events.drop_last()).answered_by(events.last())
        }
    }
}

/// Every event takes a request closer to its answer, so that it is answered after at most eleven.
pub proof fn requests_are_answered(request: HandlerView, events: Seq<HandlerEventView>)
    requires
        request.consistent(),
        request.accepts_all(events),
    ensures
        request.after_all(events).consistent(),
        request.after_all(events).chain == request.chain,
        order(request.stage) + events.len() <= order(request.after_all(events).stage),
        events.len() <= 11,
    decreases events.len(),
{
    if events.len() > 0 {
        requests_are_answered(request, events.drop_last());
        events_keep_requests_consistent(
            request.after_all(events.drop_last()),
            events.last(),
        );
    }
}

/// An output is returned only right after the block was found canonical once more.
pub proof fn output_needs_a_final_canonical_check(request: HandlerView, event: HandlerEventView)
    requires
        request.consistent(),
        request.answered_by(event),
        request.after(event).stage is Done,
        !request.after(event).has_error(),
    ensures
        request.stage is FinalCheck,
        event matches HandlerEventView::Lookup(HashLookup::Found(canonical)) && canonical == Some(
            request.hash,
        ),
        request.after(event).answer == request.answer,
{
}

/// Once the block was found canonical, no error is returned before its identity is rechecked.
pub proof fn errors_are_rechecked(request: HandlerView, event: HandlerEventView)
    requires
        request.consistent(),
        request.answered_by(event),
        3 <= order(request.stage) <= 9,
        request.after(event).has_error(),
    ensures
        request.after(event).stage is Recheck,
        request.after(event).request() == HandlerRequest::LookupHash(request.number),
{
}

/// A request whose block turns out not to be canonical any more is answered with the reorg alone,
/// whatever it was to be answered with.
pub proof fn reorg_is_answered_with_the_reorg(request: HandlerView, canonical: Option<B256>)
    requires
        request.consistent(),
        request.stage is Recheck,
        canonical != Some(request.hash),
    ensures
        ({
            let lookup = HashLookup::Found(canonical);
            let after = request.after(HandlerEventView::Lookup(lookup));
            &&& after.stage is Done
            &&& after.answer == Some(
                Err::<Seq<char>, _>(canonical_fault(request.number, request.hash, lookup)->0),
            )
            &&& after.answer->0->Err_0.code == crate::error::BLOCK_REORGED
        }),
{
}

/// Whether an event shows the requested block with data that agree with its header.
pub open spec fn shows_sound_block(request: HandlerView, event: HandlerEventView) -> bool {
    event matches HandlerEventView::Block { block, hash, receipts } && {
        &&& hash == request.hash
        &&& block.header.number == request.number
        &&& block_fault(request.chain, block, receipts) is None
    }
}

/// Whether one of the events shows the requested block with data that agree with its header.
pub open spec fn has_sound_block(request: HandlerView, events: Seq<HandlerEventView>) -> bool {
    exists|i: int| 0 <= i < events.len() && shows_sound_block(request, #[trigger] events[i])
}

/// What holds of every run of a request that was started.
proof fn started_requests(
    chain: TaikoChainSpec,
    is_pending: bool,
    events: Seq<HandlerEventView>,
)
    requires
        HandlerView::started(chain, is_pending).accepts_all(events),
    ensures
        ({
            let request = HandlerView::started(chain, is_pending).after_all(events);
            &&& request.consistent()
            &&& order(request.stage) > 4 && !request.has_error() ==> has_sound_block(
                request,
                events,
            )
        }),
    decreases events.len(),
{
    let start = HandlerView::started(chain, is_pending);
    if events.len() > 0 {
        let earlier = events.drop_last();
        let before = start.after_all(earlier);
        let after = start.after_all(events);
        started_requests(chain, is_pending, earlier);
        events_keep_requests_consistent(before, events.last());
        if has_sound_block(before, earlier) {
            let i = choose|i: int|
                0 <= i < earlier.len() && shows_sound_block(before, #[trigger] earlier[i]);
            assert(shows_sound_block(before, events[i]));
            if order(before.stage) > 4 {
                assert(shows_sound_block(after, events[i]));
            }
        }
        if shows_sound_block(after, events.last()) {
            assert(shows_sound_block(after, events[events.len() - 1]));
        }
    }
}

/// A request is answered with an output only if the block that was shown, under the hash that was
/// resolved, agrees with its header, and the hash was canonical at the end.
pub proof fn output_is_of_a_sound_canonical_block(
    chain: TaikoChainSpec,
    is_pending: bool,
    events: Seq<HandlerEventView>,
)
    requires
        HandlerView::started(chain, is_pending).accepts_all(events),
        HandlerView::started(chain, is_pending).after_all(events).stage is Done,
        !HandlerView::started(chain, is_pending).after_all(events).has_error(),
    ensures
        ({
            let request = HandlerView::started(chain, is_pending).after_all(events);
            &&& has_sound_block(request, events)
            &&& events.len() > 0
            &&& events.last() == HandlerEventView::Lookup(HashLookup::Found(Some(request.hash)))
        }),
{
    started_requests(chain, is_pending, events);
    if events.len() > 0 {
        let before = HandlerView::started(chain, is_pending).after_all(events.drop_last());
        started_requests(chain, is_pending, events.drop_last());
        output_needs_a_final_canonical_check(before, events.last());
    }
}

/// What the events of a request without an error were, up to the stage that it is in.
#[verifier::opaque]
spec fn well_told(request: HandlerView, events: Seq<HandlerEventView>) -> bool {
    let order = order(request.stage);
    let genesis = request.number == 0;
    // One event for each stage; blocks that are not the Genesis block leave out two.
    &&& order <= 4 ==> events.len() == order
    &&& 5 <= order <= 6 ==> events.len() == order && genesis
    &&& 7 <= order <= 9 ==> events.len() == if genesis {
        order as int
    } else {
        order - 2
    }
    &&& order == 11 ==> events.len() == if genesis {
        10int
    } else {
        8
    }
    &&& order >= 1 ==> events[0] == HandlerEventView::Permit(PermitOutcome::Granted)
    &&& order >= 2 ==> events[1] == HandlerEventView::Load(
        LoadOutcome::Loaded { number: request.number, hash: request.hash },
    )
    &&& order >= 3 ==> events[2] == HandlerEventView::Lookup(HashLookup::Found(Some(request.hash)))
    &&& order >= 4 ==> events[3] == HandlerEventView::Reported
    &&& order >= 5 ==> shows_sound_block(request, events[4])
    &&& order >= 6 && genesis ==> shows_sound_genesis(request, events[5])
    &&& order >= 7 && genesis ==> shows_complete_diff(request, events[6])
    &&& order == 8 || order == 9 || order == 11 ==> {
        let finished = if genesis {
            7int
        } else {
            5
        };
        &&& request.answer matches Some(Ok(text))
        &&& events[finished] == HandlerEventView::Finished(Ok(text))
        &&& order >= 9 ==> events[finished + 1] == HandlerEventView::DeadlinePassed(false)
        &&& order >= 11 ==> events[finished + 2] == HandlerEventView::Lookup(
            HashLookup::Found(Some(request.hash)),
        )
    }
}

/// Whether an event shows the requested Genesis block, empty and with the configured state root,
/// which is the one that was noted.
pub open spec fn shows_sound_genesis(request: HandlerView, event: HandlerEventView) -> bool {
    event matches HandlerEventView::Genesis { block, hash, receipts, configured_state_root } && {
        &&& hash == request.hash
        &&& block.header.number == request.number
        &&& genesis_block_fault(block, receipts, configured_state_root) is None
        &&& request.genesis_state_root == Some(block.header.state_root)
    }
}

/// Whether an event shows that the diff of the Genesis state decodes to the whole of it.
pub open spec fn shows_complete_diff(request: HandlerView, event: HandlerEventView) -> bool {
    event matches HandlerEventView::GenesisDiff { state_root, allocated_accounts, decoding } && {
        &&& request.genesis_state_root == Some(state_root)
        &&& genesis_diff_fault(state_root, allocated_accounts, decoding) is None
    }
}

/// One event tells the next step of a request.
proof fn events_tell_the_next_step(
    before: HandlerView,
    events: Seq<HandlerEventView>,
    event: HandlerEventView,
)
    requires
        before.consistent(),
        well_told(before, events),
        before.answered_by(event),
        !before.after(event).has_error(),
    ensures
        well_told(before.after(event), events.push(event)),
{
    reveal(well_told);
    let after = before.after(event);
    let all = events.push(event);
    assert(forall|i: int| 0 <= i < events.len() ==> all[i] == events[i]);
    assert(all[events.len() as int] == event);
    if order(before.stage) >= 5 {
        assert(shows_sound_block(after, events[4]));
    }
}

/// A request without an error was told everything that its stage needs, in order.
proof fn requests_are_well_told(
    chain: TaikoChainSpec,
    is_pending: bool,
    events: Seq<HandlerEventView>,
)
    requires
        HandlerView::started(chain, is_pending).accepts_all(events),
    ensures
        ({
            let request = HandlerView::started(chain, is_pending).after_all(events);
            &&& request.consistent()
            &&& !request.has_error() ==> !is_pending && well_told(request, events)
        }),
    decreases events.len(),
{
    let start = HandlerView::started(chain, is_pending);
    if events.len() == 0 {
        reveal(well_told);
    } else {
        let earlier = events.drop_last();
        let before = start.after_all(earlier);
        requests_are_well_told(chain, is_pending, earlier);
        events_keep_requests_consistent(before, events.last());
        assert(earlier.push(events.last()) =~= events);
        if !start.after_all(events).has_error() {
            assert(!before.has_error());
            events_tell_the_next_step(before, earlier, events.last());
        }
    }
}

/// A request is answered with an output after exactly these events, in this order: a permit, the
/// loaded block, its hash found canonical, the report of that, the block with data that agree with
/// its header, for the Genesis block also its empty body and its complete diff, the output, a deadline
/// that has not passed, and the hash found canonical once more. The output is the worker's.
pub proof fn answered_requests_took_every_step(
    chain: TaikoChainSpec,
    is_pending: bool,
    events: Seq<HandlerEventView>,
)
    requires
        HandlerView::started(chain, is_pending).accepts_all(events),
        HandlerView::started(chain, is_pending).after_all(events).stage is Done,
        !HandlerView::started(chain, is_pending).after_all(events).has_error(),
    ensures
        ({
            let request = HandlerView::started(chain, is_pending).after_all(events);
            let found = HandlerEventView::Lookup(HashLookup::Found(Some(request.hash)));
            let last = events.len() - 1;
            &&& !is_pending
            &&& events.len() == if request.number == 0 {
                10int
            } else {
                8
            }
            &&& events[0] == HandlerEventView::Permit(PermitOutcome::Granted)
            &&& events[1] == HandlerEventView::Load(
                LoadOutcome::Loaded { number: request.number, hash: request.hash },
            )
            &&& events[2] == found
            &&& events[3] == HandlerEventView::Reported
            &&& shows_sound_block(request, events[4])
            &&& request.number == 0 ==> shows_sound_genesis(request, events[5])
                && shows_complete_diff(request, events[6])
            &&& request.answer matches Some(Ok(text))
            &&& events[last - 2] == HandlerEventView::Finished(Ok(text))
            &&& events[last - 1] == HandlerEventView::DeadlinePassed(false)
            &&& events[last] == found
        }),
{
    requests_are_well_told(chain, is_pending, events);
    reveal(well_told);
}

/// Each request belongs to one stage; the hash is looked up at the height of the loaded block at the
/// beginning and at the end, the Genesis block is never replayed, and every other block is.
pub proof fn requests_belong_to_their_stage(request: HandlerView)
    requires
        request.consistent(),
    ensures
        match request.request() {
            HandlerRequest::AcquirePermit => request.stage is Permit,
            HandlerRequest::LoadBlock => request.stage is Load,
            HandlerRequest::LookupHash(number) => number == request.number && (
            request.stage is InitialCheck || request.stage is FinalCheck || request.stage is Recheck),
            HandlerRequest::ReportChecked => request.stage is ReportChecked,
            HandlerRequest::ShowBlock => request.stage is CheckBlock,
            HandlerRequest::ShowGenesis => request.stage is GenesisBlock && request.number == 0,
            HandlerRequest::BuildGenesisDiff => request.stage is GenesisDiff && request.number == 0,
            HandlerRequest::SerializeGenesis => request.stage is Serialization && request.number
                == 0,
            HandlerRequest::Replay => request.stage is Replay && request.number > 0,
            HandlerRequest::CheckDeadline => request.stage is Deadline,
            HandlerRequest::Answer => request.stage is Done && request.answer is Some,
        },
{
}

/// What goes wrong is answered as what it is: a deadline as a cancellation that names the step, a
/// closed queue, a missing block and a provider's error as unavailable with their texts, stored data
/// that disagree and blob transactions as a mismatch, a worker's error as the worker gave it.
pub proof fn failures_are_answered_as_what_they_are(request: HandlerView, event: HandlerEventView)
    requires
        request.consistent(),
        request.answered_by(event),
    ensures
        ({
            let after = request.after(event);
            let given = |code: int, data: Seq<char>|
                after.answer matches Some(Err(error)) && error.code == code && error.data == data;
            match event {
                HandlerEventView::Permit(PermitOutcome::TimedOut) => after.stage is Done && given(
                    -32_013,
                    "tracing permit deadline"@,
                ),
                HandlerEventView::Permit(PermitOutcome::Closed(text)) => after.stage is Done
                    && given(-32_011, text@),
                HandlerEventView::Load(LoadOutcome::Missing(text)) => after.stage is Done && given(
                    -32_011,
                    text@,
                ),
                HandlerEventView::Load(LoadOutcome::Failed(text)) => after.stage is Done && given(
                    -32_011,
                    text@,
                ),
                HandlerEventView::Load(LoadOutcome::TimedOut) => after.stage is Done && given(
                    -32_013,
                    "provider deadline"@,
                ),
                HandlerEventView::Finished(Err(error)) => after.stage is Recheck && after.answer
                    == Some(Err::<Seq<char>, _>(error)),
                HandlerEventView::Finished(Ok(text)) => after.request() is CheckDeadline
                    && after.answer == Some(Ok::<_, RpcErrorView>(text)),
                HandlerEventView::DeadlineReached => after.stage is Recheck && given(
                    -32_013,
                    if request.number == 0 {
                        "serialization deadline"@
                    } else {
                        "replay deadline"@
                    },
                ),
                HandlerEventView::DeadlinePassed(true) => after.stage is Recheck && given(
                    -32_013,
                    "final canonical-check deadline"@,
                ),
                HandlerEventView::Block { block, receipts, .. } => match block_fault(
                    request.chain,
                    block,
                    receipts,
                ) {
                    Some(fault) => fault.code == -32_012 && after.stage is Recheck && given(
                        -32_012,
                        fault.data,
                    ),
                    None => after.answer is None && (after.request() is ShowGenesis <==> request.number
                        == 0) && (after.request() is Replay <==> request.number > 0),
                },
                HandlerEventView::Genesis { block, receipts, configured_state_root, .. } =>
                    match genesis_block_fault(block, receipts, configured_state_root) {
                    Some(fault) => after.stage is Recheck && given(-32_012, fault),
                    None => after.request() is BuildGenesisDiff,
                },
                HandlerEventView::GenesisDiff { state_root, allocated_accounts, decoding } =>
                    match genesis_diff_fault(state_root, allocated_accounts, decoding) {
                    Some(fault) => after.stage is Recheck && given(-32_012, fault),
                    None => after.request() is SerializeGenesis,
                },
                _ => true,
            }
        }),
{
}

/// A block is to be replayed exactly if its stored data agree with its header under the rules of its
/// time and it has no blob transaction.
pub proof fn blocks_are_judged_exactly(
    chain: TaikoChainSpec,
    block: BlockView,
    receipts: Seq<ReceiptView>,
)
    ensures
        block_fault(chain, block, receipts) is None <==> {
            &&& consensus_holds(
                block,
                receipts,
                commitments_of(block, receipts),
                chain.unzen_time matches Some(time) && time <= block.header.timestamp,
            )
            &&& forall|i: int|
                0 <= i < block.transactions.len() ==> (#[trigger] block.transactions[i]).tx_type
                    != TxType::Eip4844
        },
{
}

/// A request for the pending block is answered as unavailable before anything is asked for; every
/// other request begins by asking for a permit.
pub proof fn pending_blocks_are_refused(chain: TaikoChainSpec)
    ensures
        HandlerView::started(chain, false).request() is AcquirePermit,
        HandlerView::started(chain, false).answer is None,
        HandlerView::started(chain, true).request() is Answer,
        HandlerView::started(chain, true).answer matches Some(Err(error)) && error.code == -32_011,
{
}

} // verus!
