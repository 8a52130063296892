//! The DeBank tracer's settings.
use crate::block::{Receipt, RecoveredBlock};
use crate::chain::{reached, TaikoChainSpec};
use crate::trace::replay_model::ReplayPlan;
use vstd::prelude::*;

verus! {

/// Taiko DeBank tracer backed by the configured Ethereum RPC API.
#[derive(Debug)]
pub struct DebankTraceExt<Eth, Storage> {
    /// Ethereum RPC helper used for exact block, receipt, state, and EVM access.
    pub eth: Eth,
    /// Optional proof-history overlay used for exact deep historical state.
    pub proof_history: Option<Storage>,
    /// Limits concurrent DeBank replays independently from response delivery.
    pub max_concurrent_replays: usize,
    /// Whether replay requests compute and verify parent and post-block state roots.
    pub verify_state_roots: bool,
}

impl<Eth, Storage> DebankTraceExt<Eth, Storage> {
    /// Creates a DeBank tracer with the configured replay concurrency limit. State roots are not
    /// verified unless that is asked for.
    pub fn new(eth: Eth, proof_history: Option<Storage>, max_concurrent_replays: usize) -> (r: Self)
        ensures
            r.eth == eth,
            r.proof_history == proof_history,
            r.max_concurrent_replays == max_concurrent_replays,
            !r.verify_state_roots,
    {
        DebankTraceExt { eth, proof_history, max_concurrent_replays, verify_state_roots: false }
    }

    /// Configures whether replay requests compute and verify state roots.
    pub fn with_state_root_verification(self, verify_state_roots: bool) -> (r: Self)
        ensures
            r.eth == self.eth,
            r.proof_history == self.proof_history,
            r.max_concurrent_replays == self.max_concurrent_replays,
            r.verify_state_roots == verify_state_roots,
    {
        DebankTraceExt {
            eth: self.eth,
            proof_history: self.proof_history,
            max_concurrent_replays: self.max_concurrent_replays,
            verify_state_roots,
        }
    }

    /// The plan for the replay of a block under the tracer's settings.
    pub fn replay_plan(
        &self,
        block: RecoveredBlock,
        stored_receipts: Vec<Receipt>,
        is_unzen_active: bool,
    ) -> (r: ReplayPlan)
        ensures
            r.block == block,
            r.stored_receipts == stored_receipts,
            r.is_unzen_active == is_unzen_active,
            r.proof_history == (self.proof_history is Some),
            r.verify_state_roots == self.verify_state_roots,
    {
        ReplayPlan {
            block,
            stored_receipts,
            is_unzen_active,
            proof_history: self.proof_history.is_some(),
            verify_state_roots: self.verify_state_roots,
        }
    }

    /// The plan for the replay of a block of a chain, whose fork times and the block's timestamp
    /// decide whether Unzen is active.
    pub fn replay_plan_for(
        &self,
        chain: &TaikoChainSpec,
        block: RecoveredBlock,
        stored_receipts: Vec<Receipt>,
    ) -> (r: ReplayPlan)
        ensures
            r.block == block,
            r.stored_receipts == stored_receipts,
            r.is_unzen_active == reached(chain.unzen_time, block.block.header.timestamp),
            r.proof_history == (self.proof_history is Some),
            r.verify_state_roots == self.verify_state_roots,
    {
        let is_unzen_active = chain.is_unzen_active(block.block.header.timestamp);
        self.replay_plan(block, stored_receipts, is_unzen_active)
    }
}

} // verus!
