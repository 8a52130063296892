//! What the tracing inspector records.
use crate::evm::SSTORE;
use revm_inspectors::tracing::{StackSnapshotType, TracingInspectorConfig};
use vstd::prelude::*;

verus! {

/// How much of the stack is recorded.
#[derive(Clone, Copy, Debug, PartialEq, Eq, Structural)]
pub enum StackSnapshots {
    Nothing,
    All,
    Pushes,
    Full,
}

/// What the tracing inspector records.
#[derive(Debug)]
pub struct TracingConfig {
    /// Every opcode-level step that passes the opcode filter.
    pub record_steps: bool,
    pub record_memory_snapshots: bool,
    pub record_stack_snapshots: StackSnapshots,
    pub record_state_diff: bool,
    pub record_returndata_snapshots: bool,
    /// The opcodes whose steps are recorded; without a filter, all of them.
    pub recorded_opcodes: Option<Vec<u8>>,
    pub exclude_precompile_calls: bool,
    pub record_logs: bool,
    pub record_immediate_bytes: bool,
}

/// What a [`TracingConfig`] says.
pub struct TracingConfigView {
    pub record_steps: bool,
    pub record_memory_snapshots: bool,
    pub record_stack_snapshots: StackSnapshots,
    pub record_state_diff: bool,
    pub record_returndata_snapshots: bool,
    pub recorded_opcodes: Option<Seq<u8>>,
    pub exclude_precompile_calls: bool,
    pub record_logs: bool,
    pub record_immediate_bytes: bool,
}

impl View for TracingConfig {
    type V = TracingConfigView;

    open spec fn view(&self) -> TracingConfigView {
        TracingConfigView {
            record_steps: self.record_steps,
            record_memory_snapshots: self.record_memory_snapshots,
            record_stack_snapshots: self.record_stack_snapshots,
            record_state_diff: self.record_state_diff,
            record_returndata_snapshots: self.record_returndata_snapshots,
            recorded_opcodes: match self.recorded_opcodes {
                Some(opcodes) => Some(opcodes@),
                None => None,
            },
            exclude_precompile_calls: self.exclude_precompile_calls,
            record_logs: self.record_logs,
            record_immediate_bytes: self.record_immediate_bytes,
        }
    }
}

/// Reads `TracingInspectorConfig::default_parity` of `revm_inspectors`: nothing is recorded, and
/// precompile calls are excluded. It sets no opcode filter, so none is read.
#[verifier::external_body]
fn default_parity() -> (r: TracingConfig)
    ensures
        r@ == (TracingConfigView {
            record_steps: false,
            record_memory_snapshots: false,
            record_stack_snapshots: StackSnapshots::Nothing,
            record_state_diff: false,
            record_returndata_snapshots: false,
            recorded_opcodes: None,
            exclude_precompile_calls: true,
            record_logs: false,
            record_immediate_bytes: false,
        }),
{
    let config = TracingInspectorConfig::default_parity();
    TracingConfig {
        record_steps: config.record_steps,
        record_memory_snapshots: config.record_memory_snapshots,
        record_stack_snapshots: match config.record_stack_snapshots {
            StackSnapshotType::None => StackSnapshots::Nothing,
            StackSnapshotType::All => StackSnapshots::All,
            StackSnapshotType::Pushes => StackSnapshots::Pushes,
            StackSnapshotType::Full => StackSnapshots::Full,
        }, record_state_diff: config.record_state_diff,
        record_returndata_snapshots: config.record_returndata_snapshots, recorded_opcodes: None,
        exclude_precompile_calls: config.exclude_precompile_calls, record_logs: config.record_logs,
        record_immediate_bytes: config.record_immediate_bytes,
    }
}

impl TracingConfig {
    /// Whether the steps of an opcode are recorded.
    pub fn records_opcode(&self, opcode: u8) -> (r: bool)
        ensures
            r <==> self.record_steps && (self@.recorded_opcodes matches Some(opcodes)
                ==> opcodes.contains(opcode)),
    {
        if !self.record_steps {
            return false;
        }
        match &self.recorded_opcodes {
            None => true,
            Some(opcodes) => {
                let mut i: usize = 0;
                while i < opcodes.len()
                    invariant
                        i <= opcodes.len(),
                        self.record_steps,
                        self@.recorded_opcodes == Some(opcodes@),
                        forall|k: int| 0 <= k < i ==> opcodes@[k] != opcode,
                    decreases opcodes.len() - i,
                {
                    if opcodes[i] == opcode {
                        assert(opcodes@.contains(opcode));
                        return true;
                    }
                    i = i + 1;
                }
                false
            },
        }
    }
}

/// Returns the minimal inspector configuration needed by the historical block-file wire: calls
/// with precompiles, logs, and the steps of `SSTORE` alone.
pub fn debank_tracing_config() -> (r: TracingConfig)
    ensures
        r@ == (TracingConfigView {
            record_steps: true,
            record_memory_snapshots: false,
            record_stack_snapshots: StackSnapshots::Nothing,
            record_state_diff: false,
            record_returndata_snapshots: false,
            recorded_opcodes: Some(seq![SSTORE]),
            exclude_precompile_calls: false,
            record_logs: true,
            record_immediate_bytes: false,
        }),
{
    let mut config = default_parity();
    config.record_steps = true;
    config.record_logs = true;
    config.exclude_precompile_calls = false;
    let mut opcodes: Vec<u8> = Vec::new();
    opcodes.push(SSTORE);
    assert(opcodes@ =~= seq![SSTORE]);
    config.recorded_opcodes = Some(opcodes);
    config
}

} // verus!
