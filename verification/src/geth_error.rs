//! Geth-compatible opcode error capture for DeBank call traces.
use crate::evm::{
    lookup_opcode, optional_info, InstructionResult, InterpreterState, OpcodeInfo, SpecId, BASEFEE,
    BLOBBASEFEE, BLOBHASH, CALL, CALLCODE, CHAINID, CLZ, CREATE2, DELEGATECALL, DUPN, EXCHANGE,
    EXTCODEHASH, INVALID, MCOPY, PUSH0, RETURNDATACOPY, RETURNDATASIZE, REVERT, SAR, SELFBALANCE,
    SHL, SHR, SLOTNUM, STATICCALL, SWAPN, TLOAD, TSTORE,
};
use crate::evm::{opcode_table, OpcodeInfoView};
use crate::fixed::{address_from_word, Address};
use crate::text::{decimal, decimal_text, hexadecimal, hexadecimal_text, optional_text};
use vstd::prelude::*;

verus! {

/// Maximum stack height enforced by Geth and REVM.
pub const GETH_STACK_LIMIT: usize = 1024;

/// The first fork in whose jump table an opcode exists.
pub open spec fn first_fork(opcode: u8) -> SpecId {
    if opcode == DELEGATECALL {
        SpecId::HOMESTEAD
    } else if opcode == RETURNDATASIZE || opcode == RETURNDATACOPY || opcode == STATICCALL || opcode
        == REVERT {
        SpecId::BYZANTIUM
    } else if opcode == SHL || opcode == SHR || opcode == SAR || opcode == EXTCODEHASH {
        SpecId::CONSTANTINOPLE
    } else if opcode == CREATE2 {
        SpecId::PETERSBURG
    } else if opcode == CHAINID || opcode == SELFBALANCE {
        SpecId::ISTANBUL
    } else if opcode == BASEFEE {
        SpecId::LONDON
    } else if opcode == PUSH0 {
        SpecId::SHANGHAI
    } else if opcode == BLOBHASH || opcode == BLOBBASEFEE || opcode == TLOAD || opcode == TSTORE
        || opcode == MCOPY {
        SpecId::CANCUN
    } else if opcode == CLZ {
        SpecId::OSAKA
    } else if opcode == SLOTNUM || opcode == DUPN || opcode == SWAPN || opcode == EXCHANGE {
        SpecId::AMSTERDAM
    } else {
        SpecId::FRONTIER
    }
}

/// Whether an opcode exists in the jump table of `spec`.
pub open spec fn active_in(opcode: u8, spec: SpecId) -> bool {
    spec.place() >= first_fork(opcode).place()
}

/// The error Geth returns before it charges an opcode's static gas, given the opcode's entry in
/// the opcode table.
pub open spec fn precheck_text(
    opcode: u8,
    spec: SpecId,
    stack_len: nat,
    info: Option<OpcodeInfoView>,
) -> Option<Seq<char>> {
    if opcode == INVALID {
        Some("invalid opcode: INVALID"@)
    } else {
        match info {
            None => Some("invalid opcode: opcode 0x"@ + hexadecimal(opcode as nat) + " not defined"@),
            Some(info) => {
                let maximum = (GETH_STACK_LIMIT + info.inputs - info.outputs) as nat;
                if !active_in(opcode, spec) {
                    Some("invalid opcode: "@ + info.name)
                } else if stack_len < info.inputs {
                    Some(
                        "stack underflow ("@ + decimal(stack_len) + " <=> "@ + decimal(
                            info.inputs as nat,
                        ) + ")"@,
                    )
                } else if stack_len > maximum {
                    Some(
                        "stack limit reached "@ + decimal(stack_len) + " ("@ + decimal(maximum)
                            + ")"@,
                    )
                } else {
                    None
                }
            },
        }
    }
}

/// Whether a final result requires opcode-local context for exact Geth text.
pub open spec fn needs_context(result: InstructionResult) -> bool {
    result == InstructionResult::OpcodeNotFound || result == InstructionResult::InvalidFEOpcode
        || result == InstructionResult::NotActivated || result == InstructionResult::StackUnderflow
        || result == InstructionResult::StackOverflow
}

/// Returns whether a final result requires opcode-local context for exact Geth text.
pub fn requires_exact_error(result: InstructionResult) -> (r: bool)
    ensures
        r == needs_context(result),
{
    matches!(
        result,
        InstructionResult::OpcodeNotFound
            | InstructionResult::InvalidFEOpcode
            | InstructionResult::NotActivated
            | InstructionResult::StackUnderflow
            | InstructionResult::StackOverflow
    )
}

/// Returns whether an opcode exists in the active Geth jump table for `spec`.
pub fn opcode_is_active(opcode_byte: u8, spec: SpecId) -> (r: bool)
    ensures
        r == active_in(opcode_byte, spec),
        opcode_byte == SHL || opcode_byte == SHR || opcode_byte == SAR || opcode_byte == EXTCODEHASH
            ==> r == !before_constantinople(spec),
{
    let minimum = match opcode_byte {
        DELEGATECALL => SpecId::HOMESTEAD,
        RETURNDATASIZE | RETURNDATACOPY | STATICCALL | REVERT => SpecId::BYZANTIUM,
        SHL | SHR | SAR | EXTCODEHASH => SpecId::CONSTANTINOPLE,
        CREATE2 => SpecId::PETERSBURG,
        CHAINID | SELFBALANCE => SpecId::ISTANBUL,
        BASEFEE => SpecId::LONDON,
        PUSH0 => SpecId::SHANGHAI,
        BLOBHASH | BLOBBASEFEE | TLOAD | TSTORE | MCOPY => SpecId::CANCUN,
        CLZ => SpecId::OSAKA,
        SLOTNUM | DUPN | SWAPN | EXCHANGE => SpecId::AMSTERDAM,
        _ => SpecId::FRONTIER,
    };
    spec.is_enabled_in(minimum)
}

/// Reproduces the checks Geth performs before charging an opcode's static gas.
pub fn geth_precheck_error(opcode_byte: u8, spec: SpecId, stack_len: usize) -> (r: Option<String>)
    ensures
        optional_text(r) == precheck_text(
            opcode_byte,
            spec,
            stack_len as nat,
            opcode_table(opcode_byte),
        ),
{
    let info = lookup_opcode(opcode_byte);
    precheck_error(opcode_byte, spec, stack_len, info)
}

/// Performs Geth's fork and stack checks on an opcode whose table entry is `info`.
pub fn precheck_error(
    opcode_byte: u8,
    spec: SpecId,
    stack_len: usize,
    info: Option<OpcodeInfo>,
) -> (r: Option<String>)
    ensures
        optional_text(r) == precheck_text(
            opcode_byte,
            spec,
            stack_len as nat,
            optional_info(info),
        ),
{
    if opcode_byte == INVALID {
        return Some(String::from_str("invalid opcode: INVALID"));
    }
    let info = match info {
        Some(info) => info,
        None => {
            return Some(
                String::from_str("invalid opcode: opcode 0x").concat(
                    hexadecimal_text(opcode_byte).as_str(),
                ).concat(" not defined"),
            );
        },
    };
    if !opcode_is_active(opcode_byte, spec) {
        return Some(String::from_str("invalid opcode: ").concat(info.name.as_str()));
    }
    let required: usize = info.inputs as usize;
    if stack_len < required {
        return Some(
            String::from_str("stack underflow (").concat(
                decimal_text(stack_len as u64).as_str(),
            ).concat(" <=> ").concat(decimal_text(required as u64).as_str()).concat(")"),
        );
    }
    let maximum: usize = GETH_STACK_LIMIT + required - info.outputs as usize;
    if stack_len > maximum {
        return Some(
            String::from_str("stack limit reached ").concat(
                decimal_text(stack_len as u64).as_str(),
            ).concat(" (").concat(decimal_text(maximum as u64).as_str()).concat(")"),
        );
    }
    None
}

/// Whether an opcode loads a call target account.
pub open spec fn loads_call_target(opcode: u8) -> bool {
    opcode == CALL || opcode == CALLCODE || opcode == DELEGATECALL || opcode == STATICCALL
}

/// Whether the instruction can pay its static charge but not the extra charge of a cold call
/// target.
pub open spec fn cold_charge_unpaid(
    interp: InterpreterState,
    warm_cost: u64,
    cold_additional_cost: u64,
) -> bool {
    &&& interp.spec_id.place() >= SpecId::BERLIN.place()
    &&& loads_call_target(interp.opcode)
    &&& warm_cost <= interp.gas_remaining < warm_cost + cold_additional_cost
    &&& interp.second_word is Some
}

/// Returns the nested Geth error for a direct cold-target charge that cannot be paid.
///
/// This is deliberately conservative: REVM must still report `OutOfGas` in `step_end`. It covers
/// the primary EIP-2929 target charge, including after EIP-7702 activation, but not a later
/// delegation-target charge. `target_is_cold` is asked about the address in the low 20 bytes of
/// the second stack word.
pub fn geth_dynamic_call_error<F: FnOnce(Address) -> bool>(
    interp: &InterpreterState,
    warm_cost: u64,
    cold_additional_cost: u64,
    target_is_cold: F,
) -> (r: Option<String>)
    requires
        forall|target: Address|
            interp.second_word matches Some(word) && target.0@ == word.0@.subrange(12, 32)
                ==> call_requires(target_is_cold, (target,)),
    ensures
        !cold_charge_unpaid(*interp, warm_cost, cold_additional_cost) ==> r is None,
        cold_charge_unpaid(*interp, warm_cost, cold_additional_cost) ==> exists|
            target: Address,
            cold: bool,
        |
            {
                &&& target.0@ == (interp.second_word->0).0@.subrange(12, 32)
                &&& #[trigger] call_ensures(target_is_cold, (target,), cold)
                &&& optional_text(r) == if cold {
                    Some("out of gas: out of gas"@)
                } else {
                    None
                }
            },
{
    if !interp.spec_id.is_enabled_in(SpecId::BERLIN) || !matches!(
        interp.opcode,
        CALL | CALLCODE | DELEGATECALL | STATICCALL
    ) {
        return None;
    }
    if interp.gas_remaining < warm_cost {
        return None;
    }
    let remaining_after_static: u64 = interp.gas_remaining - warm_cost;
    if remaining_after_static >= cold_additional_cost {
        return None;
    }
    match &interp.second_word {
        None => None,
        Some(word) => {
            let target = address_from_word(word);
            let cold = target_is_cold(target);
            if cold {
                Some(String::from_str("out of gas: out of gas"))
            } else {
                None
            }
        },
    }
}

/// Decides whether an account is cold from the journal's two records of it: the list of warm
/// addresses, and the journaled account, if there is one.
pub fn journal_address_is_cold(
    cold_in_warm_addresses: bool,
    journaled_account_is_cold: Option<bool>,
) -> (r: bool)
    ensures
        r == (cold_in_warm_addresses && journaled_account_is_cold != Some(false)),
{
    cold_in_warm_addresses && match journaled_account_is_cold {
        None => true,
        Some(cold) => cold,
    }
}

/// Exact error information collected for one active call or create frame.
#[derive(Debug)]
struct FrameCapture {
    /// Arena index assigned in the same call/create callback order as `TracingInspector`.
    node_index: usize,
    /// Geth-compatible error for the opcode that terminated this frame.
    exact_error: Option<String>,
}

/// Pre-execution information for the opcode currently being inspected.
#[derive(Debug)]
struct PendingStep {
    /// Raw opcode byte, retained for invariant diagnostics.
    opcode: u8,
    /// Error Geth would return before charging opcode gas.
    precheck_error: Option<String>,
    /// Exact error for a direct cold-target gas failure, pending confirmation by `step_end`.
    dynamic_error: Option<String>,
}

/// Sidecar inspector that preserves error context discarded by `InstructionResult`.
///
/// The inspector mirrors `TracingInspector` frame insertion order. It performs Geth's fork and
/// stack checks in `inspect_step`, before REVM charges static gas, then binds the exact error to
/// the active node in `inspect_step_end`.
#[derive(Debug)]
pub struct GethErrorInspector {
    /// Active frame stack in EVM nesting order.
    frames: Vec<FrameCapture>,
    /// Completed errors indexed by `CallTraceNode::idx`.
    errors: Vec<Option<String>>,
    /// Opcode awaiting its matching `step_end` callback.
    pending_step: Option<PendingStep>,
    /// First invariant violation observed during the transaction.
    fault: Option<String>,
}

/// An active frame: its arena index and the error captured for it.
pub struct FrameView {
    pub node_index: nat,
    pub exact_error: Option<Seq<char>>,
}

/// An opcode that has started and not ended.
pub struct PendingView {
    pub opcode: u8,
    pub precheck_error: Option<Seq<char>>,
    pub dynamic_error: Option<Seq<char>>,
}

/// What a [`GethErrorInspector`] has recorded.
#[verifier::ext_equal]
pub struct InspectorView {
    pub frames: Seq<FrameView>,
    pub errors: Seq<Option<Seq<char>>>,
    pub pending: Option<PendingView>,
    pub fault: Option<Seq<char>>,
}

impl InspectorView {
    /// An inspector that has seen nothing.
    pub open spec fn empty() -> InspectorView {
        InspectorView { frames: seq![], errors: seq![], pending: None, fault: None }
    }

    /// Active frames hold arena indexes in nesting order, and their slots are still free.
    pub open spec fn well_formed(self) -> bool {
        &&& forall|i: int|
            0 <= i < self.frames.len() ==> (#[trigger] self.frames[i]).node_index
                < self.errors.len()
        &&& forall|i: int, j: int|
            0 <= i < j < self.frames.len() ==> (#[trigger] self.frames[i]).node_index < (
            #[trigger] self.frames[j]).node_index
        &&& forall|i: int|
            0 <= i < self.frames.len() ==> self.errors[(
            #[trigger] self.frames[i]).node_index as int] is None
    }

    /// The state after a fault: the first one stays.
    pub open spec fn faulted(self, detail: Seq<char>) -> InspectorView {
        InspectorView {
            fault: if self.fault is None {
                Some(detail)
            } else {
                self.fault
            },
            ..self
        }
    }

    /// The state after a call or create frame has started.
    pub open spec fn frame_started(self) -> InspectorView {
        let noted = if self.pending is Some {
            self.faulted("call/create frame started before the previous opcode ended"@)
        } else {
            self
        };
        InspectorView {
            frames: self.frames.push(
                FrameView { node_index: self.errors.len(), exact_error: None },
            ),
            errors: self.errors.push(None),
            ..noted
        }
    }

    /// The fault of an opcode that starts in this state, if it may not.
    pub open spec fn step_fault(self) -> Option<Seq<char>> {
        if self.frames.len() == 0 {
            Some("opcode step observed without an active call/create frame"@)
        } else if self.pending is Some {
            Some("opcode step observed before the previous step_end"@)
        } else {
            None
        }
    }

    /// The state after an opcode has started.
    pub open spec fn step_started(self, step: PendingView) -> InspectorView {
        match self.step_fault() {
            Some(detail) => self.faulted(detail),
            None => InspectorView { pending: Some(step), ..self },
        }
    }

    /// The state after the current opcode has ended with `result`.
    pub open spec fn step_ended(self, result: Option<InstructionResult>) -> InspectorView {
        match self.pending {
            None => self.faulted("step_end observed without a matching opcode step"@),
            Some(step) => {
                let idle = InspectorView { pending: None, ..self };
                let opcode = "opcode 0x"@ + hexadecimal(step.opcode as nat);
                let halted = result matches Some(result) && result.halts();
                match exact_error(step, result) {
                    Some(error) => {
                        if !halted {
                            idle.faulted(
                                opcode + " failed Geth precheck but did not halt the frame"@,
                            )
                        } else if self.frames.len() == 0 {
                            idle.faulted("opcode step_end observed without an active frame"@)
                        } else {
                            idle.frame_failed(error)
                        }
                    },
                    None => if result matches Some(result) && needs_context(result) {
                        idle.faulted(opcode + " lost context required for exact Geth error text"@)
                    } else {
                        idle
                    },
                }
            },
        }
    }

    /// The state after the active frame's error has been captured.
    pub open spec fn frame_failed(self, error: Seq<char>) -> InspectorView {
        let frame = self.frames.last();
        let bound = InspectorView {
            frames: self.frames.drop_last().push(
                FrameView { node_index: frame.node_index, exact_error: Some(error) },
            ),
            ..self
        };
        if frame.exact_error is Some {
            bound.faulted(
                "trace node "@ + decimal(frame.node_index)
                    + " recorded more than one terminal opcode error"@,
            )
        } else {
            bound
        }
    }

    /// The state after the active frame has ended with `result`.
    pub open spec fn frame_ended(self, result: InstructionResult) -> InspectorView {
        let noted = if self.pending is Some {
            InspectorView {
                pending: None,
                ..self.faulted("call/create frame ended before the current opcode step_end"@)
            }
        } else {
            self
        };
        if self.frames.len() == 0 {
            noted.faulted("call/create frame ended without a matching start"@)
        } else {
            let frame = self.frames.last();
            let node = "trace node "@ + decimal(frame.node_index);
            let judged = if frame.exact_error is Some && !result.halts() {
                noted.faulted(
                    node + " captured an opcode error but ended with "@ + result.text(),
                )
            } else if frame.exact_error is None && needs_context(result) {
                noted.faulted(
                    node + " ended with "@ + result.text() + " without exact Geth error context"@,
                )
            } else {
                noted
            };
            InspectorView {
                frames: self.frames.drop_last(),
                errors: self.errors.update(frame.node_index as int, frame.exact_error),
                ..judged
            }
        }
    }

    /// Why the transaction cannot be closed with `expected_nodes` trace nodes, if it cannot.
    pub open spec fn closing_fault(self, expected_nodes: nat) -> Option<Seq<char>> {
        if self.fault is Some {
            self.fault
        } else if self.pending is Some {
            Some("transaction ended with an unfinished opcode step"@)
        } else if self.frames.len() > 0 {
            Some(
                "transaction ended with "@ + decimal(self.frames.len())
                    + " active call/create frames"@,
            )
        } else if self.errors.len() != expected_nodes {
            Some(
                "Geth error sidecar recorded "@ + decimal(self.errors.len())
                    + " nodes, trace arena recorded "@ + decimal(expected_nodes),
            )
        } else {
            None
        }
    }
}

/// The exact error of an opcode that ended with `result`: a failed precheck always counts, an
/// unpaid cold charge only if the opcode ran out of gas.
pub open spec fn exact_error(step: PendingView, result: Option<InstructionResult>) -> Option<
    Seq<char>,
> {
    if step.precheck_error is Some {
        step.precheck_error
    } else if result == Some(InstructionResult::OutOfGas) {
        step.dynamic_error
    } else {
        None
    }
}

/// What a vector of optional texts holds.
pub open spec fn optional_texts(v: Seq<Option<String>>) -> Seq<Option<Seq<char>>> {
    Seq::new(v.len(), |i: int| optional_text(v[i]))
}

impl View for FrameCapture {
    type V = FrameView;

    closed spec fn view(&self) -> FrameView {
        FrameView {
            node_index: self.node_index as nat,
            exact_error: optional_text(self.exact_error),
        }
    }
}

impl View for PendingStep {
    type V = PendingView;

    closed spec fn view(&self) -> PendingView {
        PendingView {
            opcode: self.opcode,
            precheck_error: optional_text(self.precheck_error),
            dynamic_error: optional_text(self.dynamic_error),
        }
    }
}

impl View for GethErrorInspector {
    type V = InspectorView;

    closed spec fn view(&self) -> InspectorView {
        InspectorView {
            frames: Seq::new(self.frames@.len(), |i: int| self.frames@[i]@),
            errors: optional_texts(self.errors@),
            pending: match self.pending_step {
                Some(step) => Some(step@),
                None => None,
            },
            fault: optional_text(self.fault),
        }
    }
}

impl Default for GethErrorInspector {
    /// An inspector that has seen nothing.
    fn default() -> (r: Self)
        ensures
            r@ == InspectorView::empty(),
            r@.well_formed(),
    {
        let r = GethErrorInspector {
            frames: Vec::new(),
            errors: Vec::new(),
            pending_step: None,
            fault: None,
        };
        assert(r@ =~= InspectorView::empty());
        r
    }
}

impl GethErrorInspector {
    /// Records the first invariant violation while allowing execution to finish safely.
    pub fn record_fault(&mut self, detail: String)
        ensures
            final(self)@ == old(self)@.faulted(detail@),
    {
        if self.fault.is_none() {
            self.fault = Some(detail);
        }
        assert(self@ =~= old(self)@.faulted(detail@));
    }

    /// Starts a frame using the next trace-arena index.
    pub fn start_frame(&mut self)
        requires
            old(self)@.well_formed(),
        ensures
            final(self)@ == old(self)@.frame_started(),
            final(self)@.well_formed(),
    {
        if self.pending_step.is_some() {
            self.record_fault(
                String::from_str("call/create frame started before the previous opcode ended"),
            );
        }
        let node_index: usize = self.errors.len();
        self.errors.push(None);
        self.frames.push(FrameCapture { node_index, exact_error: None });
        assert(self@ =~= old(self)@.frame_started());
    }

    /// Captures Geth's pre-gas opcode validation for the active frame.
    ///
    /// `dynamic_error` is asked only about an opcode that passes that validation.
    pub fn inspect_step<F: FnOnce(&InterpreterState) -> Option<String>>(
        &mut self,
        interp: &InterpreterState,
        dynamic_error: F,
    )
        requires
            old(self)@.well_formed(),
            call_requires(dynamic_error, (interp,)),
        ensures
            final(self)@.well_formed(),
            ({
                let precheck = precheck_text(
                    interp.opcode,
                    interp.spec_id,
                    interp.stack_len as nat,
                    opcode_table(interp.opcode),
                );
                if old(self)@.step_fault() is Some || precheck is Some {
                    final(self)@ == old(self)@.step_started(
                        PendingView {
                            opcode: interp.opcode,
                            precheck_error: precheck,
                            dynamic_error: None,
                        },
                    )
                } else {
                    exists|dynamic: Option<String>| #[trigger]
                        call_ensures(dynamic_error, (interp,), dynamic) && final(self)@ == old(
                            self,
                        )@.step_started(
                            PendingView {
                                opcode: interp.opcode,
                                precheck_error: None,
                                dynamic_error: optional_text(dynamic),
                            },
                        )
                }
            }),
    {
        if self.frames.len() == 0 {
            self.record_fault(
                String::from_str("opcode step observed without an active call/create frame"),
            );
            return;
        }
        if self.pending_step.is_some() {
            self.record_fault(
                String::from_str("opcode step observed before the previous step_end"),
            );
            return;
        }
        let opcode = interp.opcode;
        let precheck_error = geth_precheck_error(opcode, interp.spec_id, interp.stack_len);
        let dynamic_error = if precheck_error.is_none() {
            dynamic_error(interp)
        } else {
            None
        };
        let ghost pending = PendingView {
            opcode,
            precheck_error: optional_text(precheck_error),
            dynamic_error: optional_text(dynamic_error),
        };
        self.pending_step = Some(PendingStep { opcode, precheck_error, dynamic_error });
        assert(self@ =~= old(self)@.step_started(pending));
    }

    /// Resolves the current opcode and attaches any required exact error to its frame.
    pub fn inspect_step_end(&mut self, interp: &InterpreterState)
        requires
            old(self)@.well_formed(),
        ensures
            final(self)@ == old(self)@.step_ended(interp.instruction_result),
            final(self)@.well_formed(),
    {
        let pending = match self.pending_step.take() {
            Some(pending) => pending,
            None => {
                self.record_fault(
                    String::from_str("step_end observed without a matching opcode step"),
                );
                return;
            },
        };
        let ghost idle = InspectorView { pending: None, ..old(self)@ };
        assert(self@ =~= idle);
        let result = interp.instruction_result;
        let exact_error = if pending.precheck_error.is_some() {
            pending.precheck_error
        } else if let Some(InstructionResult::OutOfGas) = result {
            pending.dynamic_error
        } else {
            None
        };
        match exact_error {
            Some(exact_error) => {
                let halted = match result {
                    Some(result) => result.is_error(),
                    None => false,
                };
                if !halted {
                    self.record_fault(
                        String::from_str("opcode 0x").concat(
                            hexadecimal_text(pending.opcode).as_str(),
                        ).concat(" failed Geth precheck but did not halt the frame"),
                    );
                    return;
                }
                let frame = match self.frames.pop() {
                    Some(frame) => frame,
                    None => {
                        self.record_fault(
                            String::from_str("opcode step_end observed without an active frame"),
                        );
                        return;
                    },
                };
                let node_index: usize = frame.node_index;
                let duplicate = frame.exact_error.is_some();
                let ghost error = exact_error@;
                self.frames.push(FrameCapture { node_index, exact_error: Some(exact_error) });
                let ghost bound = InspectorView {
                    frames: idle.frames.drop_last().push(
                        FrameView { node_index: node_index as nat, exact_error: Some(error) },
                    ),
                    ..idle
                };
                assert(idle.frames.last() == frame@);
                assert(self@ =~= bound);
                if duplicate {
                    self.record_fault(
                        String::from_str("trace node ").concat(
                            decimal_text(node_index as u64).as_str(),
                        ).concat(" recorded more than one terminal opcode error"),
                    );
                }
            },
            None => {
                let lost = match result {
                    Some(result) => requires_exact_error(result),
                    None => false,
                };
                if lost {
                    self.record_fault(
                        String::from_str("opcode 0x").concat(
                            hexadecimal_text(pending.opcode).as_str(),
                        ).concat(" lost context required for exact Geth error text"),
                    );
                }
            },
        }
    }

    /// Ends the active frame and stores its error by trace-arena index.
    pub fn end_frame(&mut self, result: InstructionResult)
        requires
            old(self)@.well_formed(),
        ensures
            final(self)@ == old(self)@.frame_ended(result),
            final(self)@.well_formed(),
    {
        if self.pending_step.is_some() {
            self.record_fault(
                String::from_str("call/create frame ended before the current opcode step_end"),
            );
            self.pending_step = None;
        }
        let ghost noted = self@;
        let frame = match self.frames.pop() {
            Some(frame) => frame,
            None => {
                self.record_fault(
                    String::from_str("call/create frame ended without a matching start"),
                );
                return;
            },
        };
        assert(noted.frames.last() == frame@);
        assert(self@.frames =~= noted.frames.drop_last());
        if frame.exact_error.is_some() && !result.is_error() {
            self.record_fault(
                String::from_str("trace node ").concat(
                    decimal_text(frame.node_index as u64).as_str(),
                ).concat(" captured an opcode error but ended with ").concat(result.name()),
            );
        }
        if frame.exact_error.is_none() && requires_exact_error(result) {
            self.record_fault(
                String::from_str("trace node ").concat(
                    decimal_text(frame.node_index as u64).as_str(),
                ).concat(" ended with ").concat(result.name()).concat(
                    " without exact Geth error context",
                ),
            );
        }
        assert(old(self)@.frames[old(self)@.frames.len() - 1] == frame@);
        let ghost captured = optional_text(frame.exact_error);
        self.errors.set(frame.node_index, frame.exact_error);
        assert(self@.errors =~= old(self)@.errors.update(frame.node_index as int, captured));
        assert(self@ =~= old(self)@.frame_ended(result));
    }

    /// Validates and consumes one transaction's node-indexed errors.
    ///
    /// State is reset on both success and failure so a subsequent transaction cannot inherit
    /// partial frame or opcode context.
    pub fn finish_transaction(&mut self, expected_nodes: usize) -> (r: Result<
        Vec<Option<String>>,
        String,
    >)
        ensures
            final(self)@ == InspectorView::empty(),
            final(self)@.well_formed(),
            match r {
                Ok(errors) => {
                    &&& old(self)@.closing_fault(expected_nodes as nat) is None
                    &&& optional_texts(errors@) == old(self)@.errors
                },
                Err(error) => old(self)@.closing_fault(expected_nodes as nat) == Some(error@),
            },
    {
        let mut fault = self.fault.take();
        if fault.is_none() && self.pending_step.is_some() {
            fault = Some(String::from_str("transaction ended with an unfinished opcode step"));
        }
        if fault.is_none() && self.frames.len() != 0 {
            fault =
            Some(
                String::from_str("transaction ended with ").concat(
                    decimal_text(self.frames.len() as u64).as_str(),
                ).concat(" active call/create frames"),
            );
        }
        if fault.is_none() && self.errors.len() != expected_nodes {
            fault =
            Some(
                String::from_str("Geth error sidecar recorded ").concat(
                    decimal_text(self.errors.len() as u64).as_str(),
                ).concat(" nodes, trace arena recorded ").concat(
                    decimal_text(expected_nodes as u64).as_str(),
                ),
            );
        }
        let mut errors: Vec<Option<String>> = Vec::new();
        std::mem::swap(&mut errors, &mut self.errors);
        self.frames.clear();
        self.pending_step = None;
        assert(self@ =~= InspectorView::empty());
        match fault {
            Some(error) => Err(error),
            None => Ok(errors),
        }
    }
}

/// One inspector callback of a transaction.
pub enum Callback {
    /// A call or create frame starts.
    FrameStart,
    /// An opcode starts.
    Step(PendingView),
    /// The opcode ends.
    StepEnd(Option<InstructionResult>),
    /// The frame ends.
    FrameEnd(InstructionResult),
}

impl InspectorView {
    /// The state after one callback.
    pub open spec fn after(self, callback: Callback) -> InspectorView {
        match callback {
            Callback::FrameStart => self.frame_started(),
            Callback::Step(step) => self.step_started(step),
            Callback::StepEnd(result) => self.step_ended(result),
            Callback::FrameEnd(result) => self.frame_ended(result),
        }
    }

    /// The state after a sequence of callbacks.
    pub open spec fn after_all(self, callbacks: Seq<Callback>) -> InspectorView
        decreases callbacks.len(),
    {
        if callbacks.len() == 0 {
            self
        } else {
            self.after_all(callbacks.drop_last()).after(callbacks.last())
        }
    }
}

/// How many frames a sequence of callbacks starts.
pub open spec fn frames_in(callbacks: Seq<Callback>) -> nat
    decreases callbacks.len(),
{
    if callbacks.len() == 0 {
        0
    } else {
        frames_in(callbacks.drop_last()) + if callbacks.last() is FrameStart {
            1nat
        } else {
            0
        }
    }
}

/// Whatever happens in a transaction, the inspector stays well formed and holds one slot for
/// each frame that was started.
pub proof fn every_started_frame_has_a_node(callbacks: Seq<Callback>)
    ensures
        InspectorView::empty().after_all(callbacks).well_formed(),
        InspectorView::empty().after_all(callbacks).errors.len() == frames_in(callbacks),
    decreases callbacks.len(),
{
    if callbacks.len() > 0 {
        let before = InspectorView::empty().after_all(callbacks.drop_last());
        every_started_frame_has_a_node(callbacks.drop_last());
        match callbacks.last() {
            Callback::FrameEnd(result) => {
                if before.frames.len() > 0 {
                    assert(before.frames[before.frames.len() - 1] == before.frames.last());
                }
            },
            _ => {},
        }
    }
}

/// A transaction in which frames started without being traced, or were traced without being
/// started, is never closed successfully.
pub proof fn node_counts_must_agree(callbacks: Seq<Callback>, expected_nodes: nat)
    requires
        expected_nodes != frames_in(callbacks),
    ensures
        InspectorView::empty().after_all(callbacks).closing_fault(expected_nodes) is Some,
{
    every_started_frame_has_a_node(callbacks);
}

/// The first fault of a transaction outlives everything that follows it and is what closing the
/// transaction reports.
pub proof fn first_fault_is_reported(
    state: InspectorView,
    fault: Seq<char>,
    callbacks: Seq<Callback>,
    expected_nodes: nat,
)
    requires
        state.fault == Some(fault),
    ensures
        state.after_all(callbacks).fault == Some(fault),
        state.after_all(callbacks).closing_fault(expected_nodes) == Some(fault),
    decreases callbacks.len(),
{
    if callbacks.len() > 0 {
        first_fault_is_reported(state, fault, callbacks.drop_last(), expected_nodes);
    }
}

/// A frame that starts and ends between two opcodes with a result that needs no context leaves
/// nothing behind but its own empty slot.
pub proof fn plain_frame_adds_an_empty_node(state: InspectorView, result: InstructionResult)
    requires
        state.well_formed(),
        state.pending is None,
        !needs_context(result),
    ensures
        state.frame_started().frame_ended(result) == (InspectorView {
            errors: state.errors.push(None),
            ..state
        }),
{
    let started = state.frame_started();
    assert(started.frames.drop_last() =~= state.frames);
    assert(started.errors.update(state.errors.len() as int, None) =~= started.errors);
}

/// A failed precheck is the error of the node in which it happened, with whatever exceptional
/// halt the opcode and its frame end: running out of gas does not hide it.
pub proof fn precheck_error_reaches_its_node(
    state: InspectorView,
    opcode: u8,
    error: Seq<char>,
    step_result: InstructionResult,
    frame_result: InstructionResult,
)
    requires
        state.well_formed(),
        state.pending is None,
        step_result.halts(),
        frame_result.halts(),
    ensures
        state.after_all(
            seq![
                Callback::FrameStart,
                Callback::Step(
                    PendingView { opcode, precheck_error: Some(error), dynamic_error: None },
                ),
                Callback::StepEnd(Some(step_result)),
                Callback::FrameEnd(frame_result),
            ],
        ) == (InspectorView { errors: state.errors.push(Some(error)), ..state }),
{
    let step = PendingView { opcode, precheck_error: Some(error), dynamic_error: None };
    let s1 = state.frame_started();
    let s2 = s1.step_started(step);
    let s3 = s2.step_ended(Some(step_result));
    let s4 = s3.frame_ended(frame_result);
    let all = seq![
        Callback::FrameStart,
        Callback::Step(step),
        Callback::StepEnd(Some(step_result)),
        Callback::FrameEnd(frame_result),
    ];
    reveal_with_fuel(InspectorView::after_all, 5);
    assert(all.drop_last().drop_last().drop_last().drop_last() =~= seq![]);
    assert(state.after_all(all) == s4);
    assert(s1.frames.last() == FrameView { node_index: state.errors.len(), exact_error: None });
    assert(s3.frames =~= state.frames.push(
        FrameView { node_index: state.errors.len(), exact_error: Some(error) },
    ));
    assert(s4.frames =~= state.frames);
    assert(s4.errors =~= state.errors.push(Some(error)));
}

/// An opcode that a later fork introduces is invalid whatever the stack holds.
pub proof fn inactive_opcode_wins_over_the_stack(
    opcode: u8,
    spec: SpecId,
    stack_len: nat,
    info: OpcodeInfoView,
)
    requires
        opcode != INVALID,
        !active_in(opcode, spec),
    ensures
        precheck_text(opcode, spec, stack_len, Some(info)) == Some("invalid opcode: "@ + info.name),
{
}

/// An opcode that is active in a fork stays active in every later fork.
pub proof fn opcodes_stay_active(opcode: u8, spec: SpecId, later: SpecId)
    requires
        active_in(opcode, spec),
        later.place() >= spec.place(),
    ensures
        active_in(opcode, later),
{
}

/// Whether a fork comes before Homestead.
pub open spec fn before_homestead(spec: SpecId) -> bool {
    spec == SpecId::FRONTIER || spec == SpecId::FRONTIER_THAWING
}

/// Whether a fork comes before Byzantium.
pub open spec fn before_byzantium(spec: SpecId) -> bool {
    before_homestead(spec) || spec == SpecId::HOMESTEAD || spec == SpecId::DAO_FORK || spec
        == SpecId::TANGERINE || spec == SpecId::SPURIOUS_DRAGON
}

/// Whether a fork comes before Constantinople.
pub open spec fn before_constantinople(spec: SpecId) -> bool {
    before_byzantium(spec) || spec == SpecId::BYZANTIUM
}

/// Whether a fork comes before Petersburg.
pub open spec fn before_petersburg(spec: SpecId) -> bool {
    before_constantinople(spec) || spec == SpecId::CONSTANTINOPLE
}

/// Whether a fork comes before Istanbul.
pub open spec fn before_istanbul(spec: SpecId) -> bool {
    before_petersburg(spec) || spec == SpecId::PETERSBURG
}

/// Whether a fork comes before Berlin.
pub open spec fn before_berlin(spec: SpecId) -> bool {
    before_istanbul(spec) || spec == SpecId::ISTANBUL || spec == SpecId::MUIR_GLACIER
}

/// Whether a fork comes before London.
pub open spec fn before_london(spec: SpecId) -> bool {
    before_berlin(spec) || spec == SpecId::BERLIN
}

/// Whether a fork comes before Shanghai.
pub open spec fn before_shanghai(spec: SpecId) -> bool {
    before_london(spec) || spec == SpecId::LONDON || spec == SpecId::ARROW_GLACIER || spec
        == SpecId::GRAY_GLACIER || spec == SpecId::MERGE
}

/// Whether a fork comes before Cancun.
pub open spec fn before_cancun(spec: SpecId) -> bool {
    before_shanghai(spec) || spec == SpecId::SHANGHAI
}

/// Whether a fork comes before Osaka.
pub open spec fn before_osaka(spec: SpecId) -> bool {
    before_cancun(spec) || spec == SpecId::CANCUN || spec == SpecId::PRAGUE
}

/// Every conditional opcode is active exactly from its fork on: `DELEGATECALL` from Homestead;
/// `RETURNDATASIZE`, `RETURNDATACOPY`, `STATICCALL` and `REVERT` from Byzantium; `SHL`, `SHR`, `SAR`
/// and `EXTCODEHASH` from Constantinople; `CREATE2` from Petersburg; `CHAINID` and `SELFBALANCE` from
/// Istanbul; `BASEFEE` from London; `PUSH0` from Shanghai; `BLOBHASH`, `BLOBBASEFEE`, `TLOAD`,
/// `TSTORE` and `MCOPY` from Cancun; `CLZ` from Osaka; `SLOTNUM`, `DUPN`, `SWAPN` and `EXCHANGE` in
/// Amsterdam. Every other byte is active in every fork.
pub proof fn opcodes_start_at_their_fork(opcode: u8, spec: SpecId)
    ensures
        active_in(opcode, spec) <==> match opcode {
            0xF4 => !before_homestead(spec),
            0x3D | 0x3E | 0xFA | 0xFD => !before_byzantium(spec),
            0x1B | 0x1C | 0x1D | 0x3F => !before_constantinople(spec),
            0xF5 => !before_petersburg(spec),
            0x46 | 0x47 => !before_istanbul(spec),
            0x48 => !before_london(spec),
            0x5F => !before_shanghai(spec),
            0x49 | 0x4A | 0x5C | 0x5D | 0x5E => !before_cancun(spec),
            0x1E => !before_osaka(spec),
            0x4B | 0xE6 | 0xE7 | 0xE8 => spec == SpecId::AMSTERDAM,
            _ => true,
        },
{
}

/// In Shanghai only the opcodes of Cancun, Osaka and Amsterdam are inactive; in Osaka only those of
/// Amsterdam; in Amsterdam none.
pub proof fn few_opcodes_are_inactive_in_late_forks(opcode: u8)
    ensures
        !active_in(opcode, SpecId::SHANGHAI) <==> {
            ||| 0x49 <= opcode <= 0x4B
            ||| 0x5C <= opcode <= 0x5E
            ||| opcode == 0x1E
            ||| 0xE6 <= opcode <= 0xE8
        },
        !active_in(opcode, SpecId::OSAKA) <==> opcode == 0x4B || 0xE6 <= opcode <= 0xE8,
        active_in(opcode, SpecId::AMSTERDAM),
{
    opcodes_start_at_their_fork(opcode, SpecId::SHANGHAI);
    opcodes_start_at_their_fork(opcode, SpecId::OSAKA);
    opcodes_start_at_their_fork(opcode, SpecId::AMSTERDAM);
}

/// An opcode passes Geth's checks exactly if it is not the designated invalid one, has an entry in
/// the opcode table, is active in the fork, finds its operands on the stack and leaves at most 1024
/// words there.
pub proof fn prechecks_pass_exactly(
    opcode: u8,
    spec: SpecId,
    stack_len: nat,
    info: Option<OpcodeInfoView>,
)
    ensures
        precheck_text(opcode, spec, stack_len, info) is None <==> {
            &&& opcode != 0xFE
            &&& info matches Some(info)
            &&& active_in(opcode, spec)
            &&& stack_len >= info.inputs
            &&& stack_len - info.inputs + info.outputs <= 1024
        },
{
}

/// A cold charge goes unpaid exactly for the four opcodes that call, from Berlin on, if the gas pays
/// for the warm access and not for the cold one on top.
pub proof fn cold_charges_go_unpaid_exactly(
    interp: InterpreterState,
    warm_cost: u64,
    cold_additional_cost: u64,
)
    ensures
        cold_charge_unpaid(interp, warm_cost, cold_additional_cost) <==> {
            &&& !before_berlin(interp.spec_id)
            &&& interp.opcode == 0xF1 || interp.opcode == 0xF2 || interp.opcode == 0xF4
                || interp.opcode == 0xFA
            &&& interp.gas_remaining >= warm_cost
            &&& interp.gas_remaining - warm_cost < cold_additional_cost
            &&& interp.second_word is Some
        },
{
}

/// A callback touches the innermost frame alone: every frame further out stays as it is, every node
/// keeps its error but the one whose frame ends, which gets what was captured for that frame.
pub proof fn callbacks_touch_the_innermost_frame(state: InspectorView, callback: Callback)
    requires
        state.well_formed(),
    ensures
        ({
            let after = state.after(callback);
            let depth = state.frames.len() as int;
            &&& after.frames.len() == if callback is FrameStart {
                depth + 1
            } else if callback is FrameEnd && depth > 0 {
                depth - 1
            } else {
                depth
            }
            &&& forall|i: int| 0 <= i < depth - 1 ==> after.frames[i] == #[trigger] state.frames[i]
            &&& callback is FrameStart && depth > 0 ==> after.frames[depth - 1]
                == state.frames[depth - 1]
            &&& callback is FrameStart ==> {
                &&& after.errors.len() == state.errors.len() + 1
                &&& after.frames[depth].node_index == state.errors.len()
                &&& after.frames[depth].exact_error is None
            }
            &&& !(callback is FrameStart) ==> after.errors.len() == state.errors.len()
            &&& !(callback is FrameStart) && !(callback is FrameEnd) && depth > 0
                ==> after.frames[depth - 1].node_index == state.frames[depth - 1].node_index
            &&& forall|n: int|
                0 <= n < state.errors.len() ==> after.errors[n] == if callback is FrameEnd && depth
                    > 0 && n == state.frames[depth - 1].node_index {
                    state.frames[depth - 1].exact_error
                } else {
                    #[trigger] state.errors[n]
                }
        }),
{
    let depth = state.frames.len();
    if depth > 0 {
        assert(state.frames.last() == state.frames[depth - 1]);
    }
}

/// A frame's error is captured when an opcode ends, and only then: the failed check of an opcode that
/// halts, or the unpaid cold charge of one that passed its checks and ran out of gas.
pub proof fn errors_are_captured_at_the_end_of_an_opcode(
    state: InspectorView,
    result: Option<InstructionResult>,
)
    requires
        state.frames.len() > 0,
    ensures
        ({
            let before = state.frames[state.frames.len() - 1].exact_error;
            let after = state.step_ended(result).frames[state.frames.len() - 1].exact_error;
            let halted = result matches Some(result) && result.halts();
            match state.pending {
                None => after == before,
                Some(step) => {
                    &&& step.precheck_error is Some && halted ==> after == step.precheck_error
                    &&& step.precheck_error is Some && !halted ==> after == before
                    &&& step.precheck_error is None && step.dynamic_error is Some && result == Some(
                        InstructionResult::OutOfGas,
                    ) ==> after == step.dynamic_error
                    &&& step.precheck_error is None && (step.dynamic_error is None || result != Some(
                        InstructionResult::OutOfGas,
                    )) ==> after == before
                },
            }
        }),
        forall|step: PendingView| #[trigger] state.step_started(step).frames == state.frames,
        state.step_ended(result).pending is None,
{
}

/// A callback is a fault exactly if it comes out of order or contradicts what was captured: a frame
/// or an opcode that starts before the last opcode has ended, an opcode without a frame, an end
/// without a start, a captured error without a halt or a second one for a frame, and a result that
/// needs an error where none was captured.
pub proof fn faults_are_broken_orders(state: InspectorView, callback: Callback)
    requires
        state.fault is None,
    ensures
        ({
            let faulted = state.after(callback).fault is Some;
            let depth = state.frames.len();
            let captured = state.frames[depth - 1].exact_error is Some;
            match callback {
                Callback::FrameStart => faulted <==> state.pending is Some,
                Callback::Step(step) => {
                    &&& faulted <==> depth == 0 || state.pending is Some
                    &&& !faulted ==> state.after(callback).pending == Some(step)
                    &&& faulted ==> state.after(callback).pending == state.pending
                },
                Callback::StepEnd(result) => match state.pending {
                    None => faulted,
                    Some(step) => {
                        let failed = step.precheck_error is Some || (step.dynamic_error is Some
                            && result == Some(InstructionResult::OutOfGas));
                        let halted = result matches Some(result) && result.halts();
                        let lost = result matches Some(result) && needs_context(result);
                        faulted <==> if failed {
                            !halted || depth == 0 || captured
                        } else {
                            lost
                        }
                    },
                },
                Callback::FrameEnd(result) => faulted <==> {
                    ||| state.pending is Some
                    ||| depth == 0
                    ||| captured && !result.halts()
                    ||| !captured && needs_context(result)
                },
            }
        }),
{
}

/// A transaction is closed exactly if it had no fault, no opcode and no frame is open, and as many
/// frames were traced as were started. The first fault is reported before anything else.
pub proof fn transactions_close_exactly(state: InspectorView, expected_nodes: nat)
    ensures
        state.closing_fault(expected_nodes) is None <==> {
            &&& state.fault is None
            &&& state.pending is None
            &&& state.frames.len() == 0
            &&& state.errors.len() == expected_nodes
        },
        state.fault is Some ==> state.closing_fault(expected_nodes) == state.fault,
{
}

/// Exact text needs the context of the opcode for five results: an unknown, an invalid and an
/// inactive opcode, and a stack that is too short or too long. All five halt the frame.
pub proof fn five_results_need_context(result: InstructionResult)
    ensures
        needs_context(result) <==> (result is OpcodeNotFound || result is InvalidFEOpcode
            || result is NotActivated || result is StackUnderflow || result is StackOverflow),
        needs_context(result) ==> result.halts(),
        result is Stop || result is Return || result is SelfDestruct || result is Revert
            ==> !result.halts(),
        result is OutOfGas ==> result.halts(),
{
}

/// A failed check names what it is about: the byte of an opcode without an entry, the mnemonic of an
/// inactive one, and the height of the stack with the least or the greatest that the opcode takes.
pub proof fn failed_checks_name_their_cause(
    opcode: u8,
    spec: SpecId,
    stack_len: nat,
    info: OpcodeInfoView,
)
    requires
        opcode != 0xFE,
    ensures
        precheck_text(opcode, spec, stack_len, None) == Some(
            "invalid opcode: opcode 0x"@ + hexadecimal(opcode as nat) + " not defined"@,
        ),
        ({
            let text = precheck_text(opcode, spec, stack_len, Some(info));
            let most = 1024 + info.inputs - info.outputs;
            &&& !active_in(opcode, spec) ==> text == Some("invalid opcode: "@ + info.name)
            &&& active_in(opcode, spec) && stack_len < info.inputs ==> text == Some(
                "stack underflow ("@ + decimal(stack_len) + " <=> "@ + decimal(info.inputs as nat)
                    + ")"@,
            )
            &&& active_in(opcode, spec) && stack_len >= info.inputs && stack_len > most ==> text
                == Some(
                "stack limit reached "@ + decimal(stack_len) + " ("@ + decimal(most as nat) + ")"@,
            )
        }),
{
}

/// The fault of an opcode names its byte, and that of a frame the frame's own node and how it ended.
pub proof fn faults_name_their_cause(state: InspectorView, result: InstructionResult)
    requires
        state.fault is None,
        state.frames.len() > 0,
    ensures
        ({
            let frame = state.frames[state.frames.len() - 1];
            let node = "trace node "@ + decimal(frame.node_index);
            let ended = state.frame_ended(result).fault;
            let stepped = state.step_ended(Some(result)).fault;
            &&& state.pending is None && frame.exact_error is Some && !result.halts() ==> ended
                == Some(node + " captured an opcode error but ended with "@ + result.text())
            &&& state.pending is None && frame.exact_error is None && needs_context(result)
                ==> ended == Some(
                node + " ended with "@ + result.text() + " without exact Geth error context"@,
            )
            &&& state.pending matches Some(step) ==> {
                let opcode = "opcode 0x"@ + hexadecimal(step.opcode as nat);
                &&& step.precheck_error is Some && !result.halts() ==> stepped == Some(
                    opcode + " failed Geth precheck but did not halt the frame"@,
                )
                &&& step.precheck_error is Some && result.halts() && frame.exact_error is Some
                    ==> stepped == Some(node + " recorded more than one terminal opcode error"@)
                &&& step.precheck_error is None && needs_context(result) ==> stepped == Some(
                    opcode + " lost context required for exact Geth error text"@,
                )
            }
        }),
{
}

/// A transaction that cannot be closed says what is left: how many frames are open, or how many nodes
/// were recorded and how many were traced.
pub proof fn open_transactions_say_what_is_left(state: InspectorView, expected_nodes: nat)
    requires
        state.fault is None,
    ensures
        ({
            let fault = state.closing_fault(expected_nodes);
            &&& state.pending is Some ==> fault == Some(
                "transaction ended with an unfinished opcode step"@,
            )
            &&& state.pending is None && state.frames.len() > 0 ==> fault == Some(
                "transaction ended with "@ + decimal(state.frames.len())
                    + " active call/create frames"@,
            )
            &&& state.pending is None && state.frames.len() == 0 && state.errors.len()
                != expected_nodes ==> fault == Some(
                "Geth error sidecar recorded "@ + decimal(state.errors.len())
                    + " nodes, trace arena recorded "@ + decimal(expected_nodes),
            )
        }),
{
}

} // verus!
