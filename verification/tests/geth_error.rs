use revm::bytecode::{opcode, Bytecode};
use revm::interpreter::host::DummyHost;
use revm::interpreter::instructions::instruction_table;
use revm::interpreter::interpreter::{EthInterpreter, ExtBytecode};
use revm::interpreter::interpreter_types::{Jumps, LoopControl, RuntimeFlag};
use revm::interpreter::{
    InputsImpl, InstructionResult as RevmResult, Interpreter, SharedMemory,
};
use revm::primitives::hardfork::SpecId as RevmSpecId;
use revm::primitives::{Bytes, U256};
use taiko_rpc::evm::{InstructionResult, InterpreterState, OpcodeInfo, SpecId};
use taiko_rpc::fixed::FixedBytes;
use taiko_rpc::geth_error::{
    geth_dynamic_call_error, geth_precheck_error, journal_address_is_cold, opcode_is_active,
    precheck_error, requires_exact_error, GethErrorInspector,
};

const RESULTS: [InstructionResult; 33] = [
    InstructionResult::Stop,
    InstructionResult::Return,
    InstructionResult::SelfDestruct,
    InstructionResult::Revert,
    InstructionResult::CallTooDeep,
    InstructionResult::OutOfFunds,
    InstructionResult::CreateInitCodeStartingEF00,
    InstructionResult::InvalidEOFInitCode,
    InstructionResult::InvalidExtDelegateCallTarget,
    InstructionResult::OutOfGas,
    InstructionResult::MemoryOOG,
    InstructionResult::MemoryLimitOOG,
    InstructionResult::PrecompileOOG,
    InstructionResult::InvalidOperandOOG,
    InstructionResult::ReentrancySentryOOG,
    InstructionResult::OpcodeNotFound,
    InstructionResult::CallNotAllowedInsideStatic,
    InstructionResult::StateChangeDuringStaticCall,
    InstructionResult::InvalidFEOpcode,
    InstructionResult::InvalidJump,
    InstructionResult::NotActivated,
    InstructionResult::StackUnderflow,
    InstructionResult::StackOverflow,
    InstructionResult::OutOfOffset,
    InstructionResult::CreateCollision,
    InstructionResult::OverflowPayment,
    InstructionResult::PrecompileError,
    InstructionResult::NonceOverflow,
    InstructionResult::CreateContractSizeLimit,
    InstructionResult::CreateContractStartingWithEF,
    InstructionResult::CreateInitCodeSizeLimit,
    InstructionResult::FatalExternalError,
    InstructionResult::InvalidImmediateEncoding,
];

const SPECS: [SpecId; 21] = [
    SpecId::FRONTIER,
    SpecId::FRONTIER_THAWING,
    SpecId::HOMESTEAD,
    SpecId::DAO_FORK,
    SpecId::TANGERINE,
    SpecId::SPURIOUS_DRAGON,
    SpecId::BYZANTIUM,
    SpecId::CONSTANTINOPLE,
    SpecId::PETERSBURG,
    SpecId::ISTANBUL,
    SpecId::MUIR_GLACIER,
    SpecId::BERLIN,
    SpecId::LONDON,
    SpecId::ARROW_GLACIER,
    SpecId::GRAY_GLACIER,
    SpecId::MERGE,
    SpecId::SHANGHAI,
    SpecId::CANCUN,
    SpecId::PRAGUE,
    SpecId::OSAKA,
    SpecId::AMSTERDAM,
];

fn result_of(result: RevmResult) -> InstructionResult {
    let name = format!("{result:?}");
    *RESULTS.iter().find(|known| known.name() == name).expect("known result")
}

fn state_of(interpreter: &mut Interpreter<EthInterpreter>) -> InterpreterState {
    InterpreterState {
        opcode: interpreter.bytecode.opcode(),
        spec_id: SPECS[interpreter.runtime_flag.spec_id() as u8 as usize],
        stack_len: interpreter.stack.len(),
        second_word: interpreter.stack.peek(1).ok().map(|word| FixedBytes(word.to_be_bytes())),
        gas_remaining: interpreter.gas.remaining(),
        instruction_result: interpreter.bytecode.instruction_result().map(result_of),
    }
}

fn single_opcode_interpreter(
    code: &[u8],
    spec: RevmSpecId,
    gas_limit: u64,
    stack_len: usize,
) -> Interpreter<EthInterpreter> {
    let bytecode = Bytecode::new_legacy(Bytes::copy_from_slice(code));
    let mut interpreter = Interpreter::<EthInterpreter>::new(
        SharedMemory::new(),
        ExtBytecode::new(bytecode),
        InputsImpl::default(),
        false,
        spec,
        gas_limit,
    );
    for _ in 0..stack_len {
        assert!(interpreter.stack.push(U256::ZERO));
    }
    interpreter
}

fn inspect_single_opcode(
    code: &[u8],
    spec: RevmSpecId,
    gas_limit: u64,
    stack_len: usize,
) -> (InstructionResult, String) {
    let mut interpreter = single_opcode_interpreter(code, spec, gas_limit, stack_len);
    let mut inspector = GethErrorInspector::default();
    inspector.start_frame();
    inspector.inspect_step(&state_of(&mut interpreter), |_: &InterpreterState| None);
    let mut host = DummyHost::new(spec);
    interpreter.step(&instruction_table::<EthInterpreter, DummyHost>(), &mut host);
    inspector.inspect_step_end(&state_of(&mut interpreter));
    let result = result_of(interpreter.bytecode.instruction_result().expect("terminal opcode result"));
    inspector.end_frame(result);
    let errors = inspector.finish_transaction(1).expect("valid sidecar state");
    (result, errors[0].clone().expect("exact opcode error"))
}

#[test]
fn unknown_opcode_uses_geth_hex_text() {
    let (result, error) = inspect_single_opcode(&[0xaa], RevmSpecId::SHANGHAI, 1_000, 0);
    assert_eq!(result, InstructionResult::OpcodeNotFound);
    assert_eq!(error, "invalid opcode: opcode 0xaa not defined");
}

#[test]
fn invalid_fe_uses_geth_opcode_name() {
    let (result, error) =
        inspect_single_opcode(&[opcode::INVALID], RevmSpecId::SHANGHAI, 1_000, 0);
    assert_eq!(result, InstructionResult::InvalidFEOpcode);
    assert_eq!(error, "invalid opcode: INVALID");
}

#[test]
fn inactive_opcode_wins_before_stack_and_activates_at_the_fork() {
    let (inactive_result, inactive_error) =
        inspect_single_opcode(&[opcode::TLOAD], RevmSpecId::SHANGHAI, 1_000, 0);
    assert_eq!(inactive_result, InstructionResult::NotActivated);
    assert_eq!(inactive_error, "invalid opcode: TLOAD");

    let (active_result, active_error) =
        inspect_single_opcode(&[opcode::TLOAD], RevmSpecId::OSAKA, 1_000, 0);
    assert_eq!(active_result, InstructionResult::StackUnderflow);
    assert_eq!(active_error, "stack underflow (0 <=> 1)");
}

#[test]
fn stack_underflow_includes_actual_and_required_heights() {
    let (result, error) = inspect_single_opcode(&[opcode::ADD], RevmSpecId::SHANGHAI, 1_000, 0);
    assert_eq!(result, InstructionResult::StackUnderflow);
    assert_eq!(error, "stack underflow (0 <=> 2)");
}

#[test]
fn geth_stack_check_precedes_revms_static_gas_charge() {
    let (result, error) = inspect_single_opcode(&[opcode::ADD], RevmSpecId::SHANGHAI, 0, 0);
    assert_eq!(result, InstructionResult::OutOfGas);
    assert_eq!(error, "stack underflow (0 <=> 2)");

    let mut call = single_opcode_interpreter(&[opcode::CALL], RevmSpecId::SHANGHAI, 2_599, 7);
    let state = state_of(&mut call);
    assert_eq!(
        geth_dynamic_call_error(&state, 100, 2_500, |_| true).as_deref(),
        Some("out of gas: out of gas")
    );
    assert!(geth_dynamic_call_error(&state, 100, 2_500, |_| false).is_none());

    let mut inspector = GethErrorInspector::default();
    inspector.start_frame();
    inspector.inspect_step(&state, |call: &InterpreterState| {
        geth_dynamic_call_error(call, 100, 2_500, |_| true)
    });
    call.halt(RevmResult::OutOfGas);
    inspector.inspect_step_end(&state_of(&mut call));
    let result = result_of(call.bytecode.instruction_result().expect("terminal call result"));
    assert_eq!(result, InstructionResult::OutOfGas);
    inspector.end_frame(result);
    assert_eq!(
        inspector.finish_transaction(1).unwrap(),
        vec![Some("out of gas: out of gas".into())]
    );

    for gas_limit in [99, 2_600] {
        let mut call =
            single_opcode_interpreter(&[opcode::CALL], RevmSpecId::SHANGHAI, gas_limit, 7);
        assert!(geth_dynamic_call_error(&state_of(&mut call), 100, 2_500, |_| true).is_none());
    }
}

#[test]
fn stack_overflow_uses_opcode_specific_geth_limit() {
    let (result, error) =
        inspect_single_opcode(&[opcode::PUSH1, 0], RevmSpecId::SHANGHAI, 1_000, 1024);
    assert_eq!(result, InstructionResult::StackOverflow);
    assert_eq!(error, "stack limit reached 1024 (1023)");
}

#[test]
fn transaction_finish_fails_closed_and_resets_state() {
    let mut inspector = GethErrorInspector::default();
    inspector.start_frame();
    assert!(inspector.finish_transaction(1).unwrap_err().contains("active"));
    assert_eq!(inspector.finish_transaction(0).unwrap(), Vec::<Option<String>>::new());
}

fn idle(opcode: u8, spec_id: SpecId, stack_len: usize) -> InterpreterState {
    InterpreterState {
        opcode,
        spec_id,
        stack_len,
        second_word: None,
        gas_remaining: 1_000,
        instruction_result: None,
    }
}

fn ended(state: InterpreterState, result: Option<InstructionResult>) -> InterpreterState {
    InterpreterState { instruction_result: result, ..state }
}

fn no_dynamic_error(_: &InterpreterState) -> Option<String> {
    None
}

#[test]
fn is_error_agrees_with_revm_for_every_result() {
    assert!(!InstructionResult::Stop.is_error());
    assert!(!InstructionResult::SelfDestruct.is_error());
    assert!(!InstructionResult::Revert.is_error());
    assert!(!InstructionResult::InvalidExtDelegateCallTarget.is_error());
    assert!(InstructionResult::OutOfGas.is_error());
    assert!(InstructionResult::StackOverflow.is_error());
    assert!(InstructionResult::FatalExternalError.is_error());
    assert!(InstructionResult::InvalidImmediateEncoding.is_error());
    for (result, name) in [
        (RevmResult::Stop, "Stop"),
        (RevmResult::CallTooDeep, "CallTooDeep"),
        (RevmResult::OutOfGas, "OutOfGas"),
        (RevmResult::NonceOverflow, "NonceOverflow"),
        (RevmResult::InvalidImmediateEncoding, "InvalidImmediateEncoding"),
    ] {
        assert_eq!(result_of(result).name(), name);
        assert_eq!(result_of(result).is_error(), result.is_error());
    }
}

#[test]
fn forks_are_ordered_as_in_revm() {
    for (number, spec) in SPECS.iter().enumerate() {
        let revm_spec = RevmSpecId::try_from_u8(number as u8).expect("known fork");
        assert_eq!(spec.rank() as usize, number);
        for (other_number, other) in SPECS.iter().enumerate() {
            let revm_other = RevmSpecId::try_from_u8(other_number as u8).expect("known fork");
            assert_eq!(spec.is_enabled_in(*other), revm_spec.is_enabled_in(revm_other));
        }
    }
}

#[test]
fn opcode_constants_agree_with_revm() {
    assert_eq!(taiko_rpc::evm::DELEGATECALL, opcode::DELEGATECALL);
    assert_eq!(taiko_rpc::evm::RETURNDATASIZE, opcode::RETURNDATASIZE);
    assert_eq!(taiko_rpc::evm::RETURNDATACOPY, opcode::RETURNDATACOPY);
    assert_eq!(taiko_rpc::evm::STATICCALL, opcode::STATICCALL);
    assert_eq!(taiko_rpc::evm::REVERT, opcode::REVERT);
    assert_eq!(taiko_rpc::evm::SHL, opcode::SHL);
    assert_eq!(taiko_rpc::evm::SHR, opcode::SHR);
    assert_eq!(taiko_rpc::evm::SAR, opcode::SAR);
    assert_eq!(taiko_rpc::evm::EXTCODEHASH, opcode::EXTCODEHASH);
    assert_eq!(taiko_rpc::evm::CREATE2, opcode::CREATE2);
    assert_eq!(taiko_rpc::evm::CHAINID, opcode::CHAINID);
    assert_eq!(taiko_rpc::evm::SELFBALANCE, opcode::SELFBALANCE);
    assert_eq!(taiko_rpc::evm::BASEFEE, opcode::BASEFEE);
    assert_eq!(taiko_rpc::evm::PUSH0, opcode::PUSH0);
    assert_eq!(taiko_rpc::evm::BLOBHASH, opcode::BLOBHASH);
    assert_eq!(taiko_rpc::evm::BLOBBASEFEE, opcode::BLOBBASEFEE);
    assert_eq!(taiko_rpc::evm::TLOAD, opcode::TLOAD);
    assert_eq!(taiko_rpc::evm::TSTORE, opcode::TSTORE);
    assert_eq!(taiko_rpc::evm::MCOPY, opcode::MCOPY);
    assert_eq!(taiko_rpc::evm::CLZ, opcode::CLZ);
    assert_eq!(taiko_rpc::evm::SLOTNUM, opcode::SLOTNUM);
    assert_eq!(taiko_rpc::evm::DUPN, opcode::DUPN);
    assert_eq!(taiko_rpc::evm::SWAPN, opcode::SWAPN);
    assert_eq!(taiko_rpc::evm::EXCHANGE, opcode::EXCHANGE);
    assert_eq!(taiko_rpc::evm::CALL, opcode::CALL);
    assert_eq!(taiko_rpc::evm::CALLCODE, opcode::CALLCODE);
    assert_eq!(taiko_rpc::evm::INVALID, opcode::INVALID);
    assert_eq!(taiko_rpc::evm::SSTORE, opcode::SSTORE);
}

#[test]
fn opcodes_activate_at_their_fork() {
    assert!(!opcode_is_active(opcode::PUSH0, SpecId::MERGE));
    assert!(opcode_is_active(opcode::PUSH0, SpecId::SHANGHAI));
    assert!(!opcode_is_active(opcode::CLZ, SpecId::PRAGUE));
    assert!(opcode_is_active(opcode::CLZ, SpecId::OSAKA));
    assert!(!opcode_is_active(opcode::SLOTNUM, SpecId::OSAKA));
    assert!(opcode_is_active(opcode::SLOTNUM, SpecId::AMSTERDAM));
    assert!(opcode_is_active(opcode::ADD, SpecId::FRONTIER));
    assert!(!opcode_is_active(opcode::DELEGATECALL, SpecId::FRONTIER_THAWING));
    assert!(!opcode_is_active(opcode::CREATE2, SpecId::CONSTANTINOPLE));
}

#[test]
fn precheck_reads_the_opcode_table() {
    assert_eq!(geth_precheck_error(opcode::ADD, SpecId::SHANGHAI, 2), None);
    assert_eq!(
        geth_precheck_error(opcode::SWAP1, SpecId::SHANGHAI, 1).as_deref(),
        Some("stack underflow (1 <=> 2)")
    );
    assert_eq!(geth_precheck_error(opcode::PUSH1, SpecId::SHANGHAI, 1023), None);
    assert_eq!(geth_precheck_error(opcode::POP, SpecId::SHANGHAI, 1024), None);
    assert_eq!(
        geth_precheck_error(0x0c, SpecId::SHANGHAI, 0).as_deref(),
        Some("invalid opcode: opcode 0xc not defined")
    );
}

#[test]
fn precheck_follows_a_given_table_entry() {
    let entry = |inputs, outputs| {
        Some(OpcodeInfo { name: String::from("TEST"), inputs, outputs })
    };
    assert_eq!(precheck_error(0x01, SpecId::SHANGHAI, 3, entry(3, 1)), None);
    assert_eq!(
        precheck_error(0x01, SpecId::SHANGHAI, 2, entry(3, 1)).as_deref(),
        Some("stack underflow (2 <=> 3)")
    );
    assert_eq!(precheck_error(0x01, SpecId::SHANGHAI, 1024, entry(0, 0)), None);
    assert_eq!(
        precheck_error(0x01, SpecId::SHANGHAI, 1021, entry(2, 6)).as_deref(),
        Some("stack limit reached 1021 (1020)")
    );
    assert_eq!(
        precheck_error(opcode::TLOAD, SpecId::SHANGHAI, 0, entry(1, 1)).as_deref(),
        Some("invalid opcode: TEST")
    );
    assert_eq!(
        precheck_error(opcode::INVALID, SpecId::SHANGHAI, 0, entry(0, 0)).as_deref(),
        Some("invalid opcode: INVALID")
    );
}

#[test]
fn dynamic_error_asks_about_the_second_stack_word() {
    let mut word = [0u8; 32];
    word[0] = 0xff;
    word[12] = 0x77;
    word[31] = 0x99;
    let state = InterpreterState {
        opcode: opcode::STATICCALL,
        spec_id: SpecId::BERLIN,
        stack_len: 6,
        second_word: Some(FixedBytes(word)),
        gas_remaining: 700,
        instruction_result: None,
    };
    let mut expected = [0u8; 20];
    expected[0] = 0x77;
    expected[19] = 0x99;
    assert_eq!(
        geth_dynamic_call_error(&state, 100, 2_500, |target| target == FixedBytes(expected))
            .as_deref(),
        Some("out of gas: out of gas")
    );
    let before_berlin = InterpreterState { spec_id: SpecId::ISTANBUL, ..state };
    assert!(geth_dynamic_call_error(&before_berlin, 100, 2_500, |_| true).is_none());
    let no_call = InterpreterState { opcode: opcode::ADD, ..state };
    assert!(geth_dynamic_call_error(&no_call, 100, 2_500, |_| true).is_none());
    let empty_stack = InterpreterState { second_word: None, ..state };
    assert!(geth_dynamic_call_error(&empty_stack, 100, 2_500, |_| true).is_none());
}

#[test]
fn dynamic_error_is_not_asked_after_a_failed_precheck() {
    let mut inspector = GethErrorInspector::default();
    inspector.start_frame();
    let state = idle(opcode::CALL, SpecId::SHANGHAI, 0);
    inspector.inspect_step(&state, |_: &InterpreterState| panic!("must not be asked"));
    inspector.inspect_step_end(&ended(state, Some(InstructionResult::StackUnderflow)));
    inspector.end_frame(InstructionResult::StackUnderflow);
    assert_eq!(
        inspector.finish_transaction(1).unwrap(),
        vec![Some(String::from("stack underflow (0 <=> 7)"))]
    );
}

#[test]
fn journal_needs_both_records_to_be_cold() {
    assert!(journal_address_is_cold(true, None));
    assert!(journal_address_is_cold(true, Some(true)));
    assert!(!journal_address_is_cold(true, Some(false)));
    assert!(!journal_address_is_cold(false, None));
    assert!(!journal_address_is_cold(false, Some(true)));
}

#[test]
fn only_five_results_require_context() {
    for result in RESULTS {
        let expected = matches!(
            result,
            InstructionResult::OpcodeNotFound
                | InstructionResult::InvalidFEOpcode
                | InstructionResult::NotActivated
                | InstructionResult::StackUnderflow
                | InstructionResult::StackOverflow
        );
        assert_eq!(requires_exact_error(result), expected);
    }
}

#[test]
fn nested_frames_keep_their_own_nodes() {
    let mut inspector = GethErrorInspector::default();
    inspector.start_frame();
    inspector.start_frame();
    let state = idle(opcode::ADD, SpecId::SHANGHAI, 1);
    inspector.inspect_step(&state, no_dynamic_error);
    inspector.inspect_step_end(&ended(state, Some(InstructionResult::StackUnderflow)));
    inspector.end_frame(InstructionResult::StackUnderflow);
    inspector.start_frame();
    inspector.end_frame(InstructionResult::Revert);
    inspector.end_frame(InstructionResult::Stop);
    assert_eq!(
        inspector.finish_transaction(3).unwrap(),
        vec![None, Some(String::from("stack underflow (1 <=> 2)")), None]
    );
}

#[test]
fn first_fault_is_the_one_reported() {
    let mut inspector = GethErrorInspector::default();
    inspector.record_fault(String::from("first"));
    inspector.record_fault(String::from("second"));
    inspector.end_frame(InstructionResult::Stop);
    assert_eq!(inspector.finish_transaction(0).unwrap_err(), "first");
    assert!(inspector.finish_transaction(0).unwrap().is_empty());
}

#[test]
fn every_broken_callback_order_is_a_fault() {
    let fault = |run: &dyn Fn(&mut GethErrorInspector)| {
        let mut inspector = GethErrorInspector::default();
        run(&mut inspector);
        inspector.finish_transaction(0).unwrap_err()
    };
    let add = idle(opcode::ADD, SpecId::SHANGHAI, 2);
    let underflow = idle(opcode::ADD, SpecId::SHANGHAI, 0);
    assert_eq!(
        fault(&|i| i.inspect_step(&add, no_dynamic_error)),
        "opcode step observed without an active call/create frame"
    );
    assert_eq!(
        fault(&|i| i.inspect_step_end(&add)),
        "step_end observed without a matching opcode step"
    );
    assert_eq!(
        fault(&|i| i.end_frame(InstructionResult::Stop)),
        "call/create frame ended without a matching start"
    );
    assert_eq!(
        fault(&|i| {
            i.start_frame();
            i.inspect_step(&add, no_dynamic_error);
            i.inspect_step(&add, no_dynamic_error);
        }),
        "opcode step observed before the previous step_end"
    );
    assert_eq!(
        fault(&|i| {
            i.start_frame();
            i.inspect_step(&add, no_dynamic_error);
            i.start_frame();
        }),
        "call/create frame started before the previous opcode ended"
    );
    assert_eq!(
        fault(&|i| {
            i.start_frame();
            i.inspect_step(&add, no_dynamic_error);
            i.end_frame(InstructionResult::Stop);
        }),
        "call/create frame ended before the current opcode step_end"
    );
    assert_eq!(
        fault(&|i| {
            i.start_frame();
            i.inspect_step(&underflow, no_dynamic_error);
            i.inspect_step_end(&underflow);
        }),
        "opcode 0x1 failed Geth precheck but did not halt the frame"
    );
    assert_eq!(
        fault(&|i| {
            i.start_frame();
            i.inspect_step(&add, no_dynamic_error);
            i.inspect_step_end(&ended(add, Some(InstructionResult::StackOverflow)));
        }),
        "opcode 0x1 lost context required for exact Geth error text"
    );
    assert_eq!(
        fault(&|i| {
            i.start_frame();
            for _ in 0..2 {
                i.inspect_step(&underflow, no_dynamic_error);
                i.inspect_step_end(&ended(underflow, Some(InstructionResult::OutOfGas)));
            }
        }),
        "trace node 0 recorded more than one terminal opcode error"
    );
    assert_eq!(
        fault(&|i| {
            i.start_frame();
            i.inspect_step(&underflow, no_dynamic_error);
            i.inspect_step_end(&ended(underflow, Some(InstructionResult::OutOfGas)));
            i.end_frame(InstructionResult::Return);
        }),
        "trace node 0 captured an opcode error but ended with Return"
    );
    assert_eq!(
        fault(&|i| {
            i.start_frame();
            i.end_frame(InstructionResult::NotActivated);
        }),
        "trace node 0 ended with NotActivated without exact Geth error context"
    );
    assert_eq!(
        fault(&|i| {
            i.start_frame();
            i.inspect_step(&add, no_dynamic_error);
        }),
        "transaction ended with an unfinished opcode step"
    );
    assert_eq!(
        fault(&|i| {
            i.start_frame();
            i.start_frame();
        }),
        "transaction ended with 2 active call/create frames"
    );
    assert_eq!(
        fault(&|i| {
            i.start_frame();
            i.end_frame(InstructionResult::Stop);
        }),
        "Geth error sidecar recorded 1 nodes, trace arena recorded 0"
    );
}
