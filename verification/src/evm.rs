//! EVM facts the tracer reads: instruction results, forks and the opcode table.
use crate::fixed::B256;
use revm::bytecode::opcode::OpCode;
use revm::interpreter::InstructionResult as R;
use revm::primitives::hardfork::SpecId as RevmSpecId;
use vstd::prelude::*;

verus! {

/// How an instruction or a frame ended.
#[derive(Clone, Copy, Debug, PartialEq, Eq, Structural)]
pub enum InstructionResult {
    Stop,
    Return,
    SelfDestruct,
    Revert,
    CallTooDeep,
    OutOfFunds,
    CreateInitCodeStartingEF00,
    InvalidEOFInitCode,
    InvalidExtDelegateCallTarget,
    OutOfGas,
    MemoryOOG,
    MemoryLimitOOG,
    PrecompileOOG,
    InvalidOperandOOG,
    ReentrancySentryOOG,
    OpcodeNotFound,
    CallNotAllowedInsideStatic,
    StateChangeDuringStaticCall,
    InvalidFEOpcode,
    InvalidJump,
    NotActivated,
    StackUnderflow,
    StackOverflow,
    OutOfOffset,
    CreateCollision,
    OverflowPayment,
    PrecompileError,
    NonceOverflow,
    CreateContractSizeLimit,
    CreateContractStartingWithEF,
    CreateInitCodeSizeLimit,
    FatalExternalError,
    InvalidImmediateEncoding,
}

impl InstructionResult {
    /// Whether the frame halted exceptionally: it neither completed nor reverted.
    pub open spec fn halts(self) -> bool {
        match self {
            InstructionResult::Stop
            | InstructionResult::Return
            | InstructionResult::SelfDestruct
            | InstructionResult::Revert
            | InstructionResult::CallTooDeep
            | InstructionResult::OutOfFunds
            | InstructionResult::CreateInitCodeStartingEF00
            | InstructionResult::InvalidEOFInitCode
            | InstructionResult::InvalidExtDelegateCallTarget => false,
            _ => true,
        }
    }

    /// The name of the result.
    pub open spec fn text(self) -> Seq<char> {
        match self {
            InstructionResult::Stop => "Stop"@,
            InstructionResult::Return => "Return"@,
            InstructionResult::SelfDestruct => "SelfDestruct"@,
            InstructionResult::Revert => "Revert"@,
            InstructionResult::CallTooDeep => "CallTooDeep"@,
            InstructionResult::OutOfFunds => "OutOfFunds"@,
            InstructionResult::CreateInitCodeStartingEF00 => "CreateInitCodeStartingEF00"@,
            InstructionResult::InvalidEOFInitCode => "InvalidEOFInitCode"@,
            InstructionResult::InvalidExtDelegateCallTarget => "InvalidExtDelegateCallTarget"@,
            InstructionResult::OutOfGas => "OutOfGas"@,
            InstructionResult::MemoryOOG => "MemoryOOG"@,
            InstructionResult::MemoryLimitOOG => "MemoryLimitOOG"@,
            InstructionResult::PrecompileOOG => "PrecompileOOG"@,
            InstructionResult::InvalidOperandOOG => "InvalidOperandOOG"@,
            InstructionResult::ReentrancySentryOOG => "ReentrancySentryOOG"@,
            InstructionResult::OpcodeNotFound => "OpcodeNotFound"@,
            InstructionResult::CallNotAllowedInsideStatic => "CallNotAllowedInsideStatic"@,
            InstructionResult::StateChangeDuringStaticCall => "StateChangeDuringStaticCall"@,
            InstructionResult::InvalidFEOpcode => "InvalidFEOpcode"@,
            InstructionResult::InvalidJump => "InvalidJump"@,
            InstructionResult::NotActivated => "NotActivated"@,
            InstructionResult::StackUnderflow => "StackUnderflow"@,
            InstructionResult::StackOverflow => "StackOverflow"@,
            InstructionResult::OutOfOffset => "OutOfOffset"@,
            InstructionResult::CreateCollision => "CreateCollision"@,
            InstructionResult::OverflowPayment => "OverflowPayment"@,
            InstructionResult::PrecompileError => "PrecompileError"@,
            InstructionResult::NonceOverflow => "NonceOverflow"@,
            InstructionResult::CreateContractSizeLimit => "CreateContractSizeLimit"@,
            InstructionResult::CreateContractStartingWithEF => "CreateContractStartingWithEF"@,
            InstructionResult::CreateInitCodeSizeLimit => "CreateInitCodeSizeLimit"@,
            InstructionResult::FatalExternalError => "FatalExternalError"@,
            InstructionResult::InvalidImmediateEncoding => "InvalidImmediateEncoding"@,
        }
    }

    /// Whether the frame halted exceptionally.
    pub fn is_error(self) -> (r: bool)
        ensures
            r == self.halts(),
    {
        result_is_error(self)
    }

    /// The name of the result.
    pub fn name(self) -> (r: &'static str)
        ensures
            r@ == self.text(),
    {
        match self {
            InstructionResult::Stop => "Stop",
            InstructionResult::Return => "Return",
            InstructionResult::SelfDestruct => "SelfDestruct",
            InstructionResult::Revert => "Revert",
            InstructionResult::CallTooDeep => "CallTooDeep",
            InstructionResult::OutOfFunds => "OutOfFunds",
            InstructionResult::CreateInitCodeStartingEF00 => "CreateInitCodeStartingEF00",
            InstructionResult::InvalidEOFInitCode => "InvalidEOFInitCode",
            InstructionResult::InvalidExtDelegateCallTarget => "InvalidExtDelegateCallTarget",
            InstructionResult::OutOfGas => "OutOfGas",
            InstructionResult::MemoryOOG => "MemoryOOG",
            InstructionResult::MemoryLimitOOG => "MemoryLimitOOG",
            InstructionResult::PrecompileOOG => "PrecompileOOG",
            InstructionResult::InvalidOperandOOG => "InvalidOperandOOG",
            InstructionResult::ReentrancySentryOOG => "ReentrancySentryOOG",
            InstructionResult::OpcodeNotFound => "OpcodeNotFound",
            InstructionResult::CallNotAllowedInsideStatic => "CallNotAllowedInsideStatic",
            InstructionResult::StateChangeDuringStaticCall => "StateChangeDuringStaticCall",
            InstructionResult::InvalidFEOpcode => "InvalidFEOpcode",
            InstructionResult::InvalidJump => "InvalidJump",
            InstructionResult::NotActivated => "NotActivated",
            InstructionResult::StackUnderflow => "StackUnderflow",
            InstructionResult::StackOverflow => "StackOverflow",
            InstructionResult::OutOfOffset => "OutOfOffset",
            InstructionResult::CreateCollision => "CreateCollision",
            InstructionResult::OverflowPayment => "OverflowPayment",
            InstructionResult::PrecompileError => "PrecompileError",
            InstructionResult::NonceOverflow => "NonceOverflow",
            InstructionResult::CreateContractSizeLimit => "CreateContractSizeLimit",
            InstructionResult::CreateContractStartingWithEF => "CreateContractStartingWithEF",
            InstructionResult::CreateInitCodeSizeLimit => "CreateInitCodeSizeLimit",
            InstructionResult::FatalExternalError => "FatalExternalError",
            InstructionResult::InvalidImmediateEncoding => "InvalidImmediateEncoding",
        }
    }
}

/// Asks `revm::interpreter::InstructionResult::is_error` about the result of the same name.
///
/// It is true of every result but the three that complete a frame and the six that revert it.
#[verifier::external_body]
fn result_is_error(result: InstructionResult) -> (r: bool)
    ensures
        r == result.halts(),
{
    [
        R::Stop, R::Return, R::SelfDestruct, R::Revert, R::CallTooDeep, R::OutOfFunds,
        R::CreateInitCodeStartingEF00, R::InvalidEOFInitCode, R::InvalidExtDelegateCallTarget,
        R::OutOfGas, R::MemoryOOG, R::MemoryLimitOOG, R::PrecompileOOG, R::InvalidOperandOOG,
        R::ReentrancySentryOOG, R::OpcodeNotFound, R::CallNotAllowedInsideStatic,
        R::StateChangeDuringStaticCall, R::InvalidFEOpcode, R::InvalidJump, R::NotActivated,
        R::StackUnderflow, R::StackOverflow, R::OutOfOffset, R::CreateCollision,
        R::OverflowPayment, R::PrecompileError, R::NonceOverflow, R::CreateContractSizeLimit,
        R::CreateContractStartingWithEF, R::CreateInitCodeSizeLimit, R::FatalExternalError,
        R::InvalidImmediateEncoding,
    ][result as usize].is_error()
}

/// Execution forks in the order in which they activate.
#[derive(Clone, Copy, Debug, PartialEq, Eq, Structural)]
#[allow(non_camel_case_types)]
pub enum SpecId {
    FRONTIER,
    FRONTIER_THAWING,
    HOMESTEAD,
    DAO_FORK,
    TANGERINE,
    SPURIOUS_DRAGON,
    BYZANTIUM,
    CONSTANTINOPLE,
    PETERSBURG,
    ISTANBUL,
    MUIR_GLACIER,
    BERLIN,
    LONDON,
    ARROW_GLACIER,
    GRAY_GLACIER,
    MERGE,
    SHANGHAI,
    CANCUN,
    PRAGUE,
    OSAKA,
    AMSTERDAM,
}

impl SpecId {
    /// The fork's place in the order of activation.
    pub open spec fn place(self) -> u8 {
        match self {
            SpecId::FRONTIER => 0,
            SpecId::FRONTIER_THAWING => 1,
            SpecId::HOMESTEAD => 2,
            SpecId::DAO_FORK => 3,
            SpecId::TANGERINE => 4,
            SpecId::SPURIOUS_DRAGON => 5,
            SpecId::BYZANTIUM => 6,
            SpecId::CONSTANTINOPLE => 7,
            SpecId::PETERSBURG => 8,
            SpecId::ISTANBUL => 9,
            SpecId::MUIR_GLACIER => 10,
            SpecId::BERLIN => 11,
            SpecId::LONDON => 12,
            SpecId::ARROW_GLACIER => 13,
            SpecId::GRAY_GLACIER => 14,
            SpecId::MERGE => 15,
            SpecId::SHANGHAI => 16,
            SpecId::CANCUN => 17,
            SpecId::PRAGUE => 18,
            SpecId::OSAKA => 19,
            SpecId::AMSTERDAM => 20,
        }
    }

    /// The fork's place in the order of activation.
    pub fn rank(self) -> (r: u8)
        ensures
            r == self.place(),
    {
        match self {
            SpecId::FRONTIER => 0,
            SpecId::FRONTIER_THAWING => 1,
            SpecId::HOMESTEAD => 2,
            SpecId::DAO_FORK => 3,
            SpecId::TANGERINE => 4,
            SpecId::SPURIOUS_DRAGON => 5,
            SpecId::BYZANTIUM => 6,
            SpecId::CONSTANTINOPLE => 7,
            SpecId::PETERSBURG => 8,
            SpecId::ISTANBUL => 9,
            SpecId::MUIR_GLACIER => 10,
            SpecId::BERLIN => 11,
            SpecId::LONDON => 12,
            SpecId::ARROW_GLACIER => 13,
            SpecId::GRAY_GLACIER => 14,
            SpecId::MERGE => 15,
            SpecId::SHANGHAI => 16,
            SpecId::CANCUN => 17,
            SpecId::PRAGUE => 18,
            SpecId::OSAKA => 19,
            SpecId::AMSTERDAM => 20,
        }
    }

    /// Whether this fork includes the rules of `other`.
    pub fn is_enabled_in(self, other: SpecId) -> (r: bool)
        ensures
            r == (self.place() >= other.place()),
    {
        spec_is_enabled_in(self.rank(), other.rank())
    }
}

/// Asks `revm::primitives::hardfork::SpecId::is_enabled_in` about the forks with the given
/// numbers: a fork includes another one's rules if its number is not below the other's.
#[verifier::external_body]
fn spec_is_enabled_in(spec: u8, other: u8) -> (r: bool)
    requires
        spec <= 20,
        other <= 20,
    ensures
        r == (spec >= other),
{
    RevmSpecId::try_from_u8(spec).unwrap().is_enabled_in(RevmSpecId::try_from_u8(other).unwrap())
}

pub const CALL: u8 = 0xF1;

pub const CALLCODE: u8 = 0xF2;

pub const DELEGATECALL: u8 = 0xF4;

pub const STATICCALL: u8 = 0xFA;

pub const REVERT: u8 = 0xFD;

pub const INVALID: u8 = 0xFE;

pub const RETURNDATASIZE: u8 = 0x3D;

pub const RETURNDATACOPY: u8 = 0x3E;

pub const EXTCODEHASH: u8 = 0x3F;

pub const SHL: u8 = 0x1B;

pub const SHR: u8 = 0x1C;

pub const SAR: u8 = 0x1D;

pub const CLZ: u8 = 0x1E;

pub const CREATE2: u8 = 0xF5;

pub const CHAINID: u8 = 0x46;

pub const SELFBALANCE: u8 = 0x47;

pub const BASEFEE: u8 = 0x48;

pub const BLOBHASH: u8 = 0x49;

pub const BLOBBASEFEE: u8 = 0x4A;

pub const SLOTNUM: u8 = 0x4B;

pub const SSTORE: u8 = 0x55;

pub const TLOAD: u8 = 0x5C;

pub const TSTORE: u8 = 0x5D;

pub const MCOPY: u8 = 0x5E;

pub const PUSH0: u8 = 0x5F;

pub const DUPN: u8 = 0xE6;

pub const SWAPN: u8 = 0xE7;

pub const EXCHANGE: u8 = 0xE8;

/// An entry of the opcode table.
#[derive(Debug)]
pub struct OpcodeInfo {
    /// The opcode's mnemonic.
    pub name: String,
    /// Words taken from the stack.
    pub inputs: u8,
    /// Words left on the stack.
    pub outputs: u8,
}

/// What an [`OpcodeInfo`] says.
pub struct OpcodeInfoView {
    pub name: Seq<char>,
    pub inputs: u8,
    pub outputs: u8,
}

impl View for OpcodeInfo {
    type V = OpcodeInfoView;

    open spec fn view(&self) -> OpcodeInfoView {
        OpcodeInfoView { name: self.name@, inputs: self.inputs, outputs: self.outputs }
    }
}

/// What an optional table entry says.
pub open spec fn optional_info(info: Option<OpcodeInfo>) -> Option<OpcodeInfoView> {
    match info {
        Some(info) => Some(info@),
        None => None,
    }
}

/// The entry of revm's opcode table for a byte, if the byte is an opcode.
pub uninterp spec fn opcode_table(opcode: u8) -> Option<OpcodeInfoView>;

/// Looks a byte up with `revm::bytecode::opcode::OpCode::new` and reads the mnemonic and the
/// stack effect of the opcode it finds.
///
/// The table is fixed, so the entry is a function of the byte; which entry that is, is not said.
#[verifier::external_body]
pub(crate) fn lookup_opcode(opcode: u8) -> (r: Option<OpcodeInfo>)
    ensures
        optional_info(r) == opcode_table(opcode),
{
    OpCode::new(opcode).map(|op| OpcodeInfo {
        name: op.as_str().to_string(),
        inputs: op.inputs(),
        outputs: op.outputs(),
    })
}

/// What the error inspector reads of an interpreter between two instructions.
#[derive(Clone, Copy, Debug)]
pub struct InterpreterState {
    /// The opcode about to run, or just run.
    pub opcode: u8,
    /// The active fork.
    pub spec_id: SpecId,
    /// Words on the stack.
    pub stack_len: usize,
    /// The second word from the top of the stack, if there are two.
    pub second_word: Option<B256>,
    /// Gas left.
    pub gas_remaining: u64,
    /// The terminal result, once the frame has one.
    pub instruction_result: Option<InstructionResult>,
}

} // verus!
