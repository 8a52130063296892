//! Engine API messages as plain values.
use crate::block::{byte_views, withdrawal_list, Withdrawal};
use crate::fixed::{Address, Bloom, B256, U256};
use vstd::prelude::*;

verus! {

/// An execution payload. A legacy payload carries no transactions, only their root in the
/// sidecar.
#[derive(Debug)]
pub struct TaikoExecutionPayloadV1 {
    pub parent_hash: B256,
    pub fee_recipient: Address,
    pub state_root: B256,
    pub receipts_root: B256,
    pub logs_bloom: Bloom,
    pub prev_randao: B256,
    pub block_number: u64,
    pub gas_limit: u64,
    pub gas_used: u64,
    pub timestamp: u64,
    pub extra_data: Vec<u8>,
    pub base_fee_per_gas: U256,
    pub block_hash: B256,
    /// EIP-2718 encodings of the transactions.
    pub transactions: Option<Vec<Vec<u8>>>,
}

/// What a [`TaikoExecutionPayloadV1`] says.
#[verifier::ext_equal]
pub struct PayloadView {
    pub parent_hash: B256,
    pub fee_recipient: Address,
    pub state_root: B256,
    pub receipts_root: B256,
    pub logs_bloom: Bloom,
    pub prev_randao: B256,
    pub block_number: u64,
    pub gas_limit: u64,
    pub gas_used: u64,
    pub timestamp: u64,
    pub extra_data: Seq<u8>,
    pub base_fee_per_gas: U256,
    pub block_hash: B256,
    pub transactions: Option<Seq<Seq<u8>>>,
}

impl View for TaikoExecutionPayloadV1 {
    type V = PayloadView;

    open spec fn view(&self) -> PayloadView {
        PayloadView {
            parent_hash: self.parent_hash,
            fee_recipient: self.fee_recipient,
            state_root: self.state_root,
            receipts_root: self.receipts_root,
            logs_bloom: self.logs_bloom,
            prev_randao: self.prev_randao,
            block_number: self.block_number,
            gas_limit: self.gas_limit,
            gas_used: self.gas_used,
            timestamp: self.timestamp,
            extra_data: self.extra_data@,
            base_fee_per_gas: self.base_fee_per_gas,
            block_hash: self.block_hash,
            transactions: match self.transactions {
                Some(transactions) => Some(byte_views(transactions@)),
                None => None,
            },
        }
    }
}

/// What Taiko adds to a payload.
#[derive(Clone, Copy, Debug)]
pub struct TaikoExecutionDataSidecar {
    /// Root of the transactions.
    pub tx_hash: B256,
    /// Root of the withdrawals.
    pub withdrawals_hash: Option<B256>,
    /// Difficulty of the header.
    pub header_difficulty: Option<U256>,
    /// Marks a Taiko block.
    pub taiko_block: Option<bool>,
}

/// A payload with its withdrawals and its sidecar.
#[derive(Debug)]
pub struct TaikoExecutionData {
    pub execution_payload: TaikoExecutionPayloadV1,
    pub withdrawals: Option<Vec<Withdrawal>>,
    pub taiko_sidecar: TaikoExecutionDataSidecar,
}

/// What a [`TaikoExecutionData`] says.
pub struct ExecutionDataView {
    pub execution_payload: PayloadView,
    pub withdrawals: Option<Seq<Withdrawal>>,
    pub taiko_sidecar: TaikoExecutionDataSidecar,
}

impl View for TaikoExecutionData {
    type V = ExecutionDataView;

    open spec fn view(&self) -> ExecutionDataView {
        ExecutionDataView {
            execution_payload: self.execution_payload@,
            withdrawals: withdrawal_list(self.withdrawals),
            taiko_sidecar: self.taiko_sidecar,
        }
    }
}

/// What is read of the attributes of a payload to build.
#[derive(Debug)]
pub struct TaikoPayloadAttributes {
    pub timestamp: u64,
    pub withdrawals: Option<Vec<Withdrawal>>,
}

/// An object of an Engine API message.
#[derive(Debug)]
pub enum PayloadOrAttributes<'a> {
    ExecutionPayload(&'a TaikoExecutionData),
    PayloadAttributes(&'a TaikoPayloadAttributes),
}

/// Versions of Engine API messages.
#[derive(Clone, Copy, Debug, PartialEq, Eq, Structural)]
pub enum EngineApiMessageVersion {
    V1,
    V2,
    V3,
    V4,
    V5,
}

/// The kind of object that an Engine API message carries.
#[derive(Clone, Copy, Debug, PartialEq, Eq, Structural)]
pub enum MessageValidationKind {
    PayloadAttributes,
    Payload,
}

/// Why an object does not fit the version of its message.
#[derive(Clone, Copy, Debug, PartialEq, Eq, Structural)]
pub enum VersionSpecificValidationError {
    WithdrawalsNotSupportedInV1,
    NoWithdrawalsPostShanghai,
    HasWithdrawalsPreShanghai,
}

/// An object that does not fit the version of its message.
#[derive(Clone, Copy, Debug, PartialEq, Eq, Structural)]
pub struct EngineObjectValidationError {
    pub kind: MessageValidationKind,
    pub error: VersionSpecificValidationError,
}

impl EngineObjectValidationError {
    /// What is wrong with the object, whatever its kind, in this library's words.
    pub fn message(&self) -> (r: String)
        ensures
            r@ == match self.error {
                VersionSpecificValidationError::WithdrawalsNotSupportedInV1 =>
                    "withdrawals not supported in V1"@,
                VersionSpecificValidationError::NoWithdrawalsPostShanghai =>
                    "no withdrawals post-Shanghai"@,
                VersionSpecificValidationError::HasWithdrawalsPreShanghai =>
                    "withdrawals pre-Shanghai"@,
            },
    {
        String::from_str(
            match self.error {
                VersionSpecificValidationError::WithdrawalsNotSupportedInV1 =>
                    "withdrawals not supported in V1",
                VersionSpecificValidationError::NoWithdrawalsPostShanghai =>
                    "no withdrawals post-Shanghai",
                VersionSpecificValidationError::HasWithdrawalsPreShanghai =>
                    "withdrawals pre-Shanghai",
            },
        )
    }
}

/// Why payload attributes cannot follow a header.
#[derive(Clone, Copy, Debug, PartialEq, Eq, Structural)]
pub enum InvalidPayloadAttributesError {
    InvalidTimestamp,
}

} // verus!
