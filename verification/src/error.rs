//! JSON-RPC errors with a machine-readable reason.
use vstd::prelude::*;

verus! {

/// RPC error code for blocks that changed canonical identity during replay.
pub const BLOCK_REORGED: i32 = -32_010;

/// RPC error code for unavailable exact-hash history.
pub const BLOCK_OR_HISTORY_UNAVAILABLE: i32 = -32_011;

/// RPC error code for replay artifacts that disagree with stored consensus data.
pub const EXECUTION_CONSENSUS_MISMATCH: i32 = -32_012;

/// RPC error code for a deadline or disconnected-client cancellation.
pub const REQUEST_CANCELLED: i32 = -32_013;

/// A JSON-RPC error object: its code, its machine-readable reason and its detail.
#[derive(Debug)]
pub struct RpcError {
    pub code: i32,
    pub message: String,
    pub data: String,
}

/// What an [`RpcError`] says.
pub struct RpcErrorView {
    pub code: i32,
    pub message: Seq<char>,
    pub data: Seq<char>,
}

impl View for RpcError {
    type V = RpcErrorView;

    open spec fn view(&self) -> RpcErrorView {
        RpcErrorView { code: self.code, message: self.message@, data: self.data@ }
    }
}

/// The error for a block that is no longer canonical.
pub open spec fn reorged(detail: Seq<char>) -> RpcErrorView {
    RpcErrorView { code: BLOCK_REORGED, message: "BLOCK_REORGED"@, data: detail }
}

/// The error for a block or a history that cannot be read.
pub open spec fn unavailable(detail: Seq<char>) -> RpcErrorView {
    RpcErrorView {
        code: BLOCK_OR_HISTORY_UNAVAILABLE,
        message: "BLOCK_OR_HISTORY_UNAVAILABLE"@,
        data: detail,
    }
}

/// The error for a replay that disagrees with stored consensus data.
pub open spec fn mismatch(detail: Seq<char>) -> RpcErrorView {
    RpcErrorView {
        code: EXECUTION_CONSENSUS_MISMATCH,
        message: "EXECUTION_CONSENSUS_MISMATCH"@,
        data: detail,
    }
}

/// The error for a request that was cancelled or ran into its deadline.
pub open spec fn cancelled(detail: Seq<char>) -> RpcErrorView {
    RpcErrorView { code: REQUEST_CANCELLED, message: "REQUEST_CANCELLED"@, data: detail }
}

/// Builds a stable JSON-RPC error object with a machine-readable reason.
pub fn rpc_error(code: i32, reason: &str, detail: String) -> (r: RpcError)
    ensures
        r@ == (RpcErrorView { code, message: reason@, data: detail@ }),
{
    RpcError { code, message: String::from_str(reason), data: detail }
}

/// The error for a block that is no longer canonical.
pub fn reorged_error(detail: String) -> (r: RpcError)
    ensures
        r@ == reorged(detail@),
{
    rpc_error(BLOCK_REORGED, "BLOCK_REORGED", detail)
}

/// The error for a block or a history that cannot be read.
pub fn unavailable_error(detail: String) -> (r: RpcError)
    ensures
        r@ == unavailable(detail@),
{
    rpc_error(BLOCK_OR_HISTORY_UNAVAILABLE, "BLOCK_OR_HISTORY_UNAVAILABLE", detail)
}

/// The error for a replay that disagrees with stored consensus data.
pub fn mismatch_error(detail: String) -> (r: RpcError)
    ensures
        r@ == mismatch(detail@),
{
    rpc_error(EXECUTION_CONSENSUS_MISMATCH, "EXECUTION_CONSENSUS_MISMATCH", detail)
}

/// The error for a request that was cancelled or ran into its deadline.
pub fn cancelled_error(detail: String) -> (r: RpcError)
    ensures
        r@ == cancelled(detail@),
{
    rpc_error(REQUEST_CANCELLED, "REQUEST_CANCELLED", detail)
}

/// Every reason has its own code and passes its detail on.
pub proof fn reasons_have_their_codes(detail: Seq<char>)
    ensures
        reorged(detail).code == -32_010,
        unavailable(detail).code == -32_011,
        mismatch(detail).code == -32_012,
        cancelled(detail).code == -32_013,
        reorged(detail).message == "BLOCK_REORGED"@,
        unavailable(detail).message == "BLOCK_OR_HISTORY_UNAVAILABLE"@,
        mismatch(detail).message == "EXECUTION_CONSENSUS_MISMATCH"@,
        cancelled(detail).message == "REQUEST_CANCELLED"@,
        reorged(detail).data == detail,
        unavailable(detail).data == detail,
        mismatch(detail).data == detail,
        cancelled(detail).data == detail,
{
}

} // verus!
