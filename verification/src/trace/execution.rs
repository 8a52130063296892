//! The outcome of an execution, which must be what the block's stored data say.
use crate::block::{byte_views, receipt_views, Header, Log, Receipt};
use crate::block::{HeaderView, ReceiptView};
use crate::error::{mismatch, mismatch_error, RpcError};
use crate::fixed::{bytes_eq, B256};
use vstd::prelude::*;

verus! {

/// What executing a block gave.
#[derive(Debug)]
pub struct ExecutionOutcome {
    pub receipts: Vec<Receipt>,
    pub gas_used: u64,
    pub requests: Vec<Vec<u8>>,
}

/// What an [`ExecutionOutcome`] says.
pub struct OutcomeView {
    pub receipts: Seq<ReceiptView>,
    pub gas_used: u64,
    pub requests: Seq<Seq<u8>>,
}

impl View for ExecutionOutcome {
    type V = OutcomeView;

    open spec fn view(&self) -> OutcomeView {
        OutcomeView {
            receipts: receipt_views(self.receipts@),
            gas_used: self.gas_used,
            requests: byte_views(self.requests@),
        }
    }
}

/// Whether two logs are the same.
fn log_eq(a: &Log, b: &Log) -> (r: bool)
    ensures
        r == (a@ == b@),
{
    if a.address != b.address || a.topics.len() != b.topics.len() {
        assert(a@.topics.len() == a.topics.len());
        assert(b@.topics.len() == b.topics.len());
        return false;
    }
    let mut i: usize = 0;
    while i < a.topics.len()
        invariant
            i <= a.topics.len(),
            a.topics.len() == b.topics.len(),
            forall|k: int| 0 <= k < i ==> a.topics@[k] == b.topics@[k],
        decreases a.topics.len() - i,
    {
        if a.topics[i] != b.topics[i] {
            assert(a@.topics[i as int] != b@.topics[i as int]);
            return false;
        }
        i = i + 1;
    }
    assert(a.topics@ =~= b.topics@);
    bytes_eq(&a.data, &b.data)
}

/// Whether two receipts are the same.
fn receipt_eq(a: &Receipt, b: &Receipt) -> (r: bool)
    ensures
        r == (a@ == b@),
{
    if a.tx_type != b.tx_type || a.success != b.success || a.cumulative_gas_used
        != b.cumulative_gas_used || a.logs.len() != b.logs.len() {
        assert(a@.logs.len() == a.logs.len());
        assert(b@.logs.len() == b.logs.len());
        return false;
    }
    let mut i: usize = 0;
    while i < a.logs.len()
        invariant
            i <= a.logs.len(),
            a.logs.len() == b.logs.len(),
            forall|k: int| 0 <= k < i ==> (#[trigger] a.logs@[k])@ == b.logs@[k]@,
        decreases a.logs.len() - i,
    {
        if !log_eq(&a.logs[i], &b.logs[i]) {
            assert(a@.logs[i as int] != b@.logs[i as int]);
            return false;
        }
        i = i + 1;
    }
    assert(a@.logs =~= b@.logs);
    true
}

/// Whether two lists of receipts are the same.
pub fn receipts_eq(a: &Vec<Receipt>, b: &Vec<Receipt>) -> (r: bool)
    ensures
        r == (receipt_views(a@) == receipt_views(b@)),
{
    if a.len() != b.len() {
        assert(receipt_views(a@).len() != receipt_views(b@).len());
        return false;
    }
    let mut i: usize = 0;
    while i < a.len()
        invariant
            i <= a.len(),
            a.len() == b.len(),
            forall|k: int| 0 <= k < i ==> (#[trigger] a@[k])@ == b@[k]@,
        decreases a.len() - i,
    {
        if !receipt_eq(&a[i], &b[i]) {
            assert(receipt_views(a@)[i as int] != receipt_views(b@)[i as int]);
            return false;
        }
        i = i + 1;
    }
    assert(receipt_views(a@) =~= receipt_views(b@));
    true
}

/// Whether an execution gave what the block's stored receipts and header say.
pub open spec fn execution_agrees(
    header: HeaderView,
    stored_receipts: Seq<ReceiptView>,
    is_unzen_active: bool,
    receipts: Seq<ReceiptView>,
    gas_used: u64,
    requests_hash: B256,
) -> bool {
    &&& receipts == stored_receipts
    &&& gas_used == header.gas_used
    &&& header.requests_hash == if is_unzen_active {
        Some(requests_hash)
    } else {
        None
    }
}

/// Checks what an execution gave, and the hash of its requests, against the block's stored
/// receipts and header.
pub fn check_execution(
    header: &Header,
    stored_receipts: &Vec<Receipt>,
    is_unzen_active: bool,
    outcome: &ExecutionOutcome,
    requests_hash: B256,
) -> (r: Result<(), RpcError>)
    ensures
        r is Ok <==> execution_agrees(
            header@,
            receipt_views(stored_receipts@),
            is_unzen_active,
            outcome@.receipts,
            outcome.gas_used,
            requests_hash,
        ),
        r matches Err(error) ==> error@ == mismatch(
            "replayed receipts, gasUsed, or requests differ from the header"@,
        ),
{
    let requests_match = if is_unzen_active {
        header.requests_hash == Some(requests_hash)
    } else {
        header.requests_hash.is_none()
    };
    if !receipts_eq(&outcome.receipts, stored_receipts) || outcome.gas_used
        != header.gas_used || !requests_match {
        return Err(
            mismatch_error(
                String::from_str("replayed receipts, gasUsed, or requests differ from the header"),
            ),
        );
    }
    Ok(())
}

} // verus!
