//! Block-file transactions from stored blocks and receipts.
use crate::block::{receipt_views, transaction_views, Receipt, RecoveredBlock, Transaction};
use crate::block::{ReceiptView, TransactionView};
use crate::commitments::{capped_price, create_address, created_address, effective_gas_price};
use crate::fixed::{copy_bytes, Address, U256};
use crate::text::{hex_string, hex_text};
use crate::trace::consensus::total_gas;
use vstd::prelude::*;

verus! {

/// A transaction of a block file.
#[derive(Debug)]
pub struct DebankTransaction {
    /// Hash of the transaction as text.
    pub id: String,
    pub from: Address,
    /// Recipient, or the contract that the transaction creates.
    pub to: Address,
    pub gas_limit: u64,
    pub gas_price: u128,
    pub gas_used: u64,
    pub status: bool,
    pub gas_fee_cap: u128,
    pub gas_tip_cap: u128,
    pub input: Vec<u8>,
    pub nonce: u64,
    pub transaction_index: u64,
    pub value: U256,
}

/// What a [`DebankTransaction`] says.
#[verifier::ext_equal]
pub struct DebankTransactionView {
    pub id: Seq<char>,
    pub from: Address,
    pub to: Address,
    pub gas_limit: u64,
    pub gas_price: int,
    pub gas_used: int,
    pub status: bool,
    pub gas_fee_cap: u128,
    pub gas_tip_cap: u128,
    pub input: Seq<u8>,
    pub nonce: u64,
    pub transaction_index: int,
    pub value: U256,
}

impl View for DebankTransaction {
    type V = DebankTransactionView;

    open spec fn view(&self) -> DebankTransactionView {
        DebankTransactionView {
            id: self.id@,
            from: self.from,
            to: self.to,
            gas_limit: self.gas_limit,
            gas_price: self.gas_price as int,
            gas_used: self.gas_used as int,
            status: self.status,
            gas_fee_cap: self.gas_fee_cap,
            gas_tip_cap: self.gas_tip_cap,
            input: self.input@,
            nonce: self.nonce,
            transaction_index: self.transaction_index as int,
            value: self.value,
        }
    }
}

/// Gas used by one transaction: the difference of its cumulative gas to that of the one before it,
/// or nothing if the cumulative gas falls.
pub open spec fn gas_used_by(receipts: Seq<ReceiptView>, i: int) -> int {
    let before = if i == 0 {
        0
    } else {
        receipts[i - 1].cumulative_gas_used as int
    };
    let after = receipts[i].cumulative_gas_used as int;
    if after >= before {
        after - before
    } else {
        0
    }
}

/// The block-file fee cap and tip cap: zero for a transaction without fee caps.
pub open spec fn fee_caps(transaction: TransactionView) -> (u128, u128) {
    match transaction.max_priority_fee_per_gas {
        Some(tip) => (transaction.max_fee_per_gas, tip),
        None => (0, 0),
    }
}

/// The gas price that a transaction pays in a block with the given base fee.
pub open spec fn price_paid(transaction: TransactionView, base_fee: Option<u64>) -> int {
    match transaction.max_priority_fee_per_gas {
        Some(tip) => capped_price(transaction.max_fee_per_gas, tip, base_fee),
        None => transaction.max_fee_per_gas as int,
    }
}

/// The block-file recipient of a transaction.
pub open spec fn recipient(to: Option<Address>, signer: Address, nonce: u64) -> Address {
    match to {
        Some(to) => to,
        None => created_address(signer, nonce),
    }
}

/// The block-file transaction for the transaction at position `i`.
pub open spec fn debank_transaction(
    transactions: Seq<TransactionView>,
    senders: Seq<Address>,
    receipts: Seq<ReceiptView>,
    base_fee: Option<u64>,
    i: int,
) -> DebankTransactionView {
    let transaction = transactions[i];
    DebankTransactionView {
        id: hex_text(transaction.hash.0@),
        from: senders[i],
        to: recipient(transaction.to, senders[i], transaction.nonce),
        gas_limit: transaction.gas_limit,
        gas_price: price_paid(transaction, base_fee),
        gas_used: gas_used_by(receipts, i),
        status: receipts[i].success,
        gas_fee_cap: fee_caps(transaction).0,
        gas_tip_cap: fee_caps(transaction).1,
        input: transaction.input,
        nonce: transaction.nonce,
        transaction_index: i,
        value: transaction.value,
    }
}

/// Block-file transactions, one for each transaction that has a receipt.
pub open spec fn debank_transactions(
    transactions: Seq<TransactionView>,
    senders: Seq<Address>,
    receipts: Seq<ReceiptView>,
    base_fee: Option<u64>,
) -> Seq<DebankTransactionView> {
    Seq::new(
        if transactions.len() <= receipts.len() {
            transactions.len()
        } else {
            receipts.len()
        },
        |i: int| debank_transaction(transactions, senders, receipts, base_fee, i),
    )
}

/// What a list of block-file transactions says.
pub open spec fn debank_transaction_views(transactions: Seq<DebankTransaction>) -> Seq<
    DebankTransactionView,
> {
    Seq::new(transactions.len(), |i: int| transactions[i]@)
}

/// Returns the block-file fee cap fields used by the legacy pipeline.
pub fn blockfile_fee_caps(transaction: &Transaction) -> (r: (u128, u128))
    ensures
        r == fee_caps(transaction@),
{
    match transaction.max_priority_fee_per_gas {
        Some(tip) => (transaction.max_fee_per_gas, tip),
        None => (0, 0),
    }
}

/// Returns the historical block-file recipient, including the derived CREATE address.
pub fn blockfile_transaction_to(to: Option<Address>, signer: Address, nonce: u64) -> (r: Address)
    ensures
        r == recipient(to, signer, nonce),
{
    match to {
        Some(to) => to,
        None => create_address(signer, nonce),
    }
}

/// Returns the gas price that a transaction pays in a block with the given base fee.
pub fn transaction_gas_price(transaction: &Transaction, base_fee: Option<u64>) -> (r: u128)
    ensures
        r == price_paid(transaction@, base_fee),
{
    match transaction.max_priority_fee_per_gas {
        Some(tip) => effective_gas_price(transaction.max_fee_per_gas, tip, base_fee),
        None => transaction.max_fee_per_gas,
    }
}

/// Builds block-file transactions from exact stored primitive receipts.
pub fn build_transactions(block: &RecoveredBlock, receipts: &Vec<Receipt>) -> (r: Vec<
    DebankTransaction,
>)
    requires
        block.well_formed(),
    ensures
        debank_transaction_views(r@) == debank_transactions(
            block.block@.transactions,
            block.senders@,
            receipt_views(receipts@),
            block.block.header.base_fee_per_gas,
        ),
        r.len() <= block.block.transactions.len(),
        r.len() <= receipts.len(),
        forall|i: int|
            0 <= i < r.len() ==> {
                let transaction = block.block.transactions@[i];
                &&& (#[trigger] r@[i]).from == block.senders@[i]
                &&& r@[i].id@ == hex_text(transaction.hash.0@)
                &&& r@[i].nonce == transaction.nonce
                &&& r@[i].input@ == transaction.input@
                &&& r@[i].value == transaction.value
                &&& r@[i].gas_limit == transaction.gas_limit
                &&& r@[i].status == receipts@[i].success
                &&& r@[i].transaction_index == i
            },
{
    let transactions = &block.block.transactions;
    let base_fee = block.block.header.base_fee_per_gas;
    let ghost views = transaction_views(transactions@);
    let ghost stored = receipt_views(receipts@);
    let mut r: Vec<DebankTransaction> = Vec::new();
    let mut prior_cumulative_gas: u64 = 0;
    let mut index: usize = 0;
    while index < transactions.len() && index < receipts.len()
        invariant
            index <= transactions.len(),
            index <= receipts.len(),
            block.well_formed(),
            transactions == &block.block.transactions,
            base_fee == block.block.header.base_fee_per_gas,
            views == transaction_views(transactions@),
            stored == receipt_views(receipts@),
            r.len() == index,
            prior_cumulative_gas == if index == 0 {
                0
            } else {
                stored[index - 1].cumulative_gas_used
            },
            forall|k: int|
                0 <= k < index ==> (#[trigger] r@[k])@ == debank_transaction(
                    views,
                    block.senders@,
                    stored,
                    base_fee,
                    k,
                ),
        decreases transactions.len() - index,
    {
        let transaction = &transactions[index];
        let signer = block.senders[index];
        assert(views[index as int] == transaction@);
        assert(stored[index as int] == receipts@[index as int]@);
        let cumulative_gas: u64 = receipts[index].cumulative_gas_used;
        let gas_used: u64 = if cumulative_gas >= prior_cumulative_gas {
            cumulative_gas - prior_cumulative_gas
        } else {
            0
        };
        prior_cumulative_gas = cumulative_gas;
        let (gas_fee_cap, gas_tip_cap) = blockfile_fee_caps(transaction);
        let entry = DebankTransaction {
            id: hex_string(&transaction.hash.0),
            from: signer,
            to: blockfile_transaction_to(transaction.to, signer, transaction.nonce),
            gas_limit: transaction.gas_limit,
            gas_price: transaction_gas_price(transaction, base_fee),
            gas_used,
            status: receipts[index].success,
            gas_fee_cap,
            gas_tip_cap,
            input: copy_bytes(&transaction.input),
            nonce: transaction.nonce,
            transaction_index: index as u64,
            value: transaction.value,
        };
        assert(entry@ =~= debank_transaction(
            views,
            block.senders@,
            stored,
            base_fee,
            index as int,
        ));
        r.push(entry);
        index = index + 1;
    }
    assert(debank_transaction_views(r@) =~= debank_transactions(
        views,
        block.senders@,
        stored,
        base_fee,
    ));
    assert forall|i: int| 0 <= i < r.len() implies (#[trigger] r@[i])@ == debank_transaction(
        views,
        block.senders@,
        stored,
        base_fee,
        i,
    ) && views[i] == transactions@[i]@ && stored[i] == receipts@[i]@ by {}
    r
}

/// Gas used by the first `n` transactions.
pub open spec fn gas_sum(receipts: Seq<ReceiptView>, n: int) -> int
    decreases n,
{
    if n <= 0 {
        0
    } else {
        gas_sum(receipts, n - 1) + gas_used_by(receipts, n - 1)
    }
}

/// Where cumulative gas never falls, the gas used by a block's transactions adds up to the gas
/// used by the block.
pub proof fn gas_adds_up(receipts: Seq<ReceiptView>)
    requires
        forall|i: int, j: int|
            0 <= i <= j < receipts.len() ==> (#[trigger] receipts[i]).cumulative_gas_used <= (
            #[trigger] receipts[j]).cumulative_gas_used,
    ensures
        gas_sum(receipts, receipts.len() as int) == total_gas(receipts),
{
    gas_sum_is_cumulative(receipts, receipts.len() as int);
}

/// Where cumulative gas never falls, it is the gas used so far.
proof fn gas_sum_is_cumulative(receipts: Seq<ReceiptView>, n: int)
    requires
        0 <= n <= receipts.len(),
        forall|i: int, j: int|
            0 <= i <= j < receipts.len() ==> (#[trigger] receipts[i]).cumulative_gas_used <= (
            #[trigger] receipts[j]).cumulative_gas_used,
    ensures
        gas_sum(receipts, n) == if n == 0 {
            0
        } else {
            receipts[n - 1].cumulative_gas_used as int
        },
    decreases n,
{
    if n > 0 {
        gas_sum_is_cumulative(receipts, n - 1);
        if n > 1 {
            assert(receipts[n - 2].cumulative_gas_used <= receipts[n - 1].cumulative_gas_used);
        }
    }
}

/// A transaction with fee caps never pays more than its fee cap, and above the base fee never more
/// than its tip cap.
pub proof fn price_respects_caps(transaction: TransactionView, base_fee: u64)
    requires
        transaction.max_priority_fee_per_gas is Some,
    ensures
        price_paid(transaction, Some(base_fee)) <= transaction.max_fee_per_gas,
        price_paid(transaction, Some(base_fee)) <= transaction.max_priority_fee_per_gas->0
            + base_fee,
{
}

/// There is one entry for each transaction that has a receipt, and the entry at position `i` speaks
/// of the transaction, the sender and the receipt at position `i`: the hash as the id, the sender, the
/// recipient or else the address that the sender creates with the nonce, the outcome, and what the
/// transaction itself carries.
pub proof fn entries_speak_of_their_transaction(
    transactions: Seq<TransactionView>,
    senders: Seq<Address>,
    receipts: Seq<ReceiptView>,
    base_fee: Option<u64>,
)
    ensures
        ({
            let entries = debank_transactions(transactions, senders, receipts, base_fee);
            &&& entries.len() <= transactions.len()
            &&& entries.len() <= receipts.len()
            &&& entries.len() == transactions.len() || entries.len() == receipts.len()
            &&& forall|i: int|
                0 <= i < entries.len() ==> {
                    &&& (#[trigger] entries[i]).transaction_index == i
                    &&& entries[i].id == hex_text(transactions[i].hash.0@)
                    &&& entries[i].from == senders[i]
                    &&& transactions[i].to matches Some(to) ==> entries[i].to == to
                    &&& transactions[i].to is None ==> entries[i].to == created_address(
                        senders[i],
                        transactions[i].nonce,
                    )
                    &&& entries[i].gas_limit == transactions[i].gas_limit
                    &&& entries[i].nonce == transactions[i].nonce
                    &&& entries[i].input == transactions[i].input
                    &&& entries[i].value == transactions[i].value
                    &&& entries[i].status == receipts[i].success
                }
        }),
{
}

/// The entry at a position does not depend on other transactions and senders, nor on receipts other
/// than its own and the one before it: blocks that agree there have the same entry there.
pub proof fn entries_are_independent(
    a: (Seq<TransactionView>, Seq<Address>, Seq<ReceiptView>),
    b: (Seq<TransactionView>, Seq<Address>, Seq<ReceiptView>),
    base_fee: Option<u64>,
    i: int,
)
    requires
        0 <= i < a.0.len(),
        0 <= i < a.2.len(),
        0 <= i < b.0.len(),
        0 <= i < b.2.len(),
        a.0[i] == b.0[i],
        a.1[i] == b.1[i],
        a.2[i] == b.2[i],
        i > 0 ==> a.2[i - 1].cumulative_gas_used == b.2[i - 1].cumulative_gas_used,
    ensures
        debank_transactions(a.0, a.1, a.2, base_fee)[i] == debank_transactions(
            b.0,
            b.1,
            b.2,
            base_fee,
        )[i],
{
}

/// The gas of an entry takes the cumulative gas from that of the receipt before it, or from nothing,
/// to that of its own receipt; where the cumulative gas falls it is zero.
pub proof fn entries_use_the_gas_between_receipts(
    transactions: Seq<TransactionView>,
    senders: Seq<Address>,
    receipts: Seq<ReceiptView>,
    base_fee: Option<u64>,
    i: int,
)
    requires
        0 <= i < transactions.len(),
        0 <= i < receipts.len(),
    ensures
        ({
            let used = debank_transactions(transactions, senders, receipts, base_fee)[i].gas_used;
            let after = receipts[i].cumulative_gas_used;
            &&& i == 0 ==> used == after
            &&& i > 0 && receipts[i - 1].cumulative_gas_used <= after
                ==> receipts[i - 1].cumulative_gas_used + used == after
            &&& i > 0 && receipts[i - 1].cumulative_gas_used > after ==> used == 0
        }),
{
}

/// A transaction without fee caps is shown with its gas price and without caps. One with fee caps is
/// shown with both, and pays the tip on top of the base fee or the fee cap, whichever is less;
/// without a base fee it pays the fee cap.
pub proof fn entries_show_what_is_paid(
    transactions: Seq<TransactionView>,
    senders: Seq<Address>,
    receipts: Seq<ReceiptView>,
    base_fee: Option<u64>,
    i: int,
)
    requires
        0 <= i < transactions.len(),
        0 <= i < receipts.len(),
    ensures
        ({
            let entry = debank_transactions(transactions, senders, receipts, base_fee)[i];
            let cap = transactions[i].max_fee_per_gas;
            match transactions[i].max_priority_fee_per_gas {
                None => {
                    &&& entry.gas_price == cap
                    &&& entry.gas_fee_cap == 0
                    &&& entry.gas_tip_cap == 0
                },
                Some(tip) => {
                    &&& entry.gas_fee_cap == cap
                    &&& entry.gas_tip_cap == tip
                    &&& base_fee is None ==> entry.gas_price == cap
                    &&& base_fee matches Some(fee) ==> {
                        &&& entry.gas_price <= cap
                        &&& entry.gas_price <= fee + tip
                        &&& entry.gas_price == cap || entry.gas_price == fee + tip
                    }
                },
            }
        }),
{
}

} // verus!
