use vstd::prelude::*;

use crate::storage::Address;

verus! {

/// One side of a fungible transfer: the marketplace's own custody, or an account.
#[derive(Clone, Copy, Debug, PartialEq, Eq, Structural)]
pub enum Holder {
    Escrow,
    Account(Address),
}

/// A transfer of `amount` units of the fungible asset `asset`.
#[derive(Clone, Copy, Debug, PartialEq, Eq, Structural)]
pub struct Payment {
    pub asset: Address,
    pub from: Holder,
    pub to: Holder,
    pub amount: u64,
}

/// A transfer of `amount` units of item `item_id` in the registry at `collection_addr`.
#[derive(Clone, Copy, Debug, PartialEq, Eq, Structural)]
pub struct ItemTransfer {
    pub collection_addr: Address,
    pub item_id: u64,
    pub from: Address,
    pub to: Address,
    pub amount: u64,
}

/// The outside transfers that a state change depends on.
///
/// The change stands only if every payment and then every item transfer
/// succeeds, in order; if one fails, the whole operation is void.
#[derive(Debug, PartialEq, Eq)]
pub struct Settlement {
    pub payments: Vec<Payment>,
    pub items: Vec<ItemTransfer>,
}

/// What the payments move into escrow, less what they move out of it.
pub open spec fn escrow_inflow(payments: Seq<Payment>) -> int
    decreases payments.len(),
{
    if payments.len() == 0 {
        0
    } else {
        let p = payments.last();
        let rest = escrow_inflow(payments.drop_last());
        let into: int = if p.to == Holder::Escrow { p.amount as int } else { 0 };
        let out: int = if p.from == Holder::Escrow { p.amount as int } else { 0 };
        rest + into - out
    }
}

/// What the payments move to `who`, less what they take from `who`.
pub open spec fn net_received(payments: Seq<Payment>, who: Address) -> int
    decreases payments.len(),
{
    if payments.len() == 0 {
        0
    } else {
        let p = payments.last();
        let rest = net_received(payments.drop_last(), who);
        let into: int = if p.to == Holder::Account(who) { p.amount as int } else { 0 };
        let out: int = if p.from == Holder::Account(who) { p.amount as int } else { 0 };
        rest + into - out
    }
}

impl Settlement {
    pub fn empty() -> (r: Settlement)
        ensures
            r.payments@ == Seq::<Payment>::empty(),
            r.items@ == Seq::<ItemTransfer>::empty(),
    {
        Settlement { payments: Vec::new(), items: Vec::new() }
    }
}


/// Escrow flow and per-account flow of one or two payments.
pub proof fn lemma_flows_of_pair(p: Payment, q: Payment, who: Address)
    ensures
        escrow_inflow(seq![p]) == escrow_inflow(Seq::<Payment>::empty()) + (if p.to == Holder::Escrow {
            p.amount as int
        } else {
            0
        }) - (if p.from == Holder::Escrow {
            p.amount as int
        } else {
            0
        }),
        escrow_inflow(seq![p, q]) == escrow_inflow(seq![p]) + (if q.to == Holder::Escrow {
            q.amount as int
        } else {
            0
        }) - (if q.from == Holder::Escrow {
            q.amount as int
        } else {
            0
        }),
        net_received(seq![p], who) == (if p.to == Holder::Account(who) {
            p.amount as int
        } else {
            0
        }) - (if p.from == Holder::Account(who) {
            p.amount as int
        } else {
            0
        }),
        net_received(seq![p, q], who) == net_received(seq![p], who) + (if q.to == Holder::Account(
            who,
        ) {
            q.amount as int
        } else {
            0
        }) - (if q.from == Holder::Account(who) {
            q.amount as int
        } else {
            0
        }),
{
    assert(seq![p].drop_last() =~= Seq::<Payment>::empty());
    assert(seq![p, q].drop_last() =~= seq![p]);
    assert(escrow_inflow(Seq::<Payment>::empty()) == 0);
    assert(net_received(Seq::<Payment>::empty(), who) == 0);
}

} // verus!
