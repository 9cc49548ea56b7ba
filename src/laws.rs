use vstd::prelude::*;

use crate::contract::{bid_floor, conserves_escrow, escrow_held, is_open, MarketView};
use crate::settlement::{escrow_inflow, Payment};
use crate::storage::AuctionStatus;

verus! {

/// What a run of settlements brings into escrow in total.
pub open spec fn total_inflow(flows: Seq<Seq<Payment>>) -> int
    decreases flows.len(),
{
    if flows.len() == 0 {
        0
    } else {
        total_inflow(flows.drop_last()) + escrow_inflow(flows.last())
    }
}

/// Escrow conservation over a whole run.
///
/// Take the states of auction `id` from its listing on, and the payments of
/// each operation between two of them, where every step conserves escrow (as
/// every operation of the marketplace ensures). Then the marketplace holds
/// for the auction exactly what those payments brought into escrow: the
/// leading bid while the auction is open, and nothing once it has ended.
pub proof fn custody_follows_escrow(states: Seq<MarketView>, flows: Seq<Seq<Payment>>, id: u64)
    requires
        states.len() == flows.len() + 1,
        states[0].auction(id).highest_bid is None,
        forall|k: int| 0 <= k < flows.len() ==> conserves_escrow(states[k], states[k + 1], id, #[trigger] flows[k]),
    ensures
        total_inflow(flows) == escrow_held(states.last().auction(id)),
        is_open(states.last().auction(id)) ==> total_inflow(flows) == bid_floor(states.last().auction(id)),
        states.last().auction(id).status == AuctionStatus::Ended ==> total_inflow(flows) == 0,
    decreases flows.len(),
{
    if flows.len() > 0 {
        let k = flows.len() - 1;
        custody_follows_escrow(states.drop_last(), flows.drop_last(), id);
        assert(conserves_escrow(states[k], states[k + 1], id, flows[k]));
        assert(states.drop_last().last() == states[k]);
    }
}

} // verus!
