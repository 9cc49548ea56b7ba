use vstd::prelude::*;

use crate::error::ContractError;

verus! {

/// First identifier scanned by a listing when no start is given.
pub const DEFAULT_INDEX: u64 = 1;

/// Width of the scanned range when no limit is given.
pub const DEFAULT_LIMIT: u64 = 10;

/// An account or contract identifier on the ledger.
#[derive(Clone, Copy, Debug, PartialEq, Eq, Hash, Structural)]
pub struct Address(pub u64);

/// What is being sold: `amount` units of `item_id` in the collection at `collection_addr`.
#[derive(Clone, Copy, Debug, PartialEq, Eq, Structural)]
pub struct ItemInfo {
    pub collection_addr: Address,
    pub item_id: u64,
    pub amount: u64,
    pub minimum_price: Option<u64>,
    pub buy_now_price: Option<u64>,
}

#[derive(Clone, Copy, Debug, PartialEq, Eq, Structural)]
pub enum AuctionStatus {
    Active,
    Ended,
    Cancelled,
    Paused,
}

#[derive(Clone, Copy, Debug, PartialEq, Eq, Structural)]
pub struct Auction {
    pub id: u64,
    pub item_info: ItemInfo,
    pub seller: Address,
    pub highest_bid: Option<u64>,
    pub end_time: u64,
    pub status: AuctionStatus,
    pub auction_token: Address,
}

/// The bid that currently leads an auction, and who placed it.
#[derive(Clone, Copy, Debug, PartialEq, Eq, Structural)]
pub struct HighestBid {
    pub bid: u64,
    pub bidder: Address,
}

#[derive(Clone, Copy, Debug, PartialEq, Eq, Structural)]
pub struct Config {
    pub auction_token: Address,
    pub auction_creation_fee: u128,
}

/// Every value is at least one.
pub open spec fn all_positive(values: Seq<u64>) -> bool {
    forall|i: int| 0 <= i < values.len() ==> values[i] >= 1
}

/// Rejects a list of numeric inputs in which some value is below one.
pub fn validate_input_params(values_to_check: &[u64]) -> (r: Result<(), ContractError>)
    ensures
        r is Ok <==> all_positive(values_to_check@),
        r is Err ==> r == Err::<(), ContractError>(ContractError::InvalidInputs),
{
    let mut i: usize = 0;
    while i < values_to_check.len()
        invariant
            0 <= i <= values_to_check@.len(),
            all_positive(values_to_check@.subrange(0, i as int)),
        decreases values_to_check@.len() - i,
    {
        if values_to_check[i] < 1 {
            assert(values_to_check@[i as int] < 1);
            return Err(ContractError::InvalidInputs);
        }
        assert(values_to_check@.subrange(0, i + 1) =~= values_to_check@.subrange(0, i as int).push(values_to_check@[i as int]));
        i += 1;
    }
    assert(values_to_check@.subrange(0, i as int) =~= values_to_check@);
    Ok(())
}

} // verus!
