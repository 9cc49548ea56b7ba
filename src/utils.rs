use vstd::prelude::*;

use crate::error::ContractError;
use crate::storage::{Auction, AuctionStatus};

verus! {

/// The leading bid reaches the minimum price; with no minimum it always does.
pub open spec fn min_price_met(a: Auction) -> bool {
    match a.item_info.minimum_price {
        None => true,
        Some(min) => match a.highest_bid {
            Some(b) => b >= min,
            None => false,
        },
    }
}

pub fn minimum_price_reached(auction: &Auction) -> (r: bool)
    ensures
        r == min_price_met(*auction),
{
    match auction.item_info.minimum_price {
        None => true,
        Some(min_price) => match auction.highest_bid {
            Some(highest_bid) => highest_bid >= min_price,
            None => false,
        },
    }
}

/// An auction can be settled once it is active and its end time has come.
pub fn check_auction_can_be_finalized(auction: &Auction, now: u64) -> (r: Result<(), ContractError>)
    ensures
        auction.status != AuctionStatus::Active ==> r == Err::<(), ContractError>(ContractError::AuctionNotActive),
        auction.status == AuctionStatus::Active && now < auction.end_time ==> r == Err::<(), ContractError>(
            ContractError::AuctionNotFinished,
        ),
        auction.status == AuctionStatus::Active && now >= auction.end_time ==> r is Ok,
{
    if auction.status != AuctionStatus::Active {
        return Err(ContractError::AuctionNotActive);
    }
    if now < auction.end_time {
        return Err(ContractError::AuctionNotFinished);
    }
    Ok(())
}

} // verus!
