use vstd::prelude::*;

verus! {

/// The closed set of failures that the marketplace reports.
#[derive(Clone, Copy, Debug, PartialEq, Eq, Structural)]
pub enum ContractError {
    Unauthorized,
    AuctionNotFound,
    IDMissmatch,
    BidNotEnough,
    AuctionNotFinished,
    NotEnoughBalance,
    InvalidInputs,
    AuctionNotActive,
    MinPriceNotReached,
    MissingHighestBid,
    AuctionNotPaused,
    PaymentProcessingFailed,
    NoBuyNowOption,
    InvalidBidder,
    AlreadyInitialized,
    AdminNotFound,
    ConfigNotFound,
}

} // verus!
