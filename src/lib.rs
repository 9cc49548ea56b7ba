//! An English-style auction engine with escrowed bids.
//!
//! Sellers list an item for a fixed time; bidders outbid one another while
//! the marketplace holds the leading bid in escrow; at the end the bid goes
//! to the seller and the item to the bidder, or the bid back to its bidder
//! when the minimum price was not reached. Every operation that moves funds
//! or items returns a [`settlement::Settlement`]: the transfers that the host
//! must carry out, all of them or none, for the new state to stand.
//!
//! Authorization, the current time and balances held by outside contracts
//! are the host's business; the engine takes them as arguments.

pub mod contract;
pub mod error;
pub mod laws;
pub mod settlement;
pub mod storage;
pub mod utils;
