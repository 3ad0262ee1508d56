//! The operations of the auction lifecycle, one module each.

pub mod cancel_auction;
pub mod close_bidding;
pub mod create_auction;
pub mod determine_winner;
pub mod finalize_winner;
pub mod place_bid;
pub mod settle_auction;
