//! The signals an operation hands back for the caller to publish.

use crate::pubkey::Pubkey;
use vstd::prelude::*;

verus! {

/// A new auction was created.
#[derive(Clone, Debug, PartialEq, Eq)]
pub struct AuctionCreated {
    /// The auction.
    pub auction: Pubkey,
    /// Its seller.
    pub seller: Pubkey,
    /// Its title, as the seller gave it.
    pub title: String,
    /// Its reserve price.
    pub reserve_price: u64,
    /// When bidding starts.
    pub start_time: i64,
    /// When bidding ends.
    pub end_time: i64,
}

/// A bidder submitted a first bid.
#[derive(Clone, Copy, Debug, PartialEq, Eq)]
pub struct BidPlaced {
    /// The auction.
    pub auction: Pubkey,
    /// The bidder.
    pub bidder: Pubkey,
    /// The number of the bid among the auction's bids, counted from one.
    pub bid_number: u32,
    /// When the bid was placed.
    pub timestamp: i64,
}

/// A bidder replaced an earlier bid.
#[derive(Clone, Copy, Debug, PartialEq, Eq)]
pub struct BidUpdated {
    /// The auction.
    pub auction: Pubkey,
    /// The bidder.
    pub bidder: Pubkey,
    /// When the bid was replaced.
    pub timestamp: i64,
}

/// What a submission amounted to.
#[derive(Clone, Copy, Debug, PartialEq, Eq)]
pub enum BidSignal {
    /// The bidder's first bid in this auction.
    Placed(BidPlaced),
    /// A replacement of the bidder's earlier bid.
    Updated(BidUpdated),
}

/// The bidding period was closed.
#[derive(Clone, Copy, Debug, PartialEq, Eq)]
pub struct BiddingClosed {
    /// The auction.
    pub auction: Pubkey,
    /// How many bids it received.
    pub total_bids: u32,
    /// When bidding was closed.
    pub timestamp: i64,
}

/// One bid was folded into the running maximum.
#[derive(Clone, Copy, Debug, PartialEq, Eq)]
pub struct BidProcessed {
    /// The auction.
    pub auction: Pubkey,
    /// The bidder whose bid was processed.
    pub bidder: Pubkey,
    /// How many bids have been processed so far.
    pub bids_processed: u32,
}

/// The winner was fixed.
#[derive(Clone, Copy, Debug, PartialEq, Eq)]
pub struct WinnerDetermined {
    /// The auction.
    pub auction: Pubkey,
    /// The winner.
    pub winner: Pubkey,
    /// When the winner was fixed.
    pub timestamp: i64,
}

/// The winner paid and the auction was settled.
#[derive(Clone, Copy, Debug, PartialEq, Eq)]
pub struct AuctionSettled {
    /// The auction.
    pub auction: Pubkey,
    /// The winner.
    pub winner: Pubkey,
    /// The amount paid, now public.
    pub winning_amount: u64,
    /// When the auction was settled.
    pub timestamp: i64,
}

/// The auction was called off.
#[derive(Clone, Debug, PartialEq, Eq)]
pub struct AuctionCancelled {
    /// The auction.
    pub auction: Pubkey,
    /// Its seller.
    pub seller: Pubkey,
    /// The reason the seller gave.
    pub reason: String,
    /// When the auction was cancelled.
    pub timestamp: i64,
}

} // verus!
