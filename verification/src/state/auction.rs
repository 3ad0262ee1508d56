//! The auction record and its lifecycle states.

use crate::constants::{
    MAX_AUCTION_DURATION, MAX_DESCRIPTION_LENGTH, MAX_TITLE_LENGTH, MIN_AUCTION_DURATION,
};
use crate::pubkey::Pubkey;
use crate::text::{decode_lossy, trim_nuls, trim_trailing_nuls, utf8_lossy};
use vstd::prelude::*;
use vstd::utf8::{decode_utf8, valid_utf8};

verus! {

/// Where an auction stands in its lifecycle.
///
/// `Open → Closed → WinnerDetermined → Settled`, with `Cancelled` reachable
/// from `Open` and from `Closed`. Nothing leaves `Settled` or `Cancelled`.
#[derive(Clone, Copy, PartialEq, Eq, Debug, Structural)]
pub enum AuctionState {
    /// Bids are accepted.
    Open,
    /// Bidding is over; the bids are being folded into the running maximum.
    Closed,
    /// Every bid has been folded in and the winner is fixed.
    WinnerDetermined,
    /// The winner has paid.
    Settled,
    /// The auction was called off.
    Cancelled,
}

impl Default for AuctionState {
    /// An auction starts out open.
    fn default() -> (state: AuctionState)
        ensures
            state == AuctionState::Open,
    {
        AuctionState::Open
    }
}

/// One auction: its terms, its lifecycle state, and the running maximum of
/// the reduction over its bids.
#[derive(Clone, Copy, Debug, PartialEq, Eq)]
pub struct Auction {
    /// The seller who created the auction.
    pub seller: Pubkey,
    /// The asset being auctioned, or the sentinel if none is linked.
    pub item_mint: Pubkey,
    /// Title, zero-padded to its full width.
    pub title: [u8; MAX_TITLE_LENGTH],
    /// Description, zero-padded to its full width.
    pub description: [u8; MAX_DESCRIPTION_LENGTH],
    /// Least amount the winner must pay.
    pub reserve_price: u64,
    /// When bidding starts, in epoch seconds.
    pub start_time: i64,
    /// When bidding ends, in epoch seconds.
    pub end_time: i64,
    /// Lifecycle state.
    pub state: AuctionState,
    /// Number of bidders who have submitted a bid.
    pub bid_count: u32,
    /// Number of bids folded into the running maximum.
    pub bids_processed: u32,
    /// Handle of the running maximum, or zero while no bid has been folded
    /// in.
    pub highest_bid_handle: u128,
    /// Bidder behind the running maximum, or the sentinel while there is
    /// none.
    pub current_leader: Pubkey,
    /// The winner, or the sentinel until the winner is fixed.
    pub winner: Pubkey,
    /// The amount the winner paid, or zero until settlement.
    pub winning_amount: u64,
    /// Identifier chosen by the seller; never changes.
    pub auction_id: u64,
    /// Addressing seed of the record; never changes.
    pub bump: u8,
}

impl Auction {
    /// What holds of every auction record that the operations of this
    /// library have produced.
    pub open spec fn wf(self) -> bool {
        &&& self.bids_processed <= self.bid_count
        &&& self.reserve_price > 0
        &&& MIN_AUCTION_DURATION <= self.end_time - self.start_time <= MAX_AUCTION_DURATION
        &&& self.highest_bid_handle == 0 ==> self.current_leader.is_sentinel()
        &&& self.highest_bid_handle != 0 ==> self.bid_count > 0
        &&& self.state is Open ==> self.bids_processed == 0
        &&& self.state is Cancelled ==> self.bids_processed == 0
        &&& self.state is Closed ==> self.bid_count > 0
        &&& self.winner_is_fixed() ==> {
            &&& self.winner == self.current_leader
            &&& !self.winner.is_sentinel()
            &&& self.highest_bid_handle != 0
            &&& self.bids_processed == self.bid_count
            &&& self.bid_count > 0
        }
        &&& !self.winner_is_fixed() ==> self.winner.is_sentinel()
        &&& self.state is Settled ==> self.winning_amount >= self.reserve_price
        &&& !(self.state is Settled) ==> self.winning_amount == 0
    }

    /// Whether the record is well formed.
    pub fn is_well_formed(&self) -> (well_formed: bool)
        ensures
            well_formed == self.wf(),
    {
        let duration = self.end_time as i128 - self.start_time as i128;
        let terms = self.reserve_price > 0 && MIN_AUCTION_DURATION as i128 <= duration && duration
            <= MAX_AUCTION_DURATION as i128;
        let counts = self.bids_processed <= self.bid_count;
        let lead = if self.highest_bid_handle == 0 {
            self.current_leader.is_default()
        } else {
            self.bid_count > 0
        };
        let winner_fixed = self.winner == self.current_leader && !self.winner.is_default()
            && self.highest_bid_handle != 0 && self.bids_processed == self.bid_count
            && self.bid_count > 0;
        let stage = match self.state {
            AuctionState::Open | AuctionState::Cancelled => {
                self.bids_processed == 0 && self.winner.is_default() && self.winning_amount == 0
            },
            AuctionState::Closed => {
                self.bid_count > 0 && self.winner.is_default() && self.winning_amount == 0
            },
            AuctionState::WinnerDetermined => winner_fixed && self.winning_amount == 0,
            AuctionState::Settled => winner_fixed && self.winning_amount >= self.reserve_price,
        };
        terms && counts && lead && stage
    }

    /// Whether the auction has reached a state in which its winner is
    /// fixed.
    pub open spec fn winner_is_fixed(self) -> bool {
        self.state is WinnerDetermined || self.state is Settled
    }

    /// Whether bids are accepted at `current_time`: the auction is open and
    /// the time lies in `[start_time, end_time)`.
    pub open spec fn bidding_open_at(self, current_time: i64) -> bool {
        self.state is Open && self.start_time <= current_time < self.end_time
    }

    /// Whether bids are accepted at `current_time`.
    pub fn is_bidding_open(&self, current_time: i64) -> (open: bool)
        ensures
            open == self.bidding_open_at(current_time),
    {
        self.state == AuctionState::Open && current_time >= self.start_time && current_time
            < self.end_time
    }

    /// Whether the bidding period is over at `current_time`.
    pub fn is_bidding_ended(&self, current_time: i64) -> (ended: bool)
        ensures
            ended == (current_time >= self.end_time),
    {
        current_time >= self.end_time
    }

    /// Whether no bid is left to process.
    pub fn all_bids_processed(&self) -> (done: bool)
        ensures
            done == (self.bids_processed >= self.bid_count),
    {
        self.bids_processed >= self.bid_count
    }

    /// The title as text: the bytes decoded lossily, without the NUL
    /// characters at the end.
    pub fn get_title(&self) -> (title: String)
        ensures
            title@ == trim_nuls(utf8_lossy(self.title@)),
            valid_utf8(self.title@) ==> title@ == trim_nuls(decode_utf8(self.title@)),
    {
        let decoded = decode_lossy(self.title.as_slice());
        trim_trailing_nuls(decoded.as_str())
    }

    /// The description as text: the bytes decoded lossily, without the NUL
    /// characters at the end.
    pub fn get_description(&self) -> (description: String)
        ensures
            description@ == trim_nuls(utf8_lossy(self.description@)),
            valid_utf8(self.description@) ==> description@ == trim_nuls(
                decode_utf8(self.description@),
            ),
    {
        let decoded = decode_lossy(self.description.as_slice());
        trim_trailing_nuls(decoded.as_str())
    }
}

} // verus!
