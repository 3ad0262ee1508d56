//! Closing the bidding period. Anyone may do it once the end time has
//! come.

use crate::errors::ShadowBidError;
use crate::events::BiddingClosed;
use crate::pubkey::Pubkey;
use crate::state::auction::{Auction, AuctionState};
use vstd::prelude::*;

verus! {

/// Why bidding cannot be closed, if it cannot: the auction is not open, or
/// its end time has not come. The first reason that applies is the one
/// reported.
pub open spec fn rejection(auction: Auction, now: i64) -> Option<ShadowBidError> {
    if !(auction.state is Open) {
        Some(ShadowBidError::AuctionNotOpen)
    } else if now < auction.end_time {
        Some(ShadowBidError::BiddingNotEnded)
    } else {
        None
    }
}

/// The auction after bidding has been closed: cancelled if it received no
/// bid, closed otherwise.
pub open spec fn closed(auction: Auction) -> Auction {
    Auction {
        state: if auction.bid_count == 0 {
            AuctionState::Cancelled
        } else {
            AuctionState::Closed
        },
        ..auction
    }
}

/// Closes the bidding period.
///
/// Refused, with nothing changed, if the auction is not open or `now` is
/// before its end time. Else an auction without bids becomes cancelled and
/// one with bids becomes closed.
pub fn handler(auction_key: Pubkey, auction: &mut Auction, now: i64) -> (result: Result<
    BiddingClosed,
    ShadowBidError,
>)
    ensures
        match rejection(*old(auction), now) {
            Some(error) => {
                &&& result == Err::<BiddingClosed, ShadowBidError>(error)
                &&& *final(auction) == *old(auction)
            },
            None => {
                &&& *final(auction) == closed(*old(auction))
                &&& result == Ok::<BiddingClosed, ShadowBidError>(
                    BiddingClosed {
                        auction: auction_key,
                        total_bids: old(auction).bid_count,
                        timestamp: now,
                    },
                )
            },
        },
        old(auction).wf() ==> final(auction).wf(),
        old(auction).bids_processed <= old(auction).bid_count ==> final(auction).bids_processed
            <= final(auction).bid_count,
{
    if auction.state != AuctionState::Open {
        return Err(ShadowBidError::AuctionNotOpen);
    }
    if !auction.is_bidding_ended(now) {
        return Err(ShadowBidError::BiddingNotEnded);
    }
    if auction.bid_count == 0 {
        auction.state = AuctionState::Cancelled;
    } else {
        auction.state = AuctionState::Closed;
    }
    Ok(BiddingClosed { auction: auction_key, total_bids: auction.bid_count, timestamp: now })
}

} // verus!
