//! Cancellation by the seller, possible until the reduction has begun.

use crate::errors::ShadowBidError;
use crate::events::AuctionCancelled;
use crate::pubkey::Pubkey;
use crate::state::auction::{Auction, AuctionState};
use vstd::prelude::*;

verus! {

/// Why the auction cannot be cancelled, if it cannot. The first reason
/// that applies is the one reported:
/// - the caller is not the seller;
/// - the auction is neither open nor closed;
/// - it is closed and a bid has been processed already;
/// - it is open, has bids, and its end time has not come.
pub open spec fn rejection(auction: Auction, caller: Pubkey, now: i64) -> Option<ShadowBidError> {
    if caller != auction.seller {
        Some(ShadowBidError::NotSeller)
    } else if !(auction.state is Open || auction.state is Closed) {
        Some(ShadowBidError::AuctionAlreadySettled)
    } else if auction.state is Closed && auction.bids_processed != 0 {
        Some(ShadowBidError::AuctionAlreadySettled)
    } else if auction.state is Open && auction.bid_count > 0 && now < auction.end_time {
        Some(ShadowBidError::BiddingNotEnded)
    } else {
        None
    }
}

/// The auction after cancellation.
pub open spec fn cancelled(auction: Auction) -> Auction {
    Auction { state: AuctionState::Cancelled, ..auction }
}

/// Cancels the auction on behalf of `caller`.
///
/// Refused, with nothing changed, for the reasons that `rejection` lists.
/// Else the auction becomes cancelled and the signal carries the reason
/// given.
pub fn handler(
    auction_key: Pubkey,
    auction: &mut Auction,
    caller: Pubkey,
    reason: String,
    now: i64,
) -> (result: Result<AuctionCancelled, ShadowBidError>)
    ensures
        match rejection(*old(auction), caller, now) {
            Some(error) => {
                &&& result == Err::<AuctionCancelled, ShadowBidError>(error)
                &&& *final(auction) == *old(auction)
            },
            None => {
                &&& *final(auction) == cancelled(*old(auction))
                &&& result matches Ok(signal)
                &&& signal.auction == auction_key
                &&& signal.seller == old(auction).seller
                &&& signal.reason@ == reason@
                &&& signal.timestamp == now
            },
        },
        old(auction).wf() ==> final(auction).wf(),
        old(auction).bids_processed <= old(auction).bid_count ==> final(auction).bids_processed
            <= final(auction).bid_count,
{
    if caller != auction.seller {
        return Err(ShadowBidError::NotSeller);
    }
    if !(auction.state == AuctionState::Open || auction.state == AuctionState::Closed) {
        return Err(ShadowBidError::AuctionAlreadySettled);
    }
    if auction.state == AuctionState::Closed && auction.bids_processed != 0 {
        return Err(ShadowBidError::AuctionAlreadySettled);
    }
    if auction.state == AuctionState::Open && auction.bid_count > 0 && now < auction.end_time {
        return Err(ShadowBidError::BiddingNotEnded);
    }
    auction.state = AuctionState::Cancelled;
    Ok(AuctionCancelled { auction: auction_key, seller: auction.seller, reason, timestamp: now })
}

} // verus!
