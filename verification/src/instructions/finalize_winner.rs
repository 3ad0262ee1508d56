//! Fixing the winner once every bid has been folded into the running
//! maximum. Anyone may do it.
//!
//! The leader is granted the right to decrypt the winning handle: the
//! caller has the confidential value service make the grant that `prepare`
//! names, and hands the outcome to `handler`.

use crate::errors::ShadowBidError;
use crate::events::WinnerDetermined;
use crate::pubkey::Pubkey;
use crate::service::{DecryptGrant, ServiceFault};
use crate::state::auction::{Auction, AuctionState};
use vstd::prelude::*;

verus! {

/// Whether the reduction has covered every bid of an auction that has at
/// least one.
pub open spec fn reduction_complete(auction: Auction) -> bool {
    auction.bids_processed == auction.bid_count && auction.bid_count > 0
}

/// Why the winner cannot be fixed, if it cannot. The first reason that
/// applies is the one reported:
/// - the auction is not closed;
/// - the reduction is not complete;
/// - no bid ever became the leader;
/// - the identity named as the winner is not the leader.
pub open spec fn rejection(auction: Auction, winner_address: Pubkey) -> Option<ShadowBidError> {
    if !(auction.state is Closed) {
        Some(ShadowBidError::AuctionNotClosed)
    } else if !reduction_complete(auction) {
        Some(ShadowBidError::NoBidsPlaced)
    } else if auction.current_leader.is_sentinel() {
        Some(ShadowBidError::WinnerNotSet)
    } else if winner_address != auction.current_leader {
        Some(ShadowBidError::NotWinner)
    } else {
        None
    }
}

/// The grant to have made: the leader may decrypt the running maximum.
pub open spec fn grant(auction: Auction) -> DecryptGrant {
    DecryptGrant { handle: auction.highest_bid_handle, grantee: auction.current_leader }
}

/// The auction after its winner has been fixed: the leader is the winner.
pub open spec fn finalized(auction: Auction) -> Auction {
    Auction { winner: auction.current_leader, state: AuctionState::WinnerDetermined, ..auction }
}

/// Checks that the winner can be fixed and names the decrypt grant that the
/// confidential value service has to make first.
pub fn prepare(auction: &Auction, winner_address: Pubkey) -> (request: Result<
    DecryptGrant,
    ShadowBidError,
>)
    ensures
        request == match rejection(*auction, winner_address) {
            Some(error) => Err::<DecryptGrant, ShadowBidError>(error),
            None => Ok(grant(*auction)),
        },
{
    if auction.state != AuctionState::Closed {
        return Err(ShadowBidError::AuctionNotClosed);
    }
    if !(auction.bids_processed == auction.bid_count && auction.bid_count > 0) {
        return Err(ShadowBidError::NoBidsPlaced);
    }
    if auction.current_leader.is_default() {
        return Err(ShadowBidError::WinnerNotSet);
    }
    if winner_address != auction.current_leader {
        return Err(ShadowBidError::NotWinner);
    }
    Ok(DecryptGrant { handle: auction.highest_bid_handle, grantee: auction.current_leader })
}

/// Fixes the winner of the auction.
///
/// `granted` is the outcome of the decrypt grant that `prepare` named.
///
/// Refused, with nothing changed, for the reasons that `rejection` lists
/// and if the grant failed. Else the leader becomes the winner and the
/// auction moves on to `WinnerDetermined`. So on a closed auction with a
/// leader, named rightly and granted the decryption, the operation succeeds
/// exactly if the reduction is complete; and it fails whenever a bid is
/// left to process or there is no bid at all. Where the reduction of a
/// closed auction is complete and no bid ever became the leader, the
/// failure is `WinnerNotSet`, whoever is named as the winner.
pub fn handler(
    auction_key: Pubkey,
    auction: &mut Auction,
    winner_address: Pubkey,
    now: i64,
    granted: Result<(), ServiceFault>,
) -> (result: Result<WinnerDetermined, ShadowBidError>)
    ensures
        match rejection(*old(auction), winner_address) {
            Some(error) => {
                &&& result == Err::<WinnerDetermined, ShadowBidError>(error)
                &&& *final(auction) == *old(auction)
            },
            None => match granted {
                Err(fault) => {
                    &&& result == Err::<WinnerDetermined, ShadowBidError>(fault.as_error())
                    &&& *final(auction) == *old(auction)
                },
                Ok(_) => {
                    &&& *final(auction) == finalized(*old(auction))
                    &&& result == Ok::<WinnerDetermined, ShadowBidError>(
                        WinnerDetermined {
                            auction: auction_key,
                            winner: old(auction).current_leader,
                            timestamp: now,
                        },
                    )
                },
            },
        },
        result is Ok <==> {
            &&& old(auction).state is Closed
            &&& reduction_complete(*old(auction))
            &&& winner_address == old(auction).current_leader
            &&& !old(auction).current_leader.is_sentinel()
            &&& granted is Ok
        },
        old(auction).bids_processed < old(auction).bid_count || old(auction).bid_count == 0
            ==> result is Err,
        old(auction).state is Closed && reduction_complete(*old(auction)) && old(
            auction,
        ).current_leader.is_sentinel() ==> result == Err::<WinnerDetermined, ShadowBidError>(
            ShadowBidError::WinnerNotSet,
        ),
        old(auction).wf() ==> final(auction).wf(),
        old(auction).bids_processed <= old(auction).bid_count ==> final(auction).bids_processed
            <= final(auction).bid_count,
{
    match prepare(auction, winner_address) {
        Err(error) => {
            return Err(error);
        },
        Ok(_) => {},
    }
    match granted {
        Err(fault) => {
            return Err(fault.error());
        },
        Ok(_) => {},
    }
    auction.winner = auction.current_leader;
    auction.state = AuctionState::WinnerDetermined;
    Ok(WinnerDetermined { auction: auction_key, winner: auction.winner, timestamp: now })
}

} // verus!
