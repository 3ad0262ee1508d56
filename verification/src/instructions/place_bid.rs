//! Bid submission: a bidder's first bid, or the replacement of an earlier
//! one.
//!
//! The caller hands the ciphertext to the confidential value service and
//! hands the handle that comes back to `handler`. The amount itself is
//! never seen here.

use crate::errors::ShadowBidError;
use crate::events::{BidPlaced, BidSignal, BidUpdated};
use crate::pubkey::Pubkey;
use crate::service::ServiceFault;
use crate::state::auction::{Auction, AuctionState};
use crate::state::bid::Bid;
use vstd::prelude::*;

verus! {

/// Why the submission is refused before the service is asked, if it is:
/// the auction is not open, the bidder is the seller, the record holds the
/// bid of another auction or bidder, or the time is outside the bidding
/// window. The first reason that applies is the one reported.
pub open spec fn rejection(
    auction_key: Pubkey,
    auction: Auction,
    bid: Bid,
    bidder: Pubkey,
    now: i64,
) -> Option<ShadowBidError> {
    if !(auction.state is Open) {
        Some(ShadowBidError::AuctionNotOpen)
    } else if auction.seller == bidder {
        Some(ShadowBidError::SellerCannotBid)
    } else if !bid.is_unsubmitted() && (bid.auction != auction_key || bid.bidder != bidder) {
        Some(ShadowBidError::BidAuctionMismatch)
    } else if !auction.bidding_open_at(now) {
        Some(ShadowBidError::BiddingEnded)
    } else {
        None
    }
}

/// Why the answer of the service cannot be used, if it cannot: the service
/// reported a fault, or it handed back the sentinel in place of a handle.
pub open spec fn handle_error(handle: Result<u128, ServiceFault>) -> Option<ShadowBidError> {
    match handle {
        Err(fault) => Some(fault.as_error()),
        Ok(created) => if created == 0 {
            Some(ShadowBidError::EncryptionFailed)
        } else {
            None
        },
    }
}

/// The bid record after the submission of `handle`. The time of creation
/// and the addressing seed are set by the first submission only, and
/// whether the bid counts as processed is left as it was.
pub open spec fn submitted_bid(
    auction_key: Pubkey,
    bid: Bid,
    bidder: Pubkey,
    bump: u8,
    now: i64,
    handle: u128,
) -> Bid {
    Bid {
        auction: auction_key,
        bidder,
        encrypted_amount: handle,
        created_at: if bid.is_unsubmitted() {
            now
        } else {
            bid.created_at
        },
        updated_at: now,
        processed: bid.processed,
        bump: if bid.is_unsubmitted() {
            bump
        } else {
            bid.bump
        },
    }
}

/// The auction after the submission of `handle`.
///
/// A first submission counts one more bid and, while the running maximum
/// is unset, becomes the running maximum with its bidder as the leader. A
/// resubmission leaves the auction as it is.
pub open spec fn auction_after_bid(auction: Auction, bid: Bid, bidder: Pubkey, handle: u128)
    -> Auction {
    if !bid.is_unsubmitted() {
        auction
    } else if auction.highest_bid_handle == 0 {
        Auction {
            bid_count: (auction.bid_count + 1) as u32,
            highest_bid_handle: handle,
            current_leader: bidder,
            ..auction
        }
    } else {
        Auction { bid_count: (auction.bid_count + 1) as u32, ..auction }
    }
}

/// The signal of the submission: placed, with the number of the bid, for a
/// first submission; updated for a resubmission.
pub open spec fn signal(auction_key: Pubkey, auction: Auction, bid: Bid, bidder: Pubkey, now: i64)
    -> BidSignal {
    if bid.is_unsubmitted() {
        BidSignal::Placed(
            BidPlaced {
                auction: auction_key,
                bidder,
                bid_number: (auction.bid_count + 1) as u32,
                timestamp: now,
            },
        )
    } else {
        BidSignal::Updated(BidUpdated { auction: auction_key, bidder, timestamp: now })
    }
}

/// The handle that `handle` stands for: the created handle, or zero if the
/// service reported a fault.
pub open spec fn created_handle(handle: Result<u128, ServiceFault>) -> u128 {
    match handle {
        Ok(created) => created,
        Err(_) => 0,
    }
}

/// Whether the submission is accepted: nothing refuses it and the service
/// handed back a handle.
pub open spec fn accepted(
    auction_key: Pubkey,
    auction: Auction,
    bid: Bid,
    bidder: Pubkey,
    now: i64,
    handle: Result<u128, ServiceFault>,
) -> bool {
    rejection(auction_key, auction, bid, bidder, now) is None && handle_error(handle) is None
}

/// Whether a first submission would find the 32-bit count of bids full.
pub open spec fn count_is_full(auction: Auction, bid: Bid) -> bool {
    bid.is_unsubmitted() && auction.bid_count == u32::MAX
}

/// What a submission comes to: the auction and the bid record after it, and
/// what is reported. A submission that is refused leaves both records as
/// they were.
pub open spec fn outcome(
    auction_key: Pubkey,
    auction: Auction,
    bid: Bid,
    bidder: Pubkey,
    bump: u8,
    now: i64,
    handle: Result<u128, ServiceFault>,
) -> (Auction, Bid, Result<BidSignal, ShadowBidError>) {
    match rejection(auction_key, auction, bid, bidder, now) {
        Some(error) => (auction, bid, Err(error)),
        None => match handle_error(handle) {
            Some(error) => (auction, bid, Err(error)),
            None => (
                auction_after_bid(auction, bid, bidder, created_handle(handle)),
                submitted_bid(auction_key, bid, bidder, bump, now, created_handle(handle)),
                Ok(signal(auction_key, auction, bid, bidder, now)),
            ),
        },
    }
}

/// Checks that `bidder` may submit a bid at `now`. On `Ok` the caller asks
/// the confidential value service for a handle to the ciphertext.
pub fn prepare(auction_key: Pubkey, auction: &Auction, bid: &Bid, bidder: Pubkey, now: i64) -> (go:
    Result<(), ShadowBidError>)
    ensures
        go == match rejection(auction_key, *auction, *bid, bidder, now) {
            Some(error) => Err::<(), ShadowBidError>(error),
            None => Ok(()),
        },
{
    if auction.state != AuctionState::Open {
        return Err(ShadowBidError::AuctionNotOpen);
    }
    if auction.seller == bidder {
        return Err(ShadowBidError::SellerCannotBid);
    }
    if bid.encrypted_amount != 0 && !(bid.belongs_to_auction(&auction_key) && bid.is_from_bidder(
        &bidder,
    )) {
        return Err(ShadowBidError::BidAuctionMismatch);
    }
    if !auction.is_bidding_open(now) {
        return Err(ShadowBidError::BiddingEnded);
    }
    Ok(())
}

/// Records the bid of `bidder`.
///
/// `bid` is the record of this auction and bidder, blank if the bidder has
/// not bid before. `handle` is the answer of the confidential value service
/// to the bidder's ciphertext.
///
/// The submission is refused, and nothing changes, if `prepare` refuses it
/// or if the service failed. Else the record holds the new handle; a first
/// submission is counted by the auction, and seeds the running maximum if it
/// is the auction's first bid. A bid that counts as processed keeps doing
/// so.
///
/// A first submission that is accepted must find room in the 32-bit count
/// of bids; `checked_handler` serves the caller who cannot tell. The count
/// of bids grows by one at most, the count of processed bids stays as it
/// is, and so does the mark of the bid.
pub fn handler(
    auction_key: Pubkey,
    auction: &mut Auction,
    bid: &mut Bid,
    bidder: Pubkey,
    bump: u8,
    now: i64,
    handle: Result<u128, ServiceFault>,
) -> (result: Result<BidSignal, ShadowBidError>)
    requires
        accepted(auction_key, *old(auction), *old(bid), bidder, now, handle) ==> !count_is_full(
            *old(auction),
            *old(bid),
        ),
    ensures
        (*final(auction), *final(bid), result) == outcome(
            auction_key,
            *old(auction),
            *old(bid),
            bidder,
            bump,
            now,
            handle,
        ),
        result is Ok <==> accepted(auction_key, *old(auction), *old(bid), bidder, now, handle),
        old(auction).wf() ==> final(auction).wf(),
        final(auction).bids_processed == old(auction).bids_processed,
        old(auction).bid_count <= final(auction).bid_count <= old(auction).bid_count + 1,
        old(auction).bids_processed <= old(auction).bid_count ==> final(auction).bids_processed
            <= final(auction).bid_count,
        final(bid).processed == old(bid).processed,
{
    match prepare(auction_key, auction, bid, bidder, now) {
        Err(error) => {
            return Err(error);
        },
        Ok(()) => {},
    }
    let created = match handle {
        Err(fault) => {
            return Err(fault.error());
        },
        Ok(created) => created,
    };
    if created == 0 {
        return Err(ShadowBidError::EncryptionFailed);
    }
    let is_new_bid = bid.encrypted_amount == 0;
    bid.auction = auction_key;
    bid.bidder = bidder;
    bid.encrypted_amount = created;
    bid.updated_at = now;
    if is_new_bid {
        bid.created_at = now;
        bid.bump = bump;
        auction.bid_count = auction.bid_count + 1;
        if auction.highest_bid_handle == 0 {
            auction.highest_bid_handle = created;
            auction.current_leader = bidder;
        }
        Ok(
            BidSignal::Placed(
                BidPlaced {
                    auction: auction_key,
                    bidder,
                    bid_number: auction.bid_count,
                    timestamp: now,
                },
            ),
        )
    } else {
        Ok(BidSignal::Updated(BidUpdated { auction: auction_key, bidder, timestamp: now }))
    }
}

/// Records the bid of `bidder` if the count of bids has room for it.
///
/// The answer is `None`, and nothing changes, exactly where the submission
/// would be accepted as a first submission and the 32-bit count of bids is
/// full. Everywhere else the answer is what `handler` reports, and the
/// records are as `handler` leaves them.
///
/// Whatever the answer, the count of bids grows by one at most, the count
/// of processed bids stays as it is and within the count of bids where it
/// was so, and a bid that counts as processed keeps doing so.
pub fn checked_handler(
    auction_key: Pubkey,
    auction: &mut Auction,
    bid: &mut Bid,
    bidder: Pubkey,
    bump: u8,
    now: i64,
    handle: Result<u128, ServiceFault>,
) -> (result: Option<Result<BidSignal, ShadowBidError>>)
    ensures
        result is None <==> accepted(auction_key, *old(auction), *old(bid), bidder, now, handle)
            && count_is_full(*old(auction), *old(bid)),
        result is None ==> *final(auction) == *old(auction) && *final(bid) == *old(bid),
        result matches Some(reported) ==> (*final(auction), *final(bid), reported) == outcome(
            auction_key,
            *old(auction),
            *old(bid),
            bidder,
            bump,
            now,
            handle,
        ),
        old(auction).wf() ==> final(auction).wf(),
        final(auction).bids_processed == old(auction).bids_processed,
        old(auction).bid_count <= final(auction).bid_count <= old(auction).bid_count + 1,
        old(auction).bids_processed <= old(auction).bid_count ==> final(auction).bids_processed
            <= final(auction).bid_count,
        final(bid).processed == old(bid).processed,
{
    if bid.encrypted_amount == 0 && auction.bid_count == u32::MAX {
        match prepare(auction_key, auction, bid, bidder, now) {
            Err(error) => {
                return Some(Err(error));
            },
            Ok(()) => {},
        }
        return match handle {
            Err(fault) => Some(Err(fault.error())),
            Ok(created) => if created == 0 {
                Some(Err(ShadowBidError::EncryptionFailed))
            } else {
                None
            },
        };
    }
    Some(handler(auction_key, auction, bid, bidder, bump, now, handle))
}

} // verus!
