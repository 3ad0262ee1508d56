//! Winner determination: folding one bid into the running maximum.
//!
//! The amounts are never seen. The caller asks the confidential value
//! service to compare the bid with the running maximum and to select the
//! greater of the two handles, and hands the selected handle in. Which
//! bidder leads is tracked in the clear beside the handle.

use crate::errors::ShadowBidError;
use crate::events::BidProcessed;
use crate::pubkey::Pubkey;
use crate::service::{ReductionRequest, ServiceFault};
use crate::state::auction::{Auction, AuctionState};
use crate::state::bid::Bid;
use vstd::prelude::*;

verus! {

/// Why the bid cannot be processed, if it cannot: the auction is not
/// closed, the bid belongs to another auction, or it has been processed
/// before. The first reason that applies is the one reported.
pub open spec fn rejection(auction_key: Pubkey, auction: Auction, bid: Bid) -> Option<
    ShadowBidError,
> {
    if !(auction.state is Closed) {
        Some(ShadowBidError::AuctionNotClosed)
    } else if bid.auction != auction_key {
        Some(ShadowBidError::BidAuctionMismatch)
    } else if bid.processed {
        Some(ShadowBidError::BidAlreadyProcessed)
    } else {
        None
    }
}

/// The blind comparison that processing the bid takes: none while the
/// running maximum is unset, else the bid against the running maximum.
pub open spec fn comparison(auction: Auction, bid: Bid) -> Option<ReductionRequest> {
    if auction.highest_bid_handle == 0 {
        None
    } else {
        Some(
            ReductionRequest {
                candidate: bid.encrypted_amount,
                incumbent: auction.highest_bid_handle,
            },
        )
    }
}

/// Why the answer of the service cannot be used, if it cannot: the service
/// reported a fault, or it handed back the sentinel in place of a handle.
/// No answer is needed, and none is looked at, while the running maximum is
/// unset.
pub open spec fn selection_error(auction: Auction, selection: Result<u128, ServiceFault>) -> Option<
    ShadowBidError,
> {
    if auction.highest_bid_handle == 0 {
        None
    } else {
        match selection {
            Err(fault) => Some(fault.as_error()),
            Ok(selected) => if selected == 0 {
                Some(ShadowBidError::EncryptionFailed)
            } else {
                None
            },
        }
    }
}

/// The auction after `bid` has been folded in, `selected` being the handle
/// that the service selected.
///
/// While the running maximum is unset the bid becomes the running maximum
/// outright. Else the selected handle becomes the running maximum, and the
/// bidder becomes the leader if that handle is not the one held before.
/// Either way one more bid counts as processed.
pub open spec fn folded(auction: Auction, bid: Bid, selected: u128) -> Auction {
    if auction.highest_bid_handle == 0 {
        Auction {
            highest_bid_handle: bid.encrypted_amount,
            current_leader: bid.bidder,
            bids_processed: (auction.bids_processed + 1) as u32,
            ..auction
        }
    } else {
        Auction {
            highest_bid_handle: selected,
            current_leader: if selected != auction.highest_bid_handle {
                bid.bidder
            } else {
                auction.current_leader
            },
            bids_processed: (auction.bids_processed + 1) as u32,
            ..auction
        }
    }
}

/// The handle that `selection` stands for: the selected handle, or zero if
/// the service reported a fault.
pub open spec fn selected_handle(selection: Result<u128, ServiceFault>) -> u128 {
    match selection {
        Ok(selected) => selected,
        Err(_) => 0,
    }
}

/// Checks that the bid can be processed and says what to ask of the
/// confidential value service first: `None` if nothing, else the comparison
/// to have performed.
pub fn prepare(auction_key: Pubkey, auction: &Auction, bid: &Bid) -> (request: Result<
    Option<ReductionRequest>,
    ShadowBidError,
>)
    ensures
        request == match rejection(auction_key, *auction, *bid) {
            Some(error) => Err::<Option<ReductionRequest>, ShadowBidError>(error),
            None => Ok(comparison(*auction, *bid)),
        },
{
    if auction.state != AuctionState::Closed {
        return Err(ShadowBidError::AuctionNotClosed);
    }
    if !bid.belongs_to_auction(&auction_key) {
        return Err(ShadowBidError::BidAuctionMismatch);
    }
    if bid.is_processed() {
        return Err(ShadowBidError::BidAlreadyProcessed);
    }
    if auction.highest_bid_handle == 0 {
        Ok(None)
    } else {
        Ok(
            Some(
                ReductionRequest {
                    candidate: bid.encrypted_amount,
                    incumbent: auction.highest_bid_handle,
                },
            ),
        )
    }
}

/// Folds one bid into the running maximum.
///
/// `selection` is the answer of the confidential value service to the
/// comparison that `prepare` asked for; it is not looked at while the
/// running maximum is unset.
///
/// The bid is refused, and nothing changes, if the auction is not closed,
/// if the bid belongs to another auction, if it has been processed before,
/// or if the service failed. Else the auction becomes `folded` and the bid
/// is marked as processed.
///
/// A bid that is accepted must find room in the 32-bit count of processed
/// bids. It always does where the auction has processed fewer bids than it
/// has, and then the count stays within the number of bids.
pub fn handler(
    auction_key: Pubkey,
    auction: &mut Auction,
    bid: &mut Bid,
    selection: Result<u128, ServiceFault>,
) -> (result: Result<BidProcessed, ShadowBidError>)
    requires
        rejection(auction_key, *old(auction), *old(bid)) is None && selection_error(
            *old(auction),
            selection,
        ) is None ==> old(auction).bids_processed < u32::MAX,
    ensures
        match rejection(auction_key, *old(auction), *old(bid)) {
            Some(error) => {
                &&& result == Err::<BidProcessed, ShadowBidError>(error)
                &&& *final(auction) == *old(auction)
                &&& *final(bid) == *old(bid)
            },
            None => match selection_error(*old(auction), selection) {
                Some(error) => {
                    &&& result == Err::<BidProcessed, ShadowBidError>(error)
                    &&& *final(auction) == *old(auction)
                    &&& *final(bid) == *old(bid)
                },
                None => {
                    &&& *final(auction) == folded(
                        *old(auction),
                        *old(bid),
                        selected_handle(selection),
                    )
                    &&& *final(bid) == (Bid { processed: true, ..*old(bid) })
                    &&& result == Ok::<BidProcessed, ShadowBidError>(
                        BidProcessed {
                            auction: auction_key,
                            bidder: old(bid).bidder,
                            bids_processed: final(auction).bids_processed,
                        },
                    )
                },
            },
        },
        old(auction).wf() && !old(bid).is_unsubmitted() && old(auction).bids_processed < old(
            auction,
        ).bid_count ==> final(auction).wf(),
        old(auction).bids_processed < old(auction).bid_count ==> final(auction).bids_processed
            <= final(auction).bid_count,
        old(bid).processed ==> final(bid).processed,
{
    if auction.state != AuctionState::Closed {
        return Err(ShadowBidError::AuctionNotClosed);
    }
    if !bid.belongs_to_auction(&auction_key) {
        return Err(ShadowBidError::BidAuctionMismatch);
    }
    if bid.is_processed() {
        return Err(ShadowBidError::BidAlreadyProcessed);
    }
    if auction.highest_bid_handle == 0 {
        auction.highest_bid_handle = bid.encrypted_amount;
        auction.current_leader = bid.bidder;
    } else {
        let selected = match selection {
            Err(fault) => {
                return Err(fault.error());
            },
            Ok(selected) => selected,
        };
        if selected == 0 {
            return Err(ShadowBidError::EncryptionFailed);
        }
        let handle_changed = selected != auction.highest_bid_handle;
        auction.highest_bid_handle = selected;
        if handle_changed {
            auction.current_leader = bid.bidder;
        }
    }
    bid.processed = true;
    auction.bids_processed = auction.bids_processed + 1;
    Ok(
        BidProcessed {
            auction: auction_key,
            bidder: bid.bidder,
            bids_processed: auction.bids_processed,
        },
    )
}

} // verus!
