//! An auction together with the bid records that refer to it, and what
//! holds of the two through every operation.
//!
//! The operations work on one auction record and at most one bid record.
//! The book is the whole that those records belong to: it exists in proofs
//! only, and says what the storage that holds the records maintains. Each
//! step of the book is one operation, applied to the auction and to the
//! record of the bidder concerned, as the operation's own contract states
//! it.

use crate::instructions::{
    cancel_auction, close_bidding, determine_winner, finalize_winner, place_bid, settle_auction,
};
use crate::pubkey::Pubkey;
use crate::service::ServiceFault;
use crate::state::auction::{Auction, AuctionState};
use crate::state::bid::Bid;
use vstd::prelude::*;

verus! {

/// An auction, the key it is known by, and the record of every bidder who
/// has submitted a bid, in the order of first submission.
pub struct Book {
    /// The key of the auction.
    pub key: Pubkey,
    /// The auction record.
    pub auction: Auction,
    /// The bid records of the auction.
    pub bids: Seq<Bid>,
}

/// One operation on a book, with everything that the outside hands in.
pub enum Step {
    /// A bidder submits a bid; `handle` is the answer of the service.
    PlaceBid { bidder: Pubkey, bump: u8, now: i64, handle: Result<u128, ServiceFault> },
    /// Someone closes the bidding period.
    CloseBidding { now: i64 },
    /// Someone has the bid of `bidder` folded into the running maximum;
    /// `selection` is the answer of the service.
    DetermineWinner { bidder: Pubkey, selection: Result<u128, ServiceFault> },
    /// Someone has the winner fixed; `granted` is the answer of the service.
    FinalizeWinner { winner_address: Pubkey, granted: Result<(), ServiceFault> },
    /// The winner settles; `verified` is the answer of the service.
    SettleAuction {
        caller: Pubkey,
        seller: Pubkey,
        plaintext: Seq<u8>,
        verified: Result<(), ServiceFault>,
    },
    /// The seller cancels.
    CancelAuction { caller: Pubkey, now: i64 },
}

/// How many of the bids have been processed.
pub open spec fn processed_count(bids: Seq<Bid>) -> nat
    decreases bids.len(),
{
    if bids.len() == 0 {
        0
    } else if bids.last().processed {
        processed_count(bids.drop_last()) + 1
    } else {
        processed_count(bids.drop_last())
    }
}

impl Book {
    /// What the storage maintains: the auction is well formed; it counts
    /// exactly the records there are, and as processed exactly those that
    /// are; every record belongs to this auction and holds a handle; and no
    /// bidder has two records.
    pub open spec fn wf(self) -> bool {
        &&& self.auction.wf()
        &&& self.bids.len() == self.auction.bid_count
        &&& processed_count(self.bids) == self.auction.bids_processed
        &&& forall|i: int|
            0 <= i < self.bids.len() ==> (#[trigger] self.bids[i]).auction == self.key
                && !self.bids[i].is_unsubmitted()
        &&& forall|i: int, j: int|
            0 <= i < j < self.bids.len() ==> (#[trigger] self.bids[i]).bidder != (
            #[trigger] self.bids[j]).bidder
    }

    /// Whether `bidder` has a record in the book.
    pub open spec fn has_record_of(self, bidder: Pubkey) -> bool {
        exists|i: int| 0 <= i < self.bids.len() && (#[trigger] self.bids[i]).bidder == bidder
    }

    /// The position of the record of `bidder`, if there is one.
    pub open spec fn position_of(self, bidder: Pubkey) -> int {
        choose|i: int| 0 <= i < self.bids.len() && (#[trigger] self.bids[i]).bidder == bidder
    }

    /// The record that an operation on behalf of `bidder` works on: the
    /// bidder's own, or a blank one if the bidder has none yet.
    pub open spec fn record_of(self, bidder: Pubkey) -> Bid {
        if self.has_record_of(bidder) {
            self.bids[self.position_of(bidder)]
        } else {
            Bid::blank()
        }
    }

    /// The book with the record of `bidder` replaced by `record`, or with
    /// `record` added if the bidder had none.
    pub open spec fn with_record(self, bidder: Pubkey, record: Bid) -> Seq<Bid> {
        if self.has_record_of(bidder) {
            self.bids.update(self.position_of(bidder), record)
        } else {
            self.bids.push(record)
        }
    }

    /// The book after `step`. A step that the operation refuses leaves the
    /// book as it is, and so does a first submission that finds the 32-bit
    /// count of bids full: it does not take place.
    pub open spec fn next(self, step: Step) -> Book {
        match step {
            Step::PlaceBid { bidder, bump, now, handle } => {
                let record = self.record_of(bidder);
                if place_bid::accepted(self.key, self.auction, record, bidder, now, handle)
                    && !place_bid::count_is_full(self.auction, record) {
                    let created = place_bid::created_handle(handle);
                    Book {
                        auction: place_bid::auction_after_bid(
                            self.auction,
                            record,
                            bidder,
                            created,
                        ),
                        bids: self.with_record(
                            bidder,
                            place_bid::submitted_bid(self.key, record, bidder, bump, now, created),
                        ),
                        ..self
                    }
                } else {
                    self
                }
            },
            Step::CloseBidding { now } => {
                if close_bidding::rejection(self.auction, now) is None {
                    Book { auction: close_bidding::closed(self.auction), ..self }
                } else {
                    self
                }
            },
            Step::DetermineWinner { bidder, selection } => {
                let record = self.record_of(bidder);
                if self.has_record_of(bidder) && determine_winner::rejection(
                    self.key,
                    self.auction,
                    record,
                ) is None && determine_winner::selection_error(self.auction, selection) is None {
                    Book {
                        auction: determine_winner::folded(
                            self.auction,
                            record,
                            determine_winner::selected_handle(selection),
                        ),
                        bids: self.with_record(bidder, Bid { processed: true, ..record }),
                        ..self
                    }
                } else {
                    self
                }
            },
            Step::FinalizeWinner { winner_address, granted } => {
                if finalize_winner::rejection(self.auction, winner_address) is None
                    && granted is Ok {
                    Book { auction: finalize_winner::finalized(self.auction), ..self }
                } else {
                    self
                }
            },
            Step::SettleAuction { caller, seller, plaintext, verified } => {
                if settle_auction::rejection(self.auction, caller, seller) is None
                    && settle_auction::proof_error(self.auction, plaintext, verified) is None {
                    Book {
                        auction: settle_auction::settled(
                            self.auction,
                            settle_auction::claimed_amount(plaintext),
                        ),
                        ..self
                    }
                } else {
                    self
                }
            },
            Step::CancelAuction { caller, now } => {
                if cancel_auction::rejection(self.auction, caller, now) is None {
                    Book { auction: cancel_auction::cancelled(self.auction), ..self }
                } else {
                    self
                }
            },
        }
    }
}

/// No more bids are processed than there are.
proof fn lemma_processed_count_bounded(bids: Seq<Bid>)
    ensures
        processed_count(bids) <= bids.len(),
    decreases bids.len(),
{
    if bids.len() > 0 {
        lemma_processed_count_bounded(bids.drop_last());
    }
}

/// Replacing one record changes the count by what the replacement changes.
proof fn lemma_processed_count_update(bids: Seq<Bid>, position: int, record: Bid)
    requires
        0 <= position < bids.len(),
    ensures
        processed_count(bids.update(position, record)) + (if bids[position].processed {
            1nat
        } else {
            0nat
        }) == processed_count(bids) + (if record.processed {
            1nat
        } else {
            0nat
        }),
    decreases bids.len(),
{
    let updated = bids.update(position, record);
    if position == bids.len() - 1 {
        assert(updated.drop_last() =~= bids.drop_last());
    } else {
        assert(updated.drop_last() =~= bids.drop_last().update(position, record));
        lemma_processed_count_update(bids.drop_last(), position, record);
    }
}

/// A record added unprocessed leaves the count as it is.
proof fn lemma_processed_count_push(bids: Seq<Bid>, record: Bid)
    requires
        !record.processed,
    ensures
        processed_count(bids.push(record)) == processed_count(bids),
{
    assert(bids.push(record).drop_last() =~= bids);
}

/// In a well-formed book a bid that is still to be processed leaves room
/// in the auction's count: the auction has processed fewer bids than it has.
pub proof fn lemma_pending_bid_leaves_room(book: Book, bidder: Pubkey)
    requires
        book.wf(),
        book.has_record_of(bidder),
        !book.record_of(bidder).processed,
    ensures
        book.auction.bids_processed < book.auction.bid_count,
{
    let position = book.position_of(bidder);
    let record = book.bids[position];
    lemma_processed_count_update(book.bids, position, Bid { processed: true, ..record });
    lemma_processed_count_bounded(book.bids.update(position, Bid { processed: true, ..record }));
}

/// Every step keeps the book well formed. In particular the auction never
/// counts more bids as processed than it counts bids, and neither count
/// ever falls.
pub proof fn lemma_step_keeps_book(book: Book, step: Step)
    requires
        book.wf(),
    ensures
        book.next(step).wf(),
        book.next(step).auction.bids_processed <= book.next(step).auction.bid_count,
        book.auction.bid_count <= book.next(step).auction.bid_count,
        book.auction.bids_processed <= book.next(step).auction.bids_processed,
        book.next(step).key == book.key,
{
    match step {
        Step::PlaceBid { bidder, bump, now, handle } => {
            let record = book.record_of(bidder);
            if place_bid::accepted(book.key, book.auction, record, bidder, now, handle)
                && !place_bid::count_is_full(book.auction, record) {
                let created = place_bid::created_handle(handle);
                let submitted = place_bid::submitted_bid(
                    book.key,
                    record,
                    bidder,
                    bump,
                    now,
                    created,
                );
                if book.has_record_of(bidder) {
                    let position = book.position_of(bidder);
                    lemma_processed_count_update(book.bids, position, submitted);
                } else {
                    lemma_processed_count_push(book.bids, submitted);
                }
            }
        },
        Step::DetermineWinner { bidder, selection } => {
            let record = book.record_of(bidder);
            if book.has_record_of(bidder) && determine_winner::rejection(
                book.key,
                book.auction,
                record,
            ) is None && determine_winner::selection_error(book.auction, selection) is None {
                let position = book.position_of(bidder);
                lemma_pending_bid_leaves_room(book, bidder);
                lemma_processed_count_update(
                    book.bids,
                    position,
                    Bid { processed: true, ..record },
                );
            }
        },
        _ => {},
    }
}

/// A processed bid stays processed, and every record keeps its auction and
/// its bidder, whatever step is taken.
pub proof fn lemma_processed_is_permanent(book: Book, step: Step, position: int)
    requires
        book.wf(),
        0 <= position < book.bids.len(),
    ensures
        position < book.next(step).bids.len(),
        book.next(step).bids[position].auction == book.bids[position].auction,
        book.next(step).bids[position].bidder == book.bids[position].bidder,
        book.bids[position].processed ==> book.next(step).bids[position].processed,
{
}

/// Whether the lifecycle lets an auction move from `from` to `to`:
/// `Open → Closed → WinnerDetermined → Settled`, and `Cancelled` from `Open`
/// or `Closed`.
pub open spec fn lifecycle_allows(from: AuctionState, to: AuctionState) -> bool {
    match (from, to) {
        (AuctionState::Open, AuctionState::Closed) => true,
        (AuctionState::Open, AuctionState::Cancelled) => true,
        (AuctionState::Closed, AuctionState::WinnerDetermined) => true,
        (AuctionState::Closed, AuctionState::Cancelled) => true,
        (AuctionState::WinnerDetermined, AuctionState::Settled) => true,
        _ => false,
    }
}

/// Whether two auction records state the same terms: seller, asset, texts,
/// reserve price, times, identifier and addressing seed.
pub open spec fn same_terms(auction: Auction, other: Auction) -> bool {
    &&& auction.seller == other.seller
    &&& auction.item_mint == other.item_mint
    &&& auction.title == other.title
    &&& auction.description == other.description
    &&& auction.reserve_price == other.reserve_price
    &&& auction.start_time == other.start_time
    &&& auction.end_time == other.end_time
    &&& auction.auction_id == other.auction_id
    &&& auction.bump == other.bump
}

/// A step leaves the state of the auction as it is or moves it along the
/// lifecycle, and never touches its terms. Nothing leaves `Settled` or
/// `Cancelled`: there a step changes nothing at all.
pub proof fn lemma_lifecycle_is_followed(book: Book, step: Step)
    ensures
        book.next(step).auction.state == book.auction.state || lifecycle_allows(
            book.auction.state,
            book.next(step).auction.state,
        ),
        same_terms(book.next(step).auction, book.auction),
        book.auction.state is Settled || book.auction.state is Cancelled ==> book.next(step)
            == book,
{
}

/// The winner and the winning amount are set once. The winner is set by the
/// step that moves the auction to `WinnerDetermined`, to the leader of that
/// moment, and only when every bid of an auction with bids has been
/// processed; the winning amount by the step that moves it to `Settled`, to
/// an amount that is at least the reserve price. No other step changes
/// either.
pub proof fn lemma_outcome_is_set_once(book: Book, step: Step)
    ensures
        book.next(step).auction.winner != book.auction.winner ==> {
            &&& book.auction.state is Closed
            &&& book.next(step).auction.state is WinnerDetermined
            &&& book.next(step).auction.winner == book.auction.current_leader
            &&& finalize_winner::reduction_complete(book.auction)
        },
        book.next(step).auction.winning_amount != book.auction.winning_amount ==> {
            &&& book.auction.state is WinnerDetermined
            &&& book.next(step).auction.state is Settled
            &&& book.next(step).auction.winning_amount >= book.auction.reserve_price
        },
{
}

} // verus!
