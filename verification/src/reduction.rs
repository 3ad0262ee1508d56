//! What the reduction computes when the confidential value service answers
//! truthfully.
//!
//! The amounts behind the handles are unknown to the auction. The laws
//! below hold for every assignment `value` of amounts to handles: they say
//! what winner determination arrives at, whatever the amounts are, as long
//! as the service selects the candidate exactly when its amount is greater
//! than or equal to the incumbent's.

use crate::instructions::determine_winner::folded;
use crate::state::auction::Auction;
use crate::state::bid::Bid;
use vstd::prelude::*;

verus! {

/// The handle that a truthful service selects: the candidate if its amount
/// is greater than or equal to the incumbent's, else the incumbent.
pub open spec fn truthful_selection(
    value: spec_fn(u128) -> nat,
    candidate: u128,
    incumbent: u128,
) -> u128 {
    if value(candidate) >= value(incumbent) {
        candidate
    } else {
        incumbent
    }
}

/// The auction after `bids` have been folded in, one after the other in
/// the order of the sequence, with a truthful service.
pub open spec fn reduced(auction: Auction, bids: Seq<Bid>, value: spec_fn(u128) -> nat) -> Auction
    decreases bids.len(),
{
    if bids.len() == 0 {
        auction
    } else {
        let before = reduced(auction, bids.drop_last(), value);
        let bid = bids.last();
        folded(
            before,
            bid,
            truthful_selection(value, bid.encrypted_amount, before.highest_bid_handle),
        )
    }
}

/// Whether every bid holds a handle.
pub open spec fn all_submitted(bids: Seq<Bid>) -> bool {
    forall|i: int| 0 <= i < bids.len() ==> !(#[trigger] bids[i]).is_unsubmitted()
}

/// Whether no two bids hold the same handle.
pub open spec fn distinct_handles(bids: Seq<Bid>) -> bool {
    forall|i: int, j: int|
        0 <= i < j < bids.len() ==> (#[trigger] bids[i]).encrypted_amount != (
        #[trigger] bids[j]).encrypted_amount
}

/// Whether the running maximum and the leader of `auction` are those that
/// `bid` would set.
pub open spec fn led_by(auction: Auction, bid: Bid) -> bool {
    auction.highest_bid_handle == bid.encrypted_amount && auction.current_leader == bid.bidder
}

/// Whether two auctions have the same running maximum and the same leader.
pub open spec fn same_lead(auction: Auction, other: Auction) -> bool {
    auction.highest_bid_handle == other.highest_bid_handle && auction.current_leader
        == other.current_leader
}

/// The running maximum after a reduction is worth at least as much as every
/// bid folded in and as the running maximum it started from. It is set as
/// soon as one bid has been folded in. It and the leader are those that the
/// reduction started from, or those of one of the bids.
pub proof fn lemma_reduced_dominates(
    auction: Auction,
    bids: Seq<Bid>,
    value: spec_fn(u128) -> nat,
)
    requires
        all_submitted(bids),
    ensures
        forall|i: int|
            0 <= i < bids.len() ==> value((#[trigger] bids[i]).encrypted_amount) <= value(
                reduced(auction, bids, value).highest_bid_handle,
            ),
        auction.highest_bid_handle != 0 ==> value(auction.highest_bid_handle) <= value(
            reduced(auction, bids, value).highest_bid_handle,
        ),
        auction.highest_bid_handle != 0 || bids.len() > 0 ==> reduced(
            auction,
            bids,
            value,
        ).highest_bid_handle != 0,
        same_lead(reduced(auction, bids, value), auction) || exists|i: int|
            0 <= i < bids.len() && led_by(reduced(auction, bids, value), #[trigger] bids[i]),
    decreases bids.len(),
{
    if bids.len() > 0 {
        let earlier = bids.drop_last();
        let before = reduced(auction, earlier, value);
        let after = reduced(auction, bids, value);
        let last = bids.len() - 1;
        lemma_reduced_dominates(auction, earlier, value);
        assert(!bids[last].is_unsubmitted());
        assert forall|i: int| 0 <= i < bids.len() implies value(
            (#[trigger] bids[i]).encrypted_amount,
        ) <= value(after.highest_bid_handle) by {
            if i < last {
                assert(earlier[i] == bids[i]);
            }
        }
        if !led_by(after, bids[last]) && exists|i: int|
            0 <= i < earlier.len() && led_by(before, #[trigger] earlier[i]) {
            let i = choose|i: int| 0 <= i < earlier.len() && led_by(before, #[trigger] earlier[i]);
            assert(earlier[i] == bids[i]);
        }
    }
}

/// Winner determination is independent of the order in which the bids are
/// processed, as far as the amount of the final running maximum goes: two
/// reductions of the same bids, from the same auction, end on running
/// maxima of the same amount.
pub proof fn lemma_reduction_order_independent(
    auction: Auction,
    first: Seq<Bid>,
    second: Seq<Bid>,
    value: spec_fn(u128) -> nat,
)
    requires
        first.to_multiset() == second.to_multiset(),
        all_submitted(first),
    ensures
        value(reduced(auction, first, value).highest_bid_handle) == value(
            reduced(auction, second, value).highest_bid_handle,
        ),
{
    first.to_multiset_ensures();
    second.to_multiset_ensures();
    assert forall|j: int| 0 <= j < second.len() implies !(#[trigger] second[j]).is_unsubmitted(
    ) by {
        assert(second.contains(second[j]));
        assert(second.to_multiset().count(second[j]) > 0);
        assert(first.to_multiset().count(second[j]) > 0);
        assert(first.contains(second[j]));
    }
    lemma_reduced_dominates(auction, first, value);
    lemma_reduced_dominates(auction, second, value);
    lemma_dominated_by_rearrangement(auction, first, second, value);
    lemma_dominated_by_rearrangement(auction, second, first, value);
}

/// The running maximum that a reduction of `first` ends on is worth no more
/// than the one that a reduction of the same bids in another order ends on.
proof fn lemma_dominated_by_rearrangement(
    auction: Auction,
    first: Seq<Bid>,
    second: Seq<Bid>,
    value: spec_fn(u128) -> nat,
)
    requires
        first.to_multiset() == second.to_multiset(),
        all_submitted(first),
        all_submitted(second),
    ensures
        value(reduced(auction, first, value).highest_bid_handle) <= value(
            reduced(auction, second, value).highest_bid_handle,
        ),
{
    first.to_multiset_ensures();
    second.to_multiset_ensures();
    lemma_reduced_dominates(auction, first, value);
    lemma_reduced_dominates(auction, second, value);
    let end = reduced(auction, first, value);
    if exists|i: int| 0 <= i < first.len() && led_by(end, #[trigger] first[i]) {
        let i = choose|i: int| 0 <= i < first.len() && led_by(end, #[trigger] first[i]);
        assert(first.contains(first[i]));
        assert(first.to_multiset().count(first[i]) > 0);
        assert(second.to_multiset().count(first[i]) > 0);
        assert(second.contains(first[i]));
        let j = choose|j: int| 0 <= j < second.len() && second[j] == first[i];
        assert(value(second[j].encrypted_amount) <= value(
            reduced(auction, second, value).highest_bid_handle,
        ));
    } else if auction.highest_bid_handle == 0 {
        assert(first.len() == 0);
        assert(second.len() == 0);
    }
}

/// The auction with `bid` as its running maximum and the bidder of `bid`
/// as its leader.
pub open spec fn seeded_with(auction: Auction, bid: Bid) -> Auction {
    Auction { highest_bid_handle: bid.encrypted_amount, current_leader: bid.bidder, ..auction }
}

/// The two ways in which the first bid can become the running maximum come
/// to the same: whether it was adopted when it was submitted, or is adopted
/// when its turn in the reduction comes, the reduction ends on the same
/// auction record.
pub proof fn lemma_seeding_paths_agree(
    auction: Auction,
    bids: Seq<Bid>,
    value: spec_fn(u128) -> nat,
)
    requires
        auction.highest_bid_handle == 0,
        bids.len() > 0,
        !bids[0].is_unsubmitted(),
    ensures
        reduced(seeded_with(auction, bids[0]), bids, value) == reduced(auction, bids, value),
    decreases bids.len(),
{
    let earlier = bids.drop_last();
    if earlier.len() > 0 {
        assert(earlier[0] == bids[0]);
        lemma_seeding_paths_agree(auction, earlier, value);
    } else {
        assert(bids.last() == bids[0]);
        assert(reduced(auction, earlier, value) == auction);
        assert(reduced(seeded_with(auction, bids[0]), earlier, value) == seeded_with(
            auction,
            bids[0],
        ));
    }
}

/// Ties go to the bid processed last. If the bid at position `last_best`
/// is worth at least as much as every other bid and as the running maximum
/// that the reduction starts from, and more than every bid processed after
/// it, then the reduction ends with that bid as the running maximum and its
/// bidder as the leader.
///
/// This holds where the handles tell the bids apart: no two bids hold the
/// same handle, and a bid that holds the handle of the running maximum at
/// the start is the bid of the leader at the start.
pub proof fn lemma_last_best_bid_leads(
    auction: Auction,
    bids: Seq<Bid>,
    value: spec_fn(u128) -> nat,
    last_best: int,
)
    requires
        all_submitted(bids),
        distinct_handles(bids),
        forall|i: int|
            0 <= i < bids.len() && (#[trigger] bids[i]).encrypted_amount
                == auction.highest_bid_handle ==> bids[i].bidder == auction.current_leader,
        0 <= last_best < bids.len(),
        forall|i: int|
            0 <= i < bids.len() ==> value((#[trigger] bids[i]).encrypted_amount) <= value(
                bids[last_best].encrypted_amount,
            ),
        forall|i: int|
            last_best < i < bids.len() ==> value((#[trigger] bids[i]).encrypted_amount) < value(
                bids[last_best].encrypted_amount,
            ),
        auction.highest_bid_handle != 0 ==> value(auction.highest_bid_handle) <= value(
            bids[last_best].encrypted_amount,
        ),
    ensures
        led_by(reduced(auction, bids, value), bids[last_best]),
    decreases bids.len(),
{
    let earlier = bids.drop_last();
    let before = reduced(auction, earlier, value);
    let last = bids.len() - 1;
    assert(!bids[last].is_unsubmitted());
    assert(all_submitted(earlier)) by {
        assert forall|i: int| 0 <= i < earlier.len() implies !(
        #[trigger] earlier[i]).is_unsubmitted() by {
            assert(earlier[i] == bids[i]);
        }
    }
    if last_best < last {
        assert(distinct_handles(earlier)) by {
            assert forall|i: int, j: int| 0 <= i < j < earlier.len() implies (
            #[trigger] earlier[i]).encrypted_amount != (
            #[trigger] earlier[j]).encrypted_amount by {
                assert(earlier[i] == bids[i]);
                assert(earlier[j] == bids[j]);
            }
        }
        assert forall|i: int|
            0 <= i < earlier.len() && (#[trigger] earlier[i]).encrypted_amount
                == auction.highest_bid_handle implies earlier[i].bidder
            == auction.current_leader by {
            assert(earlier[i] == bids[i]);
        }
        assert forall|i: int| 0 <= i < earlier.len() implies value(
            (#[trigger] earlier[i]).encrypted_amount,
        ) <= value(earlier[last_best].encrypted_amount) by {
            assert(earlier[i] == bids[i]);
        }
        assert forall|i: int| last_best < i < earlier.len() implies value(
            (#[trigger] earlier[i]).encrypted_amount,
        ) < value(earlier[last_best].encrypted_amount) by {
            assert(earlier[i] == bids[i]);
        }
        lemma_last_best_bid_leads(auction, earlier, value, last_best);
    } else {
        lemma_reduced_dominates(auction, earlier, value);
        if before.highest_bid_handle != 0 && exists|i: int|
            0 <= i < earlier.len() && led_by(before, #[trigger] earlier[i]) {
            let i = choose|i: int| 0 <= i < earlier.len() && led_by(before, #[trigger] earlier[i]);
            assert(earlier[i] == bids[i]);
            assert(bids[i].encrypted_amount != bids[last].encrypted_amount);
        }
    }
}

} // verus!
