//! The bid record: one per auction and bidder.

use crate::pubkey::Pubkey;
use vstd::prelude::*;

verus! {

/// The bid of one bidder in one auction. The amount is only ever present as
/// a handle of the confidential value service.
#[derive(Clone, Copy, Debug, PartialEq, Eq)]
pub struct Bid {
    /// The auction the bid belongs to.
    pub auction: Pubkey,
    /// The bidder.
    pub bidder: Pubkey,
    /// Handle of the encrypted amount, or zero before the first submission.
    pub encrypted_amount: u128,
    /// When the bid was first submitted, in epoch seconds.
    pub created_at: i64,
    /// When the bid was last submitted, in epoch seconds.
    pub updated_at: i64,
    /// Whether the bid has been folded into the running maximum.
    pub processed: bool,
    /// Addressing seed of the record.
    pub bump: u8,
}

impl Bid {
    /// The record before the first submission: no handle, no identities,
    /// nothing processed.
    pub open spec fn blank() -> Bid {
        Bid {
            auction: Pubkey::sentinel(),
            bidder: Pubkey::sentinel(),
            encrypted_amount: 0,
            created_at: 0,
            updated_at: 0,
            processed: false,
            bump: 0,
        }
    }

    /// Whether the record has never held a submission.
    pub open spec fn is_unsubmitted(self) -> bool {
        self.encrypted_amount == 0
    }

    /// Whether the bid has been folded into the running maximum.
    pub fn is_processed(&self) -> (processed: bool)
        ensures
            processed == self.processed,
    {
        self.processed
    }

    /// Whether the bid belongs to `auction`.
    pub fn belongs_to_auction(&self, auction: &Pubkey) -> (belongs: bool)
        ensures
            belongs == (self.auction == *auction),
    {
        self.auction == *auction
    }

    /// Whether the bid was placed by `bidder`.
    pub fn is_from_bidder(&self, bidder: &Pubkey) -> (is_from: bool)
        ensures
            is_from == (self.bidder == *bidder),
    {
        self.bidder == *bidder
    }
}

impl Default for Bid {
    /// The record before the first submission.
    fn default() -> (bid: Bid)
        ensures
            bid == Bid::blank(),
    {
        Bid {
            auction: Pubkey::default(),
            bidder: Pubkey::default(),
            encrypted_amount: 0,
            created_at: 0,
            updated_at: 0,
            processed: false,
            bump: 0,
        }
    }
}

} // verus!
