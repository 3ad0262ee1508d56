//! Creation of an auction by its seller.

use crate::constants::{
    MAX_AUCTION_DURATION, MAX_DESCRIPTION_LENGTH, MAX_TITLE_LENGTH, MIN_AUCTION_DURATION,
};
use crate::errors::ShadowBidError;
use crate::events::AuctionCreated;
use crate::pubkey::Pubkey;
use crate::state::auction::{Auction, AuctionState};
use crate::text::{lemma_padded_text_reads_back, trim_nuls, zero_pad, zero_padded};
use vstd::prelude::*;
use vstd::string::StringSliceAdditionalSpecFns;
use vstd::utf8::{decode_utf8, encode_utf8, valid_utf8};

verus! {

/// The terms that a seller sets for a new auction.
#[derive(Clone, Debug, PartialEq, Eq)]
pub struct CreateAuctionParams {
    /// Identifier of the auction, chosen by the seller.
    pub auction_id: u64,
    /// Title, at most 64 bytes of UTF-8.
    pub title: String,
    /// Description, at most 256 bytes of UTF-8.
    pub description: String,
    /// Least amount the winner must pay; not zero.
    pub reserve_price: u64,
    /// How long bidding lasts, in seconds.
    pub duration: i64,
    /// The asset being auctioned, if one is linked.
    pub item_mint: Option<Pubkey>,
}

/// Why the terms are refused, if they are. The first reason that applies
/// is the one reported:
/// - the title takes more than 64 bytes;
/// - the description takes more than 256 bytes;
/// - the duration is under 60 seconds;
/// - the duration is over 604800 seconds;
/// - the reserve price is zero.
pub open spec fn rejection(params: CreateAuctionParams) -> Option<ShadowBidError> {
    if encode_utf8(params.title@).len() > MAX_TITLE_LENGTH {
        Some(ShadowBidError::TitleTooLong)
    } else if encode_utf8(params.description@).len() > MAX_DESCRIPTION_LENGTH {
        Some(ShadowBidError::DescriptionTooLong)
    } else if params.duration < MIN_AUCTION_DURATION {
        Some(ShadowBidError::DurationTooShort)
    } else if params.duration > MAX_AUCTION_DURATION {
        Some(ShadowBidError::DurationTooLong)
    } else if params.reserve_price == 0 {
        Some(ShadowBidError::InvalidReservePrice)
    } else {
        None
    }
}

/// The asset that the terms link: the one named, or the sentinel.
pub open spec fn linked_item(params: CreateAuctionParams) -> Pubkey {
    match params.item_mint {
        Some(mint) => mint,
        None => Pubkey::sentinel(),
    }
}

/// Whether `auction` is the auction that `seller` creates at `now` with
/// the terms `params`: open from `now` for the duration asked, with no bid
/// counted or processed, no running maximum, no leader, no winner and no
/// winning amount, and with the texts padded with zero bytes to their full
/// width.
pub open spec fn is_creation_of(
    auction: Auction,
    seller: Pubkey,
    params: CreateAuctionParams,
    now: i64,
    bump: u8,
) -> bool {
    &&& auction.seller == seller
    &&& auction.item_mint == linked_item(params)
    &&& auction.title@ == zero_padded(encode_utf8(params.title@), MAX_TITLE_LENGTH as nat)
    &&& auction.description@ == zero_padded(
        encode_utf8(params.description@),
        MAX_DESCRIPTION_LENGTH as nat,
    )
    &&& auction.reserve_price == params.reserve_price
    &&& auction.start_time == now
    &&& auction.end_time == now + params.duration
    &&& auction.state is Open
    &&& auction.bid_count == 0
    &&& auction.bids_processed == 0
    &&& auction.highest_bid_handle == 0
    &&& auction.current_leader.is_sentinel()
    &&& auction.winner.is_sentinel()
    &&& auction.winning_amount == 0
    &&& auction.auction_id == params.auction_id
    &&& auction.bump == bump
}

/// Checks the terms of a new auction against their bounds.
pub fn validate(params: &CreateAuctionParams) -> (verdict: Result<(), ShadowBidError>)
    ensures
        verdict == match rejection(*params) {
            Some(error) => Err::<(), ShadowBidError>(error),
            None => Ok(()),
        },
{
    if params.title.as_str().as_bytes().len() > MAX_TITLE_LENGTH {
        return Err(ShadowBidError::TitleTooLong);
    }
    if params.description.as_str().as_bytes().len() > MAX_DESCRIPTION_LENGTH {
        return Err(ShadowBidError::DescriptionTooLong);
    }
    if params.duration < MIN_AUCTION_DURATION {
        return Err(ShadowBidError::DurationTooShort);
    }
    if params.duration > MAX_AUCTION_DURATION {
        return Err(ShadowBidError::DurationTooLong);
    }
    if params.reserve_price == 0 {
        return Err(ShadowBidError::InvalidReservePrice);
    }
    Ok(())
}

/// The texts of a new auction read back as the seller gave them: the
/// stored title and description are valid UTF-8 and decode, once the NUL
/// characters at the end are trimmed, to the title and the description of
/// the terms, trimmed likewise.
pub proof fn lemma_created_texts_read_back(
    auction: Auction,
    seller: Pubkey,
    params: CreateAuctionParams,
    now: i64,
    bump: u8,
)
    requires
        rejection(params) is None,
        is_creation_of(auction, seller, params, now, bump),
    ensures
        valid_utf8(auction.title@),
        trim_nuls(decode_utf8(auction.title@)) == trim_nuls(params.title@),
        valid_utf8(auction.description@),
        trim_nuls(decode_utf8(auction.description@)) == trim_nuls(params.description@),
{
    lemma_padded_text_reads_back(params.title@, MAX_TITLE_LENGTH as nat);
    lemma_padded_text_reads_back(params.description@, MAX_DESCRIPTION_LENGTH as nat);
}

/// Creates an auction.
///
/// The terms are refused for the reasons that `rejection` lists. Else the
/// new auction is handed back, open from `now` until `now` plus the
/// duration, together with the signal of its creation.
///
/// The end time must be representable: the caller leaves out a `now` so
/// late that accepted terms would end past the last second of `i64`.
pub fn handler(
    auction_key: Pubkey,
    seller: Pubkey,
    params: CreateAuctionParams,
    now: i64,
    bump: u8,
) -> (result: Result<(Auction, AuctionCreated), ShadowBidError>)
    requires
        rejection(params) is None ==> now + params.duration <= i64::MAX,
    ensures
        match rejection(params) {
            Some(error) => result == Err::<(Auction, AuctionCreated), ShadowBidError>(error),
            None => {
                &&& result matches Ok((auction, signal))
                &&& is_creation_of(auction, seller, params, now, bump)
                &&& auction.wf()
                &&& signal.auction == auction_key
                &&& signal.seller == seller
                &&& signal.title@ == params.title@
                &&& signal.reserve_price == params.reserve_price
                &&& signal.start_time == now
                &&& signal.end_time == now + params.duration
            },
        },
{
    match validate(&params) {
        Err(error) => {
            return Err(error);
        },
        Ok(()) => {},
    }
    let item_mint = match params.item_mint {
        Some(mint) => mint,
        None => Pubkey::default(),
    };
    let auction = Auction {
        seller,
        item_mint,
        title: zero_pad::<MAX_TITLE_LENGTH>(params.title.as_str().as_bytes()),
        description: zero_pad::<MAX_DESCRIPTION_LENGTH>(params.description.as_str().as_bytes()),
        reserve_price: params.reserve_price,
        start_time: now,
        end_time: now + params.duration,
        state: AuctionState::Open,
        bid_count: 0,
        bids_processed: 0,
        highest_bid_handle: 0,
        current_leader: Pubkey::default(),
        winner: Pubkey::default(),
        winning_amount: 0,
        auction_id: params.auction_id,
        bump,
    };
    let signal = AuctionCreated {
        auction: auction_key,
        seller,
        title: params.title,
        reserve_price: params.reserve_price,
        start_time: auction.start_time,
        end_time: auction.end_time,
    };
    Ok((auction, signal))
}

} // verus!
