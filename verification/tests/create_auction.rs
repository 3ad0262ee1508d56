use shadowbid::constants::{
    MAX_AUCTION_DURATION, MAX_DESCRIPTION_LENGTH, MAX_TITLE_LENGTH, MIN_AUCTION_DURATION,
};
use shadowbid::errors::{ErrorKind, ShadowBidError};
use shadowbid::instructions::create_auction::{handler, validate, CreateAuctionParams};
use shadowbid::pubkey::Pubkey;
use shadowbid::state::auction::AuctionState;

fn key(tag: u8) -> Pubkey {
    Pubkey::new_from_array([tag; 32])
}

fn terms() -> CreateAuctionParams {
    CreateAuctionParams {
        auction_id: 42,
        title: String::from("Lot 12"),
        description: String::from("Oak desk"),
        reserve_price: 100,
        duration: 60,
        item_mint: Some(key(9)),
    }
}

#[test]
fn constants_have_their_documented_values() {
    assert_eq!(MIN_AUCTION_DURATION, 60);
    assert_eq!(MAX_AUCTION_DURATION, 604_800);
    assert_eq!(MAX_TITLE_LENGTH, 64);
    assert_eq!(MAX_DESCRIPTION_LENGTH, 256);
}

#[test]
fn creation_sets_every_field() {
    let (auction, signal) = handler(key(100), key(1), terms(), 5_000, 251).unwrap();
    assert_eq!(auction.seller, key(1));
    assert_eq!(auction.item_mint, key(9));
    assert_eq!(auction.reserve_price, 100);
    assert_eq!(auction.start_time, 5_000);
    assert_eq!(auction.end_time, 5_060);
    assert_eq!(auction.state, AuctionState::Open);
    assert_eq!(auction.bid_count, 0);
    assert_eq!(auction.bids_processed, 0);
    assert_eq!(auction.highest_bid_handle, 0);
    assert_eq!(auction.current_leader, Pubkey::default());
    assert_eq!(auction.winner, Pubkey::default());
    assert_eq!(auction.winning_amount, 0);
    assert_eq!(auction.auction_id, 42);
    assert_eq!(auction.bump, 251);
    assert!(auction.is_well_formed());
    assert_eq!(signal.auction, key(100));
    assert_eq!(signal.seller, key(1));
    assert_eq!(signal.title, "Lot 12");
    assert_eq!(signal.reserve_price, 100);
    assert_eq!(signal.start_time, 5_000);
    assert_eq!(signal.end_time, 5_060);
}

#[test]
fn creation_pads_texts_with_zero_bytes() {
    let (auction, _) = handler(key(100), key(1), terms(), 0, 0).unwrap();
    let mut title = [0u8; 64];
    title[..6].copy_from_slice(b"Lot 12");
    assert_eq!(auction.title, title);
    let mut description = [0u8; 256];
    description[..8].copy_from_slice(b"Oak desk");
    assert_eq!(auction.description, description);
}

#[test]
fn creation_without_item_links_the_sentinel() {
    let mut params = terms();
    params.item_mint = None;
    let (auction, _) = handler(key(100), key(1), params, 0, 0).unwrap();
    assert_eq!(auction.item_mint, Pubkey::default());
    assert_eq!(auction.item_mint.to_bytes(), [0u8; 32]);
    assert!(auction.item_mint.is_default());
    assert!(!key(1).is_default());
}

#[test]
fn texts_read_back_as_given() {
    let mut params = terms();
    params.title = String::from("Zürich — 湖");
    params.description = String::from("x".repeat(256));
    let (auction, _) = handler(key(100), key(1), params, 0, 0).unwrap();
    assert_eq!(auction.get_title(), "Zürich — 湖");
    assert_eq!(auction.get_description(), "x".repeat(256));
}

#[test]
fn empty_texts_read_back_empty() {
    let mut params = terms();
    params.title = String::new();
    params.description = String::new();
    let (auction, _) = handler(key(100), key(1), params, 0, 0).unwrap();
    assert_eq!(auction.get_title(), "");
    assert_eq!(auction.get_description(), "");
}

#[test]
fn reading_back_trims_only_trailing_nuls() {
    let (mut auction, _) = handler(key(100), key(1), terms(), 0, 0).unwrap();
    auction.title = [0u8; 64];
    auction.title[0] = b'a';
    auction.title[1] = 0;
    auction.title[2] = b'b';
    assert_eq!(auction.get_title(), "a\0b");
}

#[test]
fn reading_back_replaces_invalid_bytes() {
    let (mut auction, _) = handler(key(100), key(1), terms(), 0, 0).unwrap();
    auction.title = [0u8; 64];
    auction.title[0] = b'o';
    auction.title[1] = 0xff;
    auction.title[2] = b'k';
    assert_eq!(auction.get_title(), "o\u{fffd}k");
    auction.description = [0xffu8; 256];
    assert_eq!(auction.get_description(), "\u{fffd}".repeat(256));
}

#[test]
fn title_length_is_counted_in_bytes() {
    let mut params = terms();
    params.title = "é".repeat(32);
    assert_eq!(params.title.len(), 64);
    assert!(handler(key(100), key(1), params, 0, 0).is_ok());
    let mut params = terms();
    params.title = format!("{}a", "é".repeat(32));
    assert_eq!(params.title.chars().count(), 33);
    assert_eq!(handler(key(100), key(1), params, 0, 0), Err(ShadowBidError::TitleTooLong));
}

#[test]
fn title_of_65_bytes_is_refused() {
    let mut params = terms();
    params.title = "t".repeat(64);
    assert!(handler(key(100), key(1), params, 0, 0).is_ok());
    let mut params = terms();
    params.title = "t".repeat(65);
    let refused = handler(key(100), key(1), params, 0, 0);
    assert_eq!(refused, Err(ShadowBidError::TitleTooLong));
    assert_eq!(refused.unwrap_err().kind(), ErrorKind::InvalidInput);
}

#[test]
fn description_of_257_bytes_is_refused() {
    let mut params = terms();
    params.description = "d".repeat(256);
    assert!(handler(key(100), key(1), params, 0, 0).is_ok());
    let mut params = terms();
    params.description = "d".repeat(257);
    let refused = handler(key(100), key(1), params, 0, 0);
    assert_eq!(refused, Err(ShadowBidError::DescriptionTooLong));
    assert_eq!(refused.unwrap_err().kind(), ErrorKind::InvalidInput);
}

#[test]
fn duration_bounds_are_inclusive() {
    let mut params = terms();
    params.duration = 59;
    let refused = handler(key(100), key(1), params, 0, 0);
    assert_eq!(refused, Err(ShadowBidError::DurationTooShort));
    assert_eq!(refused.unwrap_err().kind(), ErrorKind::InvalidInput);
    let mut params = terms();
    params.duration = 604_800;
    let (auction, _) = handler(key(100), key(1), params, 10, 0).unwrap();
    assert_eq!(auction.end_time, 604_810);
    let mut params = terms();
    params.duration = 604_801;
    let refused = handler(key(100), key(1), params, 0, 0);
    assert_eq!(refused, Err(ShadowBidError::DurationTooLong));
    assert_eq!(refused.unwrap_err().kind(), ErrorKind::InvalidInput);
    let mut params = terms();
    params.duration = -5;
    assert_eq!(handler(key(100), key(1), params, 0, 0), Err(ShadowBidError::DurationTooShort));
}

#[test]
fn zero_reserve_is_refused() {
    let mut params = terms();
    params.reserve_price = 0;
    let refused = handler(key(100), key(1), params, 0, 0);
    assert_eq!(refused, Err(ShadowBidError::InvalidReservePrice));
    assert_eq!(refused.unwrap_err().kind(), ErrorKind::InvalidInput);
    let mut params = terms();
    params.reserve_price = 1;
    assert!(handler(key(100), key(1), params, 0, 0).is_ok());
}

#[test]
fn first_violated_bound_is_reported() {
    let mut params = terms();
    params.title = "t".repeat(65);
    params.description = "d".repeat(257);
    params.duration = 1;
    params.reserve_price = 0;
    assert_eq!(handler(key(100), key(1), params.clone(), 0, 0), Err(ShadowBidError::TitleTooLong));
    params.title = String::from("ok");
    assert_eq!(
        handler(key(100), key(1), params.clone(), 0, 0),
        Err(ShadowBidError::DescriptionTooLong)
    );
    params.description = String::from("ok");
    assert_eq!(
        handler(key(100), key(1), params.clone(), 0, 0),
        Err(ShadowBidError::DurationTooShort)
    );
    params.duration = 700_000;
    assert_eq!(handler(key(100), key(1), params.clone(), 0, 0), Err(ShadowBidError::DurationTooLong));
    params.duration = 3_600;
    assert_eq!(handler(key(100), key(1), params, 0, 0), Err(ShadowBidError::InvalidReservePrice));
}

#[test]
fn creation_works_before_the_epoch() {
    let (auction, _) = handler(key(100), key(1), terms(), -30, 0).unwrap();
    assert_eq!(auction.start_time, -30);
    assert_eq!(auction.end_time, 30);
    assert!(auction.is_bidding_open(-30));
    assert!(auction.is_bidding_open(29));
    assert!(!auction.is_bidding_open(30));
    assert!(!auction.is_bidding_open(-31));
    assert!(!auction.is_bidding_ended(29));
    assert!(auction.is_bidding_ended(30));
}

#[test]
fn validation_agrees_with_creation() {
    assert_eq!(validate(&terms()), Ok(()));
    let mut params = terms();
    params.duration = 59;
    assert_eq!(validate(&params), Err(ShadowBidError::DurationTooShort));
    params.title = "t".repeat(65);
    assert_eq!(validate(&params), Err(ShadowBidError::TitleTooLong));
    params.title = String::new();
    params.duration = 60;
    params.description = "d".repeat(300);
    assert_eq!(validate(&params), Err(ShadowBidError::DescriptionTooLong));
    params.description = String::new();
    params.reserve_price = 0;
    assert_eq!(validate(&params), Err(ShadowBidError::InvalidReservePrice));
    params.reserve_price = u64::MAX;
    params.duration = 604_801;
    assert_eq!(validate(&params), Err(ShadowBidError::DurationTooLong));
}
