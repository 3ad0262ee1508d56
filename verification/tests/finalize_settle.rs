use shadowbid::errors::{ErrorKind, ShadowBidError};
use shadowbid::events::{AuctionSettled, WinnerDetermined};
use shadowbid::instructions::settle_auction::{Payment, Settlement};
use shadowbid::instructions::{finalize_winner, settle_auction};
use shadowbid::plaintext::decode_amount;
use shadowbid::pubkey::Pubkey;
use shadowbid::service::{DecryptGrant, ServiceFault};
use shadowbid::state::auction::{Auction, AuctionState};

fn key(tag: u8) -> Pubkey {
    Pubkey::new_from_array([tag; 32])
}

fn reduced_auction(bid_count: u32, bids_processed: u32) -> Auction {
    Auction {
        seller: key(1),
        item_mint: Pubkey::default(),
        title: [0u8; 64],
        description: [0u8; 256],
        reserve_price: 100,
        start_time: 1_000,
        end_time: 1_100,
        state: AuctionState::Closed,
        bid_count,
        bids_processed,
        highest_bid_handle: 555,
        current_leader: key(3),
        winner: Pubkey::default(),
        winning_amount: 0,
        auction_id: 1,
        bump: 0,
    }
}

fn decided_auction() -> Auction {
    let mut auction = reduced_auction(2, 2);
    finalize_winner::handler(key(100), &mut auction, key(3), 1_200, Ok(())).unwrap();
    auction
}

#[test]
fn finalize_fixes_the_leader_as_winner() {
    let mut auction = reduced_auction(2, 2);
    assert_eq!(
        finalize_winner::prepare(&auction, key(3)),
        Ok(DecryptGrant { handle: 555, grantee: key(3) })
    );
    let signal = finalize_winner::handler(key(100), &mut auction, key(3), 1_200, Ok(()));
    assert_eq!(
        signal,
        Ok(WinnerDetermined { auction: key(100), winner: key(3), timestamp: 1_200 })
    );
    assert_eq!(
        auction,
        Auction { winner: key(3), state: AuctionState::WinnerDetermined, ..reduced_auction(2, 2) }
    );
    assert!(auction.is_well_formed());
    assert!(auction.all_bids_processed());
}

#[test]
fn finalize_fails_while_a_bid_is_left() {
    let mut auction = reduced_auction(2, 1);
    assert!(!auction.all_bids_processed());
    let refused = finalize_winner::handler(key(100), &mut auction, key(3), 1_200, Ok(()));
    assert_eq!(refused, Err(ShadowBidError::NoBidsPlaced));
    assert_eq!(refused.unwrap_err().kind(), ErrorKind::Incomplete);
    assert_eq!(finalize_winner::prepare(&auction, key(3)), Err(ShadowBidError::NoBidsPlaced));
    assert_eq!(auction, reduced_auction(2, 1));
}

#[test]
fn finalize_fails_without_bids() {
    let mut auction = reduced_auction(0, 0);
    let refused = finalize_winner::handler(key(100), &mut auction, key(3), 1_200, Ok(()));
    assert_eq!(refused, Err(ShadowBidError::NoBidsPlaced));
    assert_eq!(auction, reduced_auction(0, 0));
}

#[test]
fn finalize_fails_when_more_is_processed_than_counted() {
    let mut auction = reduced_auction(1, 2);
    let refused = finalize_winner::handler(key(100), &mut auction, key(3), 1_200, Ok(()));
    assert_eq!(refused, Err(ShadowBidError::NoBidsPlaced));
}

#[test]
fn finalize_fails_outside_closed() {
    for state in [
        AuctionState::Open,
        AuctionState::WinnerDetermined,
        AuctionState::Settled,
        AuctionState::Cancelled,
    ] {
        let mut auction = Auction { state, ..reduced_auction(2, 2) };
        let before = auction;
        let refused = finalize_winner::handler(key(100), &mut auction, key(3), 1_200, Ok(()));
        assert_eq!(refused, Err(ShadowBidError::AuctionNotClosed));
        assert_eq!(refused.unwrap_err().kind(), ErrorKind::WrongState);
        assert_eq!(auction, before);
    }
}

#[test]
fn finalize_fails_for_another_identity_than_the_leader() {
    let mut auction = reduced_auction(2, 2);
    let refused = finalize_winner::handler(key(100), &mut auction, key(2), 1_200, Ok(()));
    assert_eq!(refused, Err(ShadowBidError::NotWinner));
    assert_eq!(refused.unwrap_err().kind(), ErrorKind::NotAuthorized);
    assert_eq!(auction, reduced_auction(2, 2));
}

#[test]
fn finalize_fails_without_a_leader() {
    let mut auction = Auction { current_leader: Pubkey::default(), ..reduced_auction(2, 2) };
    let before = auction;
    let refused =
        finalize_winner::handler(key(100), &mut auction, Pubkey::default(), 1_200, Ok(()));
    assert_eq!(refused, Err(ShadowBidError::WinnerNotSet));
    assert_eq!(refused.unwrap_err().kind(), ErrorKind::NoWinner);
    assert_eq!(auction, before);
}

#[test]
fn missing_leader_is_reported_whoever_is_named() {
    let mut auction = Auction { current_leader: Pubkey::default(), ..reduced_auction(2, 2) };
    let before = auction;
    for named in [key(3), key(1), Pubkey::default()] {
        let refused = finalize_winner::handler(key(100), &mut auction, named, 1_200, Ok(()));
        assert_eq!(refused, Err(ShadowBidError::WinnerNotSet));
        assert_eq!(refused.unwrap_err().kind(), ErrorKind::NoWinner);
        assert_eq!(finalize_winner::prepare(&auction, named), Err(ShadowBidError::WinnerNotSet));
        assert_eq!(auction, before);
    }
    assert_eq!(auction.winner, Pubkey::default());
    assert_eq!(auction.state, AuctionState::Closed);
}

#[test]
fn finalize_fails_when_the_grant_fails() {
    let mut auction = reduced_auction(2, 2);
    let refused = finalize_winner::handler(
        key(100),
        &mut auction,
        key(3),
        1_200,
        Err(ServiceFault::AttestationVerificationFailed),
    );
    assert_eq!(refused, Err(ShadowBidError::AttestationVerificationFailed));
    assert_eq!(refused.unwrap_err().kind(), ErrorKind::AttestationVerificationFailed);
    assert_eq!(auction, reduced_auction(2, 2));
}

#[test]
fn amount_is_decoded_little_endian() {
    assert_eq!(decode_amount(&[1, 2, 0, 0, 0, 0, 0, 0]), Some(513));
    assert_eq!(decode_amount(&[0, 0, 0, 0, 0, 0, 0, 0x80]), Some(1u64 << 63));
    assert_eq!(decode_amount(&[0xff; 8]), Some(u64::MAX));
    assert_eq!(decode_amount(&0x0102_0304_0506_0708u64.to_le_bytes()), Some(0x0102_0304_0506_0708));
    assert_eq!(decode_amount(&150u128.to_le_bytes()), Some(150));
}

#[test]
fn amount_needs_eight_bytes() {
    assert_eq!(decode_amount(&[]), None);
    assert_eq!(decode_amount(&[1, 2, 3, 4, 5, 6, 7]), None);
    assert_eq!(decode_amount(&[1, 0, 0, 0, 0, 0, 0, 0]), Some(1));
}

#[test]
fn bytes_past_the_width_read_are_ignored() {
    assert_eq!(decode_amount(&[7, 0, 0, 0, 0, 0, 0, 0, 9, 9, 9, 9, 9, 9, 9]), Some(7));
    let mut long = [0u8; 20];
    long[0] = 5;
    long[16] = 1;
    assert_eq!(decode_amount(&long), Some(5));
}

#[test]
fn sixteen_bytes_above_64_bits_claim_no_amount() {
    let wide: u128 = (3u128 << 64) + 42;
    assert_eq!(decode_amount(&wide.to_le_bytes()), None);
    assert_eq!(decode_amount(&u128::MAX.to_le_bytes()), None);
    assert_eq!(decode_amount(&(1u128 << 64).to_le_bytes()), None);
    assert_eq!(decode_amount(&(u64::MAX as u128).to_le_bytes()), Some(u64::MAX));
    let mut long = [0u8; 24];
    long[15] = 1;
    assert_eq!(decode_amount(&long), None);
    long[15] = 0;
    long[16] = 1;
    long[7] = 1;
    assert_eq!(decode_amount(&long), Some(1u64 << 56));
}

#[test]
fn settle_at_the_reserve_is_accepted() {
    let mut auction = decided_auction();
    let settlement = settle_auction::handler(
        key(100),
        &mut auction,
        key(3),
        key(1),
        &100u64.to_le_bytes(),
        1_300,
        Ok(()),
    );
    assert_eq!(
        settlement,
        Ok(Settlement {
            payment: Payment { from: key(3), to: key(1), amount: 100 },
            event: AuctionSettled {
                auction: key(100),
                winner: key(3),
                winning_amount: 100,
                timestamp: 1_300
            },
        })
    );
    assert_eq!(
        auction,
        Auction { winning_amount: 100, state: AuctionState::Settled, ..decided_auction() }
    );
    assert!(auction.is_well_formed());
}

#[test]
fn settle_below_the_reserve_is_refused() {
    let mut auction = decided_auction();
    for plaintext in [99u128.to_le_bytes().to_vec(), 99u64.to_le_bytes().to_vec(), vec![0u8; 32]] {
        let refused = settle_auction::handler(
            key(100),
            &mut auction,
            key(3),
            key(1),
            &plaintext,
            1_300,
            Ok(()),
        );
        assert_eq!(refused, Err(ShadowBidError::InvalidDecryptionProof));
        assert_eq!(refused.unwrap_err().kind(), ErrorKind::InvalidProof);
        assert_eq!(auction, decided_auction());
    }
}

#[test]
fn settle_with_a_short_plaintext_is_refused() {
    let mut auction = decided_auction();
    let refused =
        settle_auction::handler(key(100), &mut auction, key(3), key(1), &[200; 7], 1_300, Ok(()));
    assert_eq!(refused, Err(ShadowBidError::InvalidDecryptionProof));
    assert_eq!(auction, decided_auction());
}

#[test]
fn settle_with_a_plaintext_above_64_bits_is_refused() {
    for wide in [(1u128 << 64) + 250, (1u128 << 64) + 99, 1u128 << 64, u128::MAX] {
        let mut auction = decided_auction();
        let refused = settle_auction::handler(
            key(100),
            &mut auction,
            key(3),
            key(1),
            &wide.to_le_bytes(),
            1_300,
            Ok(()),
        );
        assert_eq!(refused, Err(ShadowBidError::InvalidDecryptionProof));
        assert_eq!(refused.unwrap_err().kind(), ErrorKind::InvalidProof);
        assert_eq!(auction, decided_auction());
    }
}

#[test]
fn settle_with_sixteen_bytes_pays_the_whole_number() {
    let mut auction = decided_auction();
    let settlement = settle_auction::handler(
        key(100),
        &mut auction,
        key(3),
        key(1),
        &(u64::MAX as u128).to_le_bytes(),
        1_300,
        Ok(()),
    )
    .unwrap();
    assert_eq!(settlement.payment.amount, u64::MAX);
    assert_eq!(settlement.event.winning_amount, u64::MAX);
    assert_eq!(auction.winning_amount, u64::MAX);
}

#[test]
fn settle_is_for_the_winner_only() {
    let mut auction = decided_auction();
    let refused = settle_auction::handler(
        key(100),
        &mut auction,
        key(2),
        key(1),
        &500u64.to_le_bytes(),
        1_300,
        Ok(()),
    );
    assert_eq!(refused, Err(ShadowBidError::NotWinner));
    assert_eq!(refused.unwrap_err().kind(), ErrorKind::NotAuthorized);
    assert_eq!(
        settle_auction::prepare(&auction, key(2), key(1), vec![1], vec![2]),
        Err(ShadowBidError::NotWinner)
    );
    assert_eq!(auction, decided_auction());
}

#[test]
fn settle_needs_a_determined_winner() {
    for state in [AuctionState::Open, AuctionState::Closed, AuctionState::Settled, AuctionState::Cancelled] {
        let mut auction = Auction { state, ..decided_auction() };
        let before = auction;
        let refused = settle_auction::handler(
            key(100),
            &mut auction,
            key(3),
            key(1),
            &500u64.to_le_bytes(),
            1_300,
            Ok(()),
        );
        assert_eq!(refused, Err(ShadowBidError::WinnerNotDetermined));
        assert_eq!(refused.unwrap_err().kind(), ErrorKind::WrongState);
        assert_eq!(auction, before);
    }
}

#[test]
fn settle_pays_the_seller_only() {
    let mut auction = decided_auction();
    let refused = settle_auction::handler(
        key(100),
        &mut auction,
        key(3),
        key(4),
        &500u64.to_le_bytes(),
        1_300,
        Ok(()),
    );
    assert_eq!(refused, Err(ShadowBidError::NotSeller));
    assert_eq!(refused.unwrap_err().kind(), ErrorKind::NotAuthorized);
    assert_eq!(auction, decided_auction());
}

#[test]
fn settle_fails_when_the_attestation_fails() {
    let mut auction = decided_auction();
    let refused = settle_auction::handler(
        key(100),
        &mut auction,
        key(3),
        key(1),
        &500u64.to_le_bytes(),
        1_300,
        Err(ServiceFault::AttestationVerificationFailed),
    );
    assert_eq!(refused, Err(ShadowBidError::AttestationVerificationFailed));
    assert_eq!(auction, decided_auction());
}

#[test]
fn settle_twice_is_refused() {
    let mut auction = decided_auction();
    settle_auction::handler(key(100), &mut auction, key(3), key(1), &[200; 8], 1_300, Ok(()))
        .unwrap();
    let before = auction;
    let refused =
        settle_auction::handler(key(100), &mut auction, key(3), key(1), &[201; 8], 1_301, Ok(()));
    assert_eq!(refused, Err(ShadowBidError::WinnerNotDetermined));
    assert_eq!(auction, before);
}

#[test]
fn verification_is_asked_for_one_pair_only() {
    let auction = decided_auction();
    let request =
        settle_auction::prepare(&auction, key(3), key(1), vec![1, 2, 3], vec![4, 5]).unwrap();
    assert_eq!(request.expected_count, 1);
    assert_eq!(request.handles, vec![vec![1u8, 2, 3]]);
    assert_eq!(request.plaintexts, vec![vec![4u8, 5]]);
    assert_eq!(
        settle_auction::prepare(&auction, key(3), key(7), vec![1], vec![2]),
        Err(ShadowBidError::NotSeller)
    );
    let open = Auction { state: AuctionState::Closed, ..auction };
    assert_eq!(
        settle_auction::prepare(&open, key(3), key(1), vec![1], vec![2]),
        Err(ShadowBidError::WinnerNotDetermined)
    );
}

#[test]
fn grant_is_not_named_before_the_reduction_is_complete() {
    assert_eq!(
        finalize_winner::prepare(&reduced_auction(3, 2), key(3)),
        Err(ShadowBidError::NoBidsPlaced)
    );
    assert_eq!(
        finalize_winner::prepare(&reduced_auction(3, 3), key(4)),
        Err(ShadowBidError::NotWinner)
    );
    let open = Auction { state: AuctionState::Open, ..reduced_auction(3, 3) };
    assert_eq!(finalize_winner::prepare(&open, key(3)), Err(ShadowBidError::AuctionNotClosed));
}
