//! Settlement: the winner proves what the winning bid decrypts to and
//! pays the seller.
//!
//! The proof is an attested decryption. The caller has the confidential
//! value service verify the request that `prepare` builds and hands the
//! outcome to `handler`, which decodes the amount, holds it against the
//! reserve price and authorises the payment. The caller then performs the
//! payment and publishes the signal; should the payment fail, the caller
//! discards the settled record.

use crate::errors::ShadowBidError;
use crate::events::AuctionSettled;
use crate::plaintext::{
    decode_amount, decoded_amount, lemma_le_limits, lemma_le_value_below_limit, spelt_number,
};
use crate::pubkey::Pubkey;
use crate::service::{ServiceFault, VerificationRequest};
use crate::state::auction::{Auction, AuctionState};
use vstd::prelude::*;

verus! {

/// A payment that the settlement authorises.
#[derive(Clone, Copy, Debug, PartialEq, Eq)]
pub struct Payment {
    /// Who pays: the winner.
    pub from: Pubkey,
    /// Who is paid: the seller.
    pub to: Pubkey,
    /// How much.
    pub amount: u64,
}

/// What a settlement hands back: the payment to perform and the signal to
/// publish.
#[derive(Clone, Copy, Debug, PartialEq, Eq)]
pub struct Settlement {
    /// The payment from the winner to the seller.
    pub payment: Payment,
    /// The signal that the auction was settled.
    pub event: AuctionSettled,
}

/// Why the settlement is refused before the proof is looked at, if it is:
/// the caller is not the winner, no winner has been determined, or the
/// account to be paid is not the seller's. The first reason that applies is
/// the one reported.
pub open spec fn rejection(auction: Auction, caller: Pubkey, seller: Pubkey) -> Option<
    ShadowBidError,
> {
    if caller != auction.winner {
        Some(ShadowBidError::NotWinner)
    } else if !(auction.state is WinnerDetermined) {
        Some(ShadowBidError::WinnerNotDetermined)
    } else if seller != auction.seller {
        Some(ShadowBidError::NotSeller)
    } else {
        None
    }
}

/// Why the proof is refused, if it is: the attestation did not verify, the
/// plaintext holds no amount (it is too short, or spells a number that does
/// not fit in 64 bits), or the amount is below the reserve price. The first
/// reason that applies is the one reported.
pub open spec fn proof_error(
    auction: Auction,
    plaintext: Seq<u8>,
    verified: Result<(), ServiceFault>,
) -> Option<ShadowBidError> {
    match verified {
        Err(fault) => Some(fault.as_error()),
        Ok(_) => match decoded_amount(plaintext) {
            None => Some(ShadowBidError::InvalidDecryptionProof),
            Some(amount) => if amount < auction.reserve_price {
                Some(ShadowBidError::InvalidDecryptionProof)
            } else {
                None
            },
        },
    }
}

/// The amount that the plaintext claims, or zero if it claims none.
pub open spec fn claimed_amount(plaintext: Seq<u8>) -> u64 {
    match decoded_amount(plaintext) {
        Some(amount) => amount,
        None => 0,
    }
}

/// The auction after settlement at `amount`.
pub open spec fn settled(auction: Auction, amount: u64) -> Auction {
    Auction { winning_amount: amount, state: AuctionState::Settled, ..auction }
}

/// Checks that `caller` may settle and builds the verification to ask of
/// the confidential value service: exactly one signature, over exactly the
/// one handle and the one plaintext supplied.
pub fn prepare(
    auction: &Auction,
    caller: Pubkey,
    seller: Pubkey,
    handle_bytes: Vec<u8>,
    plaintext_bytes: Vec<u8>,
) -> (request: Result<VerificationRequest, ShadowBidError>)
    ensures
        match rejection(*auction, caller, seller) {
            Some(error) => request == Err::<VerificationRequest, ShadowBidError>(error),
            None => {
                &&& request matches Ok(verification)
                &&& verification.expected_count == 1
                &&& verification.handles@ == seq![handle_bytes]
                &&& verification.plaintexts@ == seq![plaintext_bytes]
            },
        },
{
    if caller != auction.winner {
        return Err(ShadowBidError::NotWinner);
    }
    if auction.state != AuctionState::WinnerDetermined {
        return Err(ShadowBidError::WinnerNotDetermined);
    }
    if seller != auction.seller {
        return Err(ShadowBidError::NotSeller);
    }
    let mut handles: Vec<Vec<u8>> = Vec::new();
    handles.push(handle_bytes);
    let mut plaintexts: Vec<Vec<u8>> = Vec::new();
    plaintexts.push(plaintext_bytes);
    Ok(VerificationRequest { expected_count: 1, handles, plaintexts })
}

/// Settles the auction.
///
/// `plaintext_bytes` is the plaintext claimed for the winning handle and
/// `verified` the outcome of the verification that `prepare` built.
///
/// Refused, with nothing changed, if the caller is not the winner, if no
/// winner has been determined, if `seller` is not the seller, if the
/// attestation did not verify, if the plaintext holds no amount, or if the
/// amount is below the reserve price, however valid the attestation. Else
/// the amount is recorded, the auction is settled, and the payment of
/// exactly that amount from the winner to the seller is authorised: the
/// amount paid is the number that the plaintext spells, never a part of
/// it.
pub fn handler(
    auction_key: Pubkey,
    auction: &mut Auction,
    caller: Pubkey,
    seller: Pubkey,
    plaintext_bytes: &[u8],
    now: i64,
    verified: Result<(), ServiceFault>,
) -> (result: Result<Settlement, ShadowBidError>)
    ensures
        match rejection(*old(auction), caller, seller) {
            Some(error) => {
                &&& result == Err::<Settlement, ShadowBidError>(error)
                &&& *final(auction) == *old(auction)
            },
            None => match proof_error(*old(auction), plaintext_bytes@, verified) {
                Some(error) => {
                    &&& result == Err::<Settlement, ShadowBidError>(error)
                    &&& *final(auction) == *old(auction)
                },
                None => {
                    &&& *final(auction) == settled(
                        *old(auction),
                        claimed_amount(plaintext_bytes@),
                    )
                    &&& result == Ok::<Settlement, ShadowBidError>(
                        Settlement {
                            payment: Payment {
                                from: old(auction).winner,
                                to: old(auction).seller,
                                amount: claimed_amount(plaintext_bytes@),
                            },
                            event: AuctionSettled {
                                auction: auction_key,
                                winner: old(auction).winner,
                                winning_amount: claimed_amount(plaintext_bytes@),
                                timestamp: now,
                            },
                        },
                    )
                },
            },
        },
        decoded_amount(plaintext_bytes@) matches Some(amount) && amount < old(
            auction,
        ).reserve_price ==> result is Err && *final(auction) == *old(auction),
        result matches Ok(settlement) ==> settlement.payment.amount == spelt_number(
            plaintext_bytes@,
        ) && final(auction).winning_amount == spelt_number(plaintext_bytes@),
        old(auction).wf() ==> final(auction).wf(),
        old(auction).bids_processed <= old(auction).bid_count ==> final(auction).bids_processed
            <= final(auction).bid_count,
{
    if caller != auction.winner {
        return Err(ShadowBidError::NotWinner);
    }
    if auction.state != AuctionState::WinnerDetermined {
        return Err(ShadowBidError::WinnerNotDetermined);
    }
    if seller != auction.seller {
        return Err(ShadowBidError::NotSeller);
    }
    match verified {
        Err(fault) => {
            return Err(fault.error());
        },
        Ok(_) => {},
    }
    proof {
        if 8 <= plaintext_bytes@.len() < 16 {
            lemma_le_value_below_limit(plaintext_bytes@.subrange(0, 8));
            lemma_le_limits();
        }
    }
    let winning_amount = match decode_amount(plaintext_bytes) {
        None => {
            return Err(ShadowBidError::InvalidDecryptionProof);
        },
        Some(amount) => amount,
    };
    if winning_amount < auction.reserve_price {
        return Err(ShadowBidError::InvalidDecryptionProof);
    }
    auction.winning_amount = winning_amount;
    auction.state = AuctionState::Settled;
    Ok(
        Settlement {
            payment: Payment { from: auction.winner, to: auction.seller, amount: winning_amount },
            event: AuctionSettled {
                auction: auction_key,
                winner: auction.winner,
                winning_amount,
                timestamp: now,
            },
        },
    )
}

} // verus!
