//! The failures an operation can report, and the classes they fall into.

use vstd::prelude::*;

verus! {

/// Why an operation was refused. A refused operation leaves every record
/// as it found it.
#[derive(Clone, Copy, Debug, PartialEq, Eq, Structural)]
pub enum ShadowBidError {
    /// The auction would last less than the minimum duration.
    DurationTooShort,
    /// The auction would last more than the maximum duration.
    DurationTooLong,
    /// The auction has not started yet.
    AuctionNotStarted,
    /// The bidding period has not ended yet.
    BiddingNotEnded,
    /// The current time is outside the bidding window.
    BiddingEnded,
    /// The auction is not open for bidding.
    AuctionNotOpen,
    /// The auction is not closed.
    AuctionNotClosed,
    /// No winner has been determined for the auction.
    WinnerNotDetermined,
    /// The auction is past the point where it could be cancelled.
    AuctionAlreadySettled,
    /// The auction has been cancelled.
    AuctionCancelled,
    /// Not every bid of the auction has been processed, or there is none.
    NoBidsPlaced,
    /// The caller is not the seller.
    NotSeller,
    /// The caller is not the winner.
    NotWinner,
    /// The seller tried to bid on their own auction.
    SellerCannotBid,
    /// The bid record belongs to another auction or bidder.
    BidAuctionMismatch,
    /// The bid has already been folded into the running maximum.
    BidAlreadyProcessed,
    /// The encrypted bid data is unusable.
    InvalidBidCiphertext,
    /// The title is longer than the maximum.
    TitleTooLong,
    /// The description is longer than the maximum.
    DescriptionTooLong,
    /// The reserve price is zero.
    InvalidReservePrice,
    /// The confidential value service did not produce a handle.
    EncryptionFailed,
    /// The confidential value service could not compare two handles.
    ComparisonFailed,
    /// The confidential value service refused a grant or an attestation.
    AttestationVerificationFailed,
    /// The decryption proof is too short or claims less than the reserve.
    InvalidDecryptionProof,
    /// No bid ever became the leader.
    WinnerNotSet,
    /// Too few accounts were supplied for the decrypt grant.
    InsufficientRemainingAccounts,
}

/// The classes of failure that callers tell apart.
#[derive(Clone, Copy, Debug, PartialEq, Eq, Structural)]
pub enum ErrorKind {
    /// Malformed creation parameters.
    InvalidInput,
    /// The operation was invoked outside the lifecycle state it needs.
    WrongState,
    /// The operation was invoked before its time window.
    TooEarly,
    /// The operation was invoked after its time window.
    TooLate,
    /// The caller lacks the role the operation needs.
    NotAuthorized,
    /// The bid has been processed before.
    AlreadyProcessed,
    /// The auction is past the point of no return.
    AlreadyFinal,
    /// The records handed in do not belong together.
    Mismatch,
    /// The reduction has not covered every bid.
    Incomplete,
    /// No bid ever became the leader.
    NoWinner,
    /// The decryption proof is missing, malformed or below the reserve.
    InvalidProof,
    /// The service failed to create or select a handle.
    EncryptionFailed,
    /// The service failed to compare two handles.
    ComparisonFailed,
    /// The service refused a grant or an attested decryption.
    AttestationVerificationFailed,
}

impl ShadowBidError {
    /// The class of this failure.
    pub open spec fn class(self) -> ErrorKind {
        match self {
            ShadowBidError::DurationTooShort => ErrorKind::InvalidInput,
            ShadowBidError::DurationTooLong => ErrorKind::InvalidInput,
            ShadowBidError::TitleTooLong => ErrorKind::InvalidInput,
            ShadowBidError::DescriptionTooLong => ErrorKind::InvalidInput,
            ShadowBidError::InvalidReservePrice => ErrorKind::InvalidInput,
            ShadowBidError::InsufficientRemainingAccounts => ErrorKind::InvalidInput,
            ShadowBidError::AuctionNotOpen => ErrorKind::WrongState,
            ShadowBidError::AuctionNotClosed => ErrorKind::WrongState,
            ShadowBidError::WinnerNotDetermined => ErrorKind::WrongState,
            ShadowBidError::BiddingEnded => ErrorKind::WrongState,
            ShadowBidError::AuctionNotStarted => ErrorKind::TooEarly,
            ShadowBidError::BiddingNotEnded => ErrorKind::TooEarly,
            ShadowBidError::NotSeller => ErrorKind::NotAuthorized,
            ShadowBidError::NotWinner => ErrorKind::NotAuthorized,
            ShadowBidError::SellerCannotBid => ErrorKind::NotAuthorized,
            ShadowBidError::BidAlreadyProcessed => ErrorKind::AlreadyProcessed,
            ShadowBidError::AuctionAlreadySettled => ErrorKind::AlreadyFinal,
            ShadowBidError::AuctionCancelled => ErrorKind::AlreadyFinal,
            ShadowBidError::BidAuctionMismatch => ErrorKind::Mismatch,
            ShadowBidError::NoBidsPlaced => ErrorKind::Incomplete,
            ShadowBidError::WinnerNotSet => ErrorKind::NoWinner,
            ShadowBidError::InvalidDecryptionProof => ErrorKind::InvalidProof,
            ShadowBidError::EncryptionFailed => ErrorKind::EncryptionFailed,
            ShadowBidError::InvalidBidCiphertext => ErrorKind::EncryptionFailed,
            ShadowBidError::ComparisonFailed => ErrorKind::ComparisonFailed,
            ShadowBidError::AttestationVerificationFailed => {
                ErrorKind::AttestationVerificationFailed
            },
        }
    }

    /// The class of this failure.
    pub fn kind(&self) -> (kind: ErrorKind)
        ensures
            kind == self.class(),
    {
        match self {
            ShadowBidError::DurationTooShort
            | ShadowBidError::DurationTooLong
            | ShadowBidError::TitleTooLong
            | ShadowBidError::DescriptionTooLong
            | ShadowBidError::InvalidReservePrice
            | ShadowBidError::InsufficientRemainingAccounts => ErrorKind::InvalidInput,
            ShadowBidError::AuctionNotOpen
            | ShadowBidError::AuctionNotClosed
            | ShadowBidError::WinnerNotDetermined
            | ShadowBidError::BiddingEnded => ErrorKind::WrongState,
            ShadowBidError::AuctionNotStarted | ShadowBidError::BiddingNotEnded => {
                ErrorKind::TooEarly
            },
            ShadowBidError::NotSeller
            | ShadowBidError::NotWinner
            | ShadowBidError::SellerCannotBid => ErrorKind::NotAuthorized,
            ShadowBidError::BidAlreadyProcessed => ErrorKind::AlreadyProcessed,
            ShadowBidError::AuctionAlreadySettled | ShadowBidError::AuctionCancelled => {
                ErrorKind::AlreadyFinal
            },
            ShadowBidError::BidAuctionMismatch => ErrorKind::Mismatch,
            ShadowBidError::NoBidsPlaced => ErrorKind::Incomplete,
            ShadowBidError::WinnerNotSet => ErrorKind::NoWinner,
            ShadowBidError::InvalidDecryptionProof => ErrorKind::InvalidProof,
            ShadowBidError::EncryptionFailed | ShadowBidError::InvalidBidCiphertext => {
                ErrorKind::EncryptionFailed
            },
            ShadowBidError::ComparisonFailed => ErrorKind::ComparisonFailed,
            ShadowBidError::AttestationVerificationFailed => {
                ErrorKind::AttestationVerificationFailed
            },
        }
    }
}

} // verus!
