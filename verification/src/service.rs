//! What the auction asks of the confidential value service, and what the
//! service can answer.
//!
//! The service holds the encrypted values. The auction only ever sees
//! 128-bit handles, of which zero is the sentinel for "no handle". The
//! caller performs each request and hands the answer to the operation that
//! asked for it.

use crate::errors::ShadowBidError;
use crate::pubkey::Pubkey;
use vstd::prelude::*;

verus! {

/// A failure reported by the confidential value service.
#[derive(Clone, Copy, Debug, PartialEq, Eq, Structural)]
pub enum ServiceFault {
    /// A handle could not be created or selected.
    EncryptionFailed,
    /// Two handles could not be compared.
    ComparisonFailed,
    /// A grant or an attested decryption was refused.
    AttestationVerificationFailed,
}

impl ServiceFault {
    /// The error under which the fault is reported, unchanged in kind.
    pub open spec fn as_error(self) -> ShadowBidError {
        match self {
            ServiceFault::EncryptionFailed => ShadowBidError::EncryptionFailed,
            ServiceFault::ComparisonFailed => ShadowBidError::ComparisonFailed,
            ServiceFault::AttestationVerificationFailed => {
                ShadowBidError::AttestationVerificationFailed
            },
        }
    }

    /// The error under which the fault is reported, unchanged in kind.
    pub fn error(&self) -> (error: ShadowBidError)
        ensures
            error == self.as_error(),
    {
        match self {
            ServiceFault::EncryptionFailed => ShadowBidError::EncryptionFailed,
            ServiceFault::ComparisonFailed => ShadowBidError::ComparisonFailed,
            ServiceFault::AttestationVerificationFailed => {
                ShadowBidError::AttestationVerificationFailed
            },
        }
    }
}

/// A blind comparison to perform: ask the service whether `candidate` is
/// greater than or equal to `incumbent`, then ask it to select `candidate`
/// if so and `incumbent` otherwise.
#[derive(Clone, Copy, Debug, PartialEq, Eq, Structural)]
pub struct ReductionRequest {
    /// Handle of the bid being folded in.
    pub candidate: u128,
    /// Handle of the running maximum.
    pub incumbent: u128,
}

/// A decrypt permission to grant: `grantee` may decrypt `handle`.
#[derive(Clone, Copy, Debug, PartialEq, Eq)]
pub struct DecryptGrant {
    /// Handle of the winning bid.
    pub handle: u128,
    /// Identity that may decrypt it.
    pub grantee: Pubkey,
}

/// An attested decryption to verify: exactly `expected_count` signatures
/// over the given handles and the plaintexts claimed for them.
#[derive(Clone, Debug, PartialEq, Eq)]
pub struct VerificationRequest {
    /// Number of signatures that must verify.
    pub expected_count: u8,
    /// Byte representation of each handle.
    pub handles: Vec<Vec<u8>>,
    /// Plaintext claimed for each handle.
    pub plaintexts: Vec<Vec<u8>>,
}

} // verus!
