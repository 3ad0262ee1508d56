//! Bounds on the parameters of an auction.

use vstd::prelude::*;

verus! {

/// Shortest accepted auction duration, in seconds.
pub const MIN_AUCTION_DURATION: i64 = 60;

/// Longest accepted auction duration, in seconds (seven days).
pub const MAX_AUCTION_DURATION: i64 = 604800;

/// Longest accepted title, in bytes.
pub const MAX_TITLE_LENGTH: usize = 64;

/// Longest accepted description, in bytes.
pub const MAX_DESCRIPTION_LENGTH: usize = 256;

} // verus!
