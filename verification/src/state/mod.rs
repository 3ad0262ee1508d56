//! The records an auction is made of.

pub mod auction;
pub mod bid;
