//! Sealed-bid auction state machine whose bid values stay behind opaque
//! handles of a confidential value service until a winner is settled.
//!
//! Every operation is a transition on plain values. Whatever an operation
//! needs from the outside (the current time, a handle created by the
//! confidential value service, the outcome of a blind selection, of a
//! decrypt grant or of an attestation check) is handed in as an argument,
//! and whatever it asks of the outside (an observable signal, a payment to
//! perform) is handed back as a value.

pub mod book;
pub mod constants;
pub mod errors;
pub mod events;
pub mod instructions;
pub mod plaintext;
pub mod pubkey;
pub mod reduction;
pub mod service;
pub mod state;
pub mod text;

