//! A helper library for building, signing and submitting Solana transactions,
//! in two formats: legacy single-message transactions and versioned
//! transactions that compress account references through an address lookup
//! table.
//!
//! The library itself never touches the network. Every decision a submission
//! makes — how instruction data is laid out, which signers are required,
//! whether a fetched lookup table account is usable, what follows each
//! network round trip — is a verified function over plain values. A driver
//! around the library performs the network calls and feeds the outcomes
//! back as events.

pub mod errors;
pub mod instruction;
pub mod legacy_tx;
pub mod versioned_tx;
