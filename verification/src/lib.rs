//! Escrow ledger for trades settled in a token: a buyer opens a trade, funds
//! it, confirms delivery, and an administrator releases the escrowed amount to
//! the seller minus a fee in basis points that goes to the treasury.
//!
//! The library holds the contract's state and decides every call; the host
//! that stores the state, checks signatures, publishes events and moves tokens
//! stands outside it.

pub mod types;
pub mod rules;
pub mod escrow;
pub mod laws;
