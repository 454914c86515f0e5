//! A multi-party escrow agreement library.
//!
//! A payer deposits funds into custody; they are released to a receiver only
//! under one of several resolution paths: mutual approval, mutual
//! cancellation, referee arbitration, or reclaim after expiry. The hosting
//! ledger (account storage, atomic transfers, the clock) is external: the
//! transition functions here take the relevant account balances and the
//! current time as plain values and state exactly how they change.

pub mod account;
pub mod instructions;
pub mod laws;
