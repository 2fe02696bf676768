//! A verified per-client payment ledger.
//!
//! The ledger consumes a stream of typed transaction events (deposit,
//! withdrawal, dispute, resolve, chargeback) and maintains one account state
//! machine per client: available, held and total balances, a permanent lock
//! set by a chargeback, and the bookkeeping needed to run the dispute
//! lifecycle. Every operation is specified by a mathematical transition
//! function and verified against it; the laws of the state machine (the
//! balance invariant, the dispute round trip, and the rest) are proved in
//! [`laws`].
//!
//! Reading input records and rendering the final balance table are left to a
//! thin unverified adapter around this crate; the adapter hands in plain
//! values and takes plain values back.

pub mod account;
pub mod amount;
pub mod engine;
pub mod error;
pub mod laws;
pub mod runner;
pub mod transaction;
pub mod transaction_record;
