//! A sequential ledger-replay engine: deposits, withdrawals and the
//! dispute/resolve/chargeback lifecycle, applied one record at a time to
//! per-client accounts under strict atomicity rules.
//!
//! Amounts are fixed-precision decimals held as signed integer counts of
//! 1/10000 currency units, so four fractional digits are exact.

pub mod client;
pub mod engine;
pub mod errors;
pub mod transaction;
pub mod transaction_record;

use vstd::prelude::*;

verus! {

/// Identifies the holder of an account.
pub type ClientId = u16;

/// Identifies a value-bearing transaction.
pub type TransactionId = u32;

/// A monetary amount in 1/10000 currency units.
pub type Amount = i64;

} // verus!
