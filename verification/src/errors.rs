//! The error taxonomy of the engine. Every error is per-record and
//! recoverable: a rejected record leaves all committed state unchanged.

use vstd::prelude::*;

verus! {

/// Why a dispute, resolve or chargeback could not use the historical
/// transaction it refers to.
#[derive(Debug, Clone, Copy, PartialEq, Eq, Structural)]
pub enum TransactionError {
    /// The referred transaction identifier is unknown to the store.
    ReferredTxNotFound,
    /// A dispute targeted a transaction that is not in the committed state.
    CannotBeDisputed,
    /// A resolve or chargeback targeted a transaction that is not under dispute.
    NotUnderDispute,
}

/// Why an operation record was rejected as a whole.
#[derive(Debug, Clone, Copy, PartialEq, Eq, Structural)]
pub enum ProcessingError {
    /// A withdrawal asked for more than the available balance.
    InsufficientFunds,
    /// A balance-mutating operation targeted a locked account.
    ClientLocked,
    /// The record's client does not own the transaction it refers to.
    ClientIdNotMatched,
    /// The referred historical transaction rejected the operation.
    InvalidTransaction(TransactionError),
}

impl TransactionError {
    /// The human-readable description of this error.
    pub fn message(&self) -> (r: &'static str)
        ensures
            r@ == match *self {
                TransactionError::ReferredTxNotFound => "Referred transaction not found"@,
                TransactionError::CannotBeDisputed => "Referred transaction is already under dispute, resolved or charged back"@,
                TransactionError::NotUnderDispute => "Referred transaction is not under dispute"@,
            },
    {
        match self {
            TransactionError::ReferredTxNotFound => "Referred transaction not found",
            TransactionError::CannotBeDisputed => "Referred transaction is already under dispute, resolved or charged back",
            TransactionError::NotUnderDispute => "Referred transaction is not under dispute",
        }
    }
}

impl ProcessingError {
    /// The human-readable description of this error; a referred-transaction
    /// error shows through transparently.
    pub fn message(&self) -> (r: &'static str)
        ensures
            r@ == match *self {
                ProcessingError::InsufficientFunds => "Insufficient funds"@,
                ProcessingError::ClientLocked => "Client is locked"@,
                ProcessingError::ClientIdNotMatched => "Client ID does not match"@,
                ProcessingError::InvalidTransaction(TransactionError::ReferredTxNotFound) => "Referred transaction not found"@,
                ProcessingError::InvalidTransaction(TransactionError::CannotBeDisputed) => "Referred transaction is already under dispute, resolved or charged back"@,
                ProcessingError::InvalidTransaction(TransactionError::NotUnderDispute) => "Referred transaction is not under dispute"@,
            },
    {
        match self {
            ProcessingError::InsufficientFunds => "Insufficient funds",
            ProcessingError::ClientLocked => "Client is locked",
            ProcessingError::ClientIdNotMatched => "Client ID does not match",
            ProcessingError::InvalidTransaction(e) => e.message(),
        }
    }
}

} // verus!
