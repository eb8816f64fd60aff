//! Historical transactions and the store that owns them.
//!
//! A historical transaction records a committed deposit or withdrawal by
//! magnitude; its amount and owning client never change after creation. Only
//! its dispute-lifecycle state advances, along a strict state machine:
//! committed, disputed, then either resolved or charged back, both terminal.

use vstd::prelude::*;

use crate::errors::TransactionError;
use crate::{Amount, ClientId, TransactionId};

verus! {

broadcast use vstd::std_specs::hash::group_hash_axioms;

/// Where a historical transaction stands in its dispute lifecycle.
#[derive(Debug, Clone, Copy, PartialEq, Eq, Structural)]
pub enum TransactionState {
    /// Committed and never disputed.
    Committed,
    /// Currently under dispute; its amount is held.
    Disputed,
    /// A dispute ended in the client's favour; terminal.
    Resolved,
    /// A dispute ended in a reversal and the account was locked; terminal.
    ChargedBack,
}

/// The mathematical state of a historical transaction.
pub ghost struct TxView {
    pub id: TransactionId,
    pub amount: int,
    pub client: ClientId,
    pub state: TransactionState,
}

/// Dispute transition: allowed from `Committed` alone.
pub open spec fn spec_disputed(t: TxView) -> Result<TxView, TransactionError> {
    match t.state {
        TransactionState::Committed => Ok(TxView { state: TransactionState::Disputed, ..t }),
        _ => Err(TransactionError::CannotBeDisputed),
    }
}

/// Resolve transition: allowed from `Disputed` alone.
pub open spec fn spec_resolved(t: TxView) -> Result<TxView, TransactionError> {
    match t.state {
        TransactionState::Disputed => Ok(TxView { state: TransactionState::Resolved, ..t }),
        _ => Err(TransactionError::NotUnderDispute),
    }
}

/// Chargeback transition: allowed from `Disputed` alone.
pub open spec fn spec_charged_back(t: TxView) -> Result<TxView, TransactionError> {
    match t.state {
        TransactionState::Disputed => Ok(TxView { state: TransactionState::ChargedBack, ..t }),
        _ => Err(TransactionError::NotUnderDispute),
    }
}

/// The forward order of the dispute lifecycle: a state either stays put or
/// takes one of the three listed transitions.
pub open spec fn state_can_advance(s1: TransactionState, s2: TransactionState) -> bool {
    ||| s1 == s2
    ||| (s1 == TransactionState::Committed && s2 == TransactionState::Disputed)
    ||| (s1 == TransactionState::Disputed && s2 == TransactionState::Resolved)
    ||| (s1 == TransactionState::Disputed && s2 == TransactionState::ChargedBack)
}

/// A committed value-bearing transaction, recorded by magnitude: the amount
/// and owning client are fixed at creation, only the state advances.
#[derive(Debug, Clone, Copy)]
pub struct Transaction {
    id: TransactionId,
    amount: Amount,
    client: ClientId,
    state: TransactionState,
}

impl View for Transaction {
    type V = TxView;

    closed spec fn view(&self) -> TxView {
        TxView { id: self.id, amount: self.amount as int, client: self.client, state: self.state }
    }
}

impl Transaction {
    /// Records a freshly committed deposit or withdrawal.
    pub fn new(id: TransactionId, amount: Amount, client: ClientId) -> (t: Transaction)
        requires
            0 <= amount,
        ensures
            t@ == (TxView {
                id,
                amount: amount as int,
                client,
                state: TransactionState::Committed,
            }),
    {
        Transaction { id, amount, client, state: TransactionState::Committed }
    }

    /// The recorded magnitude.
    pub fn get_amount(&self) -> (r: Amount)
        ensures
            r == self@.amount,
    {
        self.amount
    }

    /// The owning client.
    pub fn client_id(&self) -> (r: ClientId)
        ensures
            r == self@.client,
    {
        self.client
    }

    /// The transaction moved to `Disputed`, or `CannotBeDisputed` if it is
    /// not in `Committed` state. Pure: the operand is untouched on failure.
    pub fn disputed(self) -> (r: Result<Transaction, TransactionError>)
        ensures
            match spec_disputed(self@) {
                Ok(t) => r matches Ok(rt) && rt@ == t,
                Err(e) => r == Err::<Transaction, TransactionError>(e),
            },
    {
        match self.state {
            TransactionState::Committed => {
                Ok(Transaction { state: TransactionState::Disputed, ..self })
            }
            _ => Err(TransactionError::CannotBeDisputed),
        }
    }

    /// The transaction moved to `Resolved`, or `NotUnderDispute` if it is
    /// not in `Disputed` state. Pure: the operand is untouched on failure.
    pub fn resolved(self) -> (r: Result<Transaction, TransactionError>)
        ensures
            match spec_resolved(self@) {
                Ok(t) => r matches Ok(rt) && rt@ == t,
                Err(e) => r == Err::<Transaction, TransactionError>(e),
            },
    {
        match self.state {
            TransactionState::Disputed => {
                Ok(Transaction { state: TransactionState::Resolved, ..self })
            }
            _ => Err(TransactionError::NotUnderDispute),
        }
    }

    /// The transaction moved to `ChargedBack`, or `NotUnderDispute` if it is
    /// not in `Disputed` state. Pure: the operand is untouched on failure.
    pub fn charged_back(self) -> (r: Result<Transaction, TransactionError>)
        ensures
            match spec_charged_back(self@) {
                Ok(t) => r matches Ok(rt) && rt@ == t,
                Err(e) => r == Err::<Transaction, TransactionError>(e),
            },
    {
        match self.state {
            TransactionState::Disputed => {
                Ok(Transaction { state: TransactionState::ChargedBack, ..self })
            }
            _ => Err(TransactionError::NotUnderDispute),
        }
    }
}

/// The transaction history store: a mapping from transaction identifier to
/// historical transaction, with insert-or-overwrite semantics.
pub struct TransactionStore {
    store: vstd::hash_map::HashMapWithView<TransactionId, Transaction>,
}

impl View for TransactionStore {
    type V = Map<TransactionId, TxView>;

    closed spec fn view(&self) -> Map<TransactionId, TxView> {
        self.store@.map_values(|t: Transaction| t@)
    }
}

impl TransactionStore {
    /// An empty store.
    pub fn new() -> (s: TransactionStore)
        ensures
            s@ == Map::<TransactionId, TxView>::empty(),
    {
        let s = TransactionStore { store: vstd::hash_map::HashMapWithView::new() };
        proof {
            assert(s@ =~= Map::<TransactionId, TxView>::empty());
        }
        s
    }

    /// Looks the identifier up; fails with `ReferredTxNotFound` if absent.
    pub fn get(&self, id: TransactionId) -> (r: Result<Transaction, TransactionError>)
        ensures
            match r {
                Ok(t) => self@.contains_key(id) && t@ == self@[id],
                Err(e) => !self@.contains_key(id) && e == TransactionError::ReferredTxNotFound,
            },
    {
        match self.store.get(&id) {
            Some(t) => Ok(*t),
            None => Err(TransactionError::ReferredTxNotFound),
        }
    }

    /// Inserts the transaction under its own identifier, overwriting any
    /// earlier entry for that identifier.
    pub fn insert(&mut self, tx: Transaction)
        ensures
            final(self)@ == old(self)@.insert(tx@.id, tx@),
    {
        let id = tx.id;
        self.store.insert(id, tx);
        proof {
            assert(self@ =~= old(self)@.insert(tx@.id, tx@));
        }
    }
}

} // verus!
