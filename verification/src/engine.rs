//! The transaction engine: the sole owner of the account ledger and the
//! transaction history store.
//!
//! One record is processed at a time. From the caller's point of view a
//! record either fully applies — account mutated, history updated — or has no
//! observable effect beyond the lazy creation of the zero-balance account it
//! referenced. The engine computes the advanced historical transaction on a
//! copy and writes it back only once the matching account mutation has
//! succeeded, so no rollback path is ever needed.

use vstd::prelude::*;

use crate::client::{
    spec_charge_back, spec_deposit, spec_dispute, spec_new_account, spec_resolve, spec_withdraw,
    AccountView, Client, ClientStore,
};
use crate::errors::{ProcessingError, TransactionError};
use crate::transaction::{
    spec_charged_back, spec_disputed, spec_resolved, state_can_advance, Transaction,
    TransactionState, TransactionStore, TxView,
};
use crate::transaction_record::{TransactionRecord, TransactionRecordType};
use crate::{ClientId, TransactionId};

verus! {

/// The outcome of one processing step over the mathematical state: the
/// ledger and store afterwards, and what the caller is told.
pub ghost struct StepResult {
    pub clients: Map<ClientId, AccountView>,
    pub txs: Map<TransactionId, TxView>,
    pub result: Result<(), ProcessingError>,
}

/// Commits a deposit or withdrawal outcome: on success the mutated account
/// and a fresh committed historical transaction are written; on failure
/// nothing is.
pub open spec fn spec_commit_value_op(
    clients: Map<ClientId, AccountView>,
    txs: Map<TransactionId, TxView>,
    rec: TransactionRecord,
    amount: int,
    outcome: Result<AccountView, ProcessingError>,
) -> StepResult {
    match outcome {
        Ok(a) => StepResult {
            clients: clients.insert(rec.client, a),
            txs: txs.insert(
                rec.tx,
                TxView {
                    id: rec.tx,
                    amount,
                    client: rec.client,
                    state: TransactionState::Committed,
                },
            ),
            result: Ok(()),
        },
        Err(e) => StepResult { clients, txs, result: Err(e) },
    }
}

/// One dispute, resolve or chargeback over the mathematical state: the
/// referred transaction must exist and belong to the record's client; the
/// lifecycle transition is checked first, then the account mutation; the
/// advanced transaction is stored only if both succeed.
pub open spec fn spec_process_referential(
    clients: Map<ClientId, AccountView>,
    txs: Map<TransactionId, TxView>,
    rec: TransactionRecord,
    acct: AccountView,
) -> StepResult
    recommends
        !(rec.tx_type is Deposit),
        !(rec.tx_type is Withdrawal),
{
    if !txs.contains_key(rec.tx) {
        StepResult {
            clients,
            txs,
            result: Err(ProcessingError::InvalidTransaction(TransactionError::ReferredTxNotFound)),
        }
    } else {
        let t = txs[rec.tx];
        if t.client != rec.client {
            StepResult { clients, txs, result: Err(ProcessingError::ClientIdNotMatched) }
        } else {
            let next_t = match rec.tx_type {
                TransactionRecordType::Dispute => spec_disputed(t),
                TransactionRecordType::Resolve => spec_resolved(t),
                _ => spec_charged_back(t),
            };
            match next_t {
                Err(e) => StepResult {
                    clients,
                    txs,
                    result: Err(ProcessingError::InvalidTransaction(e)),
                },
                Ok(t1) => {
                    let next_a = match rec.tx_type {
                        TransactionRecordType::Dispute => spec_dispute(acct, t.amount),
                        TransactionRecordType::Resolve => spec_resolve(acct, t.amount),
                        _ => spec_charge_back(acct, t.amount),
                    };
                    match next_a {
                        Err(e) => StepResult { clients, txs, result: Err(e) },
                        Ok(a1) => StepResult {
                            clients: clients.insert(rec.client, a1),
                            txs: txs.insert(rec.tx, t1),
                            result: Ok(()),
                        },
                    }
                }
            }
        }
    }
}

/// What one record does to the engine's mathematical state. The account for
/// the record's client is created lazily first and stays created whatever
/// happens afterwards.
pub open spec fn spec_process(
    clients: Map<ClientId, AccountView>,
    txs: Map<TransactionId, TxView>,
    rec: TransactionRecord,
) -> StepResult {
    let acct = if clients.contains_key(rec.client) {
        clients[rec.client]
    } else {
        spec_new_account(rec.client)
    };
    let clients1 = clients.insert(rec.client, acct);
    match rec.tx_type {
        TransactionRecordType::Deposit { amount } => spec_commit_value_op(
            clients1,
            txs,
            rec,
            amount as int,
            spec_deposit(acct, amount as int),
        ),
        TransactionRecordType::Withdrawal { amount } => spec_commit_value_op(
            clients1,
            txs,
            rec,
            amount as int,
            spec_withdraw(acct, amount as int),
        ),
        _ => spec_process_referential(clients1, txs, rec, acct),
    }
}

/// The machine-range side conditions of one step: the balances a record
/// touches stay within the fixed-width amount type.
pub open spec fn value_op_fits(a: AccountView, tx_type: TransactionRecordType) -> bool {
    match tx_type {
        TransactionRecordType::Deposit { amount } => !a.locked ==> a.available + amount
            <= i64::MAX && a.total + amount <= i64::MAX,
        TransactionRecordType::Withdrawal { amount } => (!a.locked && a.available >= amount)
            ==> a.total - amount >= i64::MIN,
        _ => true,
    }
}

/// The machine-range side conditions of a referential operation moving the
/// stored magnitude `m` through the account.
pub open spec fn ref_op_fits(a: AccountView, tx_type: TransactionRecordType, m: int) -> bool {
    match tx_type {
        TransactionRecordType::Dispute => !a.locked ==> a.available - m >= i64::MIN && a.held + m
            <= i64::MAX,
        TransactionRecordType::Resolve => !a.locked ==> a.held - m >= i64::MIN && a.available + m
            <= i64::MAX,
        TransactionRecordType::Chargeback => !a.locked ==> a.held - m >= i64::MIN && a.total - m
            >= i64::MIN,
        _ => true,
    }
}

/// Whether one record can be applied without any balance leaving the range
/// of the fixed-width amount type.
pub open spec fn step_fits(
    clients: Map<ClientId, AccountView>,
    txs: Map<TransactionId, TxView>,
    rec: TransactionRecord,
) -> bool {
    let acct = if clients.contains_key(rec.client) {
        clients[rec.client]
    } else {
        spec_new_account(rec.client)
    };
    match rec.tx_type {
        TransactionRecordType::Deposit { .. } => value_op_fits(acct, rec.tx_type),
        TransactionRecordType::Withdrawal { .. } => value_op_fits(acct, rec.tx_type),
        _ => (txs.contains_key(rec.tx) && txs[rec.tx].client == rec.client) ==> ref_op_fits(
            acct,
            rec.tx_type,
            txs[rec.tx].amount,
        ),
    }
}

/// Well-formedness of the mathematical state: every account keeps its
/// balance equation and sits under its own identifier; every historical
/// transaction sits under its own identifier with a non-negative magnitude.
pub open spec fn maps_wf(
    clients: Map<ClientId, AccountView>,
    txs: Map<TransactionId, TxView>,
) -> bool {
    &&& forall|c: ClientId|
        #[trigger] clients.contains_key(c) ==> clients[c].inv() && clients[c].id == c
    &&& forall|t: TransactionId|
        #[trigger] txs.contains_key(t) ==> txs[t].id == t && txs[t].amount >= 0
}

/// The orchestrator: owns the ledger and the history store and is the only
/// component that touches both.
pub struct TxEngine {
    clients_store: ClientStore,
    committed_txs: TransactionStore,
}

impl TxEngine {
    /// The accounts, as a mathematical map keyed by client identifier.
    pub closed spec fn clients(self) -> Map<ClientId, AccountView> {
        self.clients_store@
    }

    /// The historical transactions, keyed by transaction identifier.
    pub closed spec fn txs(self) -> Map<TransactionId, TxView> {
        self.committed_txs@
    }

    /// The engine's internal bookkeeping is consistent.
    pub closed spec fn stores_wf(self) -> bool {
        self.clients_store.wf()
    }

    /// The engine's invariant: its two stores are internally consistent and
    /// the mathematical state is well-formed.
    pub open spec fn wf(self) -> bool {
        &&& self.stores_wf()
        &&& maps_wf(self.clients(), self.txs())
    }

    /// A fresh engine with no accounts and no history.
    pub fn new() -> (s: TxEngine)
        ensures
            s.wf(),
            s.clients() == Map::<ClientId, AccountView>::empty(),
            s.txs() == Map::<TransactionId, TxView>::empty(),
    {
        TxEngine { clients_store: ClientStore::new(), committed_txs: TransactionStore::new() }
    }

    /// Applies one operation record: exactly the step `spec_process`
    /// describes, atomically — on any error only the lazy account creation
    /// is observable.
    pub fn process_tx(&mut self, tx: TransactionRecord) -> (r: Result<(), ProcessingError>)
        requires
            old(self).wf(),
            tx.wf(),
            step_fits(old(self).clients(), old(self).txs(), tx),
        ensures
            final(self).wf(),
            ({
                let step = spec_process(old(self).clients(), old(self).txs(), tx);
                &&& final(self).clients() == step.clients
                &&& final(self).txs() == step.txs
                &&& r == step.result
            }),
    {
        let mut client = self.clients_store.get_or_create(tx.client);
        match tx.tx_type {
            TransactionRecordType::Deposit { amount } => {
                match client.deposit(amount) {
                    Ok(()) => {
                        self.clients_store.update_client(client);
                        self.committed_txs.insert(Transaction::new(tx.tx, amount, tx.client));
                        Ok(())
                    }
                    Err(e) => Err(e),
                }
            }
            TransactionRecordType::Withdrawal { amount } => {
                match client.withdraw(amount) {
                    Ok(()) => {
                        self.clients_store.update_client(client);
                        self.committed_txs.insert(Transaction::new(tx.tx, amount, tx.client));
                        Ok(())
                    }
                    Err(e) => Err(e),
                }
            }
            TransactionRecordType::Dispute => {
                let referred = match self.committed_txs.get(tx.tx) {
                    Ok(t) => t,
                    Err(e) => {
                        return Err(ProcessingError::InvalidTransaction(e));
                    }
                };
                if referred.client_id() != tx.client {
                    return Err(ProcessingError::ClientIdNotMatched);
                }
                let modified = match referred.disputed() {
                    Ok(t) => t,
                    Err(e) => {
                        return Err(ProcessingError::InvalidTransaction(e));
                    }
                };
                match client.dispute(referred.get_amount()) {
                    Ok(()) => {
                        self.clients_store.update_client(client);
                        self.committed_txs.insert(modified);
                        Ok(())
                    }
                    Err(e) => Err(e),
                }
            }
            TransactionRecordType::Resolve => {
                let referred = match self.committed_txs.get(tx.tx) {
                    Ok(t) => t,
                    Err(e) => {
                        return Err(ProcessingError::InvalidTransaction(e));
                    }
                };
                if referred.client_id() != tx.client {
                    return Err(ProcessingError::ClientIdNotMatched);
                }
                let modified = match referred.resolved() {
                    Ok(t) => t,
                    Err(e) => {
                        return Err(ProcessingError::InvalidTransaction(e));
                    }
                };
                match client.resolve(referred.get_amount()) {
                    Ok(()) => {
                        self.clients_store.update_client(client);
                        self.committed_txs.insert(modified);
                        Ok(())
                    }
                    Err(e) => Err(e),
                }
            }
            TransactionRecordType::Chargeback => {
                let referred = match self.committed_txs.get(tx.tx) {
                    Ok(t) => t,
                    Err(e) => {
                        return Err(ProcessingError::InvalidTransaction(e));
                    }
                };
                if referred.client_id() != tx.client {
                    return Err(ProcessingError::ClientIdNotMatched);
                }
                let modified = match referred.charged_back() {
                    Ok(t) => t,
                    Err(e) => {
                        return Err(ProcessingError::InvalidTransaction(e));
                    }
                };
                match client.charge_back(referred.get_amount()) {
                    Ok(()) => {
                        self.clients_store.update_client(client);
                        self.committed_txs.insert(modified);
                        Ok(())
                    }
                    Err(e) => Err(e),
                }
            }
        }
    }

    /// Evaluates the machine-range side conditions of one record against the
    /// current state, without changing anything.
    fn check_fits(&self, tx: &TransactionRecord) -> (r: bool)
        requires
            self.wf(),
            tx.wf(),
        ensures
            r == step_fits(self.clients(), self.txs(), *tx),
    {
        let acct = match self.clients_store.peek(tx.client) {
            Some(c) => c,
            None => Client::new(tx.client),
        };
        match tx.tx_type {
            TransactionRecordType::Deposit { amount } => {
                if acct.is_locked() {
                    true
                } else {
                    let av = acct.available() as i128;
                    let tt = acct.total() as i128;
                    let am = amount as i128;
                    av + am <= i64::MAX as i128 && tt + am <= i64::MAX as i128
                }
            }
            TransactionRecordType::Withdrawal { amount } => {
                if acct.is_locked() {
                    true
                } else if acct.available() < amount {
                    true
                } else {
                    (acct.total() as i128) - (amount as i128) >= i64::MIN as i128
                }
            }
            _ => {
                let referred = match self.committed_txs.get(tx.tx) {
                    Ok(t) => t,
                    Err(_) => {
                        return true;
                    }
                };
                if referred.client_id() != tx.client {
                    return true;
                }
                if acct.is_locked() {
                    return true;
                }
                let m = referred.get_amount() as i128;
                let av = acct.available() as i128;
                let hd = acct.held() as i128;
                let tt = acct.total() as i128;
                match tx.tx_type {
                    TransactionRecordType::Dispute => av - m >= i64::MIN as i128 && hd + m
                        <= i64::MAX as i128,
                    TransactionRecordType::Resolve => hd - m >= i64::MIN as i128 && av + m
                        <= i64::MAX as i128,
                    _ => hd - m >= i64::MIN as i128 && tt - m >= i64::MIN as i128,
                }
            }
        }
    }

    /// Applies one record if its balance arithmetic stays within the
    /// fixed-width amount type; answers `None`, with the engine untouched,
    /// where it would not.
    pub fn try_process_tx(&mut self, tx: TransactionRecord) -> (r: Option<
        Result<(), ProcessingError>,
    >)
        requires
            old(self).wf(),
            tx.wf(),
        ensures
            final(self).wf(),
            match r {
                Some(res) => {
                    let step = spec_process(old(self).clients(), old(self).txs(), tx);
                    &&& step_fits(old(self).clients(), old(self).txs(), tx)
                    &&& final(self).clients() == step.clients
                    &&& final(self).txs() == step.txs
                    &&& res == step.result
                },
                None => {
                    &&& !step_fits(old(self).clients(), old(self).txs(), tx)
                    &&& *final(self) == *old(self)
                },
            },
    {
        if self.check_fits(&tx) {
            Some(self.process_tx(tx))
        } else {
            None
        }
    }

    /// A snapshot of every account the engine ever touched, each client
    /// once, in unspecified order.
    pub fn get_clients(&self) -> (v: Vec<Client>)
        requires
            self.wf(),
        ensures
            forall|i: int|
                0 <= i < v@.len() ==> self.clients().contains_key((#[trigger] v@[i])@.id)
                    && v@[i]@ == self.clients()[v@[i]@.id],
            forall|k: ClientId|
                #[trigger] self.clients().contains_key(k) ==> exists|i: int|
                    0 <= i < v@.len() && (#[trigger] v@[i])@.id == k,
            forall|i: int, j: int| 0 <= i < j < v@.len() ==> v@[i]@.id != v@[j]@.id,
    {
        self.clients_store.get_clients()
    }
}

/// Law: processing one record preserves the well-formedness of the state —
/// in particular, every account still satisfies `total == available + held`
/// afterwards.
pub proof fn lemma_step_preserves_wf(
    clients: Map<ClientId, AccountView>,
    txs: Map<TransactionId, TxView>,
    rec: TransactionRecord,
)
    requires
        maps_wf(clients, txs),
        rec.wf(),
    ensures
        maps_wf(spec_process(clients, txs, rec).clients, spec_process(clients, txs, rec).txs),
{
}

/// Law: a lock is permanent — every account that is locked before a step is
/// still present, and still locked, after it.
pub proof fn lemma_locked_is_permanent(
    clients: Map<ClientId, AccountView>,
    txs: Map<TransactionId, TxView>,
    rec: TransactionRecord,
)
    ensures
        ({
            let step = spec_process(clients, txs, rec);
            forall|c: ClientId|
                #[trigger] clients.contains_key(c) && clients[c].locked
                    ==> step.clients.contains_key(c) && step.clients[c].locked
        }),
{
}

/// Law: a deposit or withdrawal aimed at a locked account is rejected with
/// `ClientLocked` and changes nothing at all.
pub proof fn lemma_locked_account_rejects(
    clients: Map<ClientId, AccountView>,
    txs: Map<TransactionId, TxView>,
    rec: TransactionRecord,
)
    requires
        clients.contains_key(rec.client),
        clients[rec.client].locked,
        rec.tx_type is Deposit || rec.tx_type is Withdrawal,
    ensures
        spec_process(clients, txs, rec).result == Err::<(), ProcessingError>(
            ProcessingError::ClientLocked,
        ),
        spec_process(clients, txs, rec).clients == clients,
        spec_process(clients, txs, rec).txs == txs,
{
    assert(spec_process(clients, txs, rec).clients =~= clients);
}

/// Law: history is immutable — under a referential record, or a value
/// record whose identifier is fresh, every stored transaction keeps its
/// amount and owning client, and its state moves only forward along the
/// dispute lifecycle.
pub proof fn lemma_history_immutable(
    clients: Map<ClientId, AccountView>,
    txs: Map<TransactionId, TxView>,
    rec: TransactionRecord,
)
    requires
        (!(rec.tx_type is Deposit) && !(rec.tx_type is Withdrawal)) || !txs.contains_key(rec.tx),
    ensures
        ({
            let step = spec_process(clients, txs, rec);
            forall|t: TransactionId|
                #[trigger] txs.contains_key(t) ==> step.txs.contains_key(t) && step.txs[t].amount
                    == txs[t].amount && step.txs[t].client == txs[t].client && state_can_advance(
                    txs[t].state,
                    step.txs[t].state,
                )
        }),
{
}

/// Law: a rejected record leaves the history untouched and every existing
/// account unchanged; at most the fresh zero-balance account for the
/// record's client appears.
pub proof fn lemma_rejected_step_changes_nothing(
    clients: Map<ClientId, AccountView>,
    txs: Map<TransactionId, TxView>,
    rec: TransactionRecord,
)
    requires
        spec_process(clients, txs, rec).result is Err,
    ensures
        spec_process(clients, txs, rec).txs == txs,
        forall|c: ClientId|
            #[trigger] clients.contains_key(c) ==> spec_process(
                clients,
                txs,
                rec,
            ).clients.contains_key(c) && spec_process(clients, txs, rec).clients[c] == clients[c],
        clients.contains_key(rec.client) ==> spec_process(clients, txs, rec).clients == clients,
{
    if clients.contains_key(rec.client) {
        assert(spec_process(clients, txs, rec).clients =~= clients);
    }
}

impl Default for TxEngine {
    /// A fresh engine with no accounts and no history.
    fn default() -> (s: Self)
        ensures
            s.wf(),
            s.clients() == Map::<ClientId, AccountView>::empty(),
            s.txs() == Map::<TransactionId, TxView>::empty(),
    {
        TxEngine::new()
    }
}

} // verus!
