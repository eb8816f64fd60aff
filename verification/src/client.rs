//! Per-client account state and the ledger that owns it.
//!
//! An account tracks three balances — `available`, `held` and their sum
//! `total` — and a lock flag. Every balance-mutating operation first checks
//! the lock flag and fails atomically: on any error the account is left
//! unchanged. A chargeback locks the account for good.

use vstd::prelude::*;

use crate::errors::ProcessingError;
use crate::{Amount, ClientId};

verus! {

broadcast use vstd::std_specs::hash::group_hash_axioms;

/// The mathematical state of an account: unbounded integer balances in
/// 1/10000 currency units.
pub ghost struct AccountView {
    pub id: ClientId,
    pub available: int,
    pub held: int,
    pub total: int,
    pub locked: bool,
}

impl AccountView {
    /// The balance equation every account maintains.
    pub open spec fn inv(self) -> bool {
        self.total == self.available + self.held
    }
}

/// A fresh account: zero balances, unlocked.
pub open spec fn spec_new_account(id: ClientId) -> AccountView {
    AccountView { id, available: 0, held: 0, total: 0, locked: false }
}

/// Deposit: moves `amount` into the available balance, unless locked.
pub open spec fn spec_deposit(c: AccountView, amount: int) -> Result<AccountView, ProcessingError> {
    if c.locked {
        Err(ProcessingError::ClientLocked)
    } else {
        Ok(AccountView { available: c.available + amount, total: c.total + amount, ..c })
    }
}

/// Withdrawal: takes `amount` out of the available balance; fails if the
/// account is locked or the available balance is below `amount`.
pub open spec fn spec_withdraw(c: AccountView, amount: int) -> Result<AccountView, ProcessingError> {
    if c.locked {
        Err(ProcessingError::ClientLocked)
    } else if c.available < amount {
        Err(ProcessingError::InsufficientFunds)
    } else {
        Ok(AccountView { available: c.available - amount, total: c.total - amount, ..c })
    }
}

/// Dispute: moves `amount` from available to held, unless locked. The
/// available balance may legitimately go negative here.
pub open spec fn spec_dispute(c: AccountView, amount: int) -> Result<AccountView, ProcessingError> {
    if c.locked {
        Err(ProcessingError::ClientLocked)
    } else {
        Ok(AccountView { available: c.available - amount, held: c.held + amount, ..c })
    }
}

/// Resolve: releases `amount` from held back to available, unless locked.
pub open spec fn spec_resolve(c: AccountView, amount: int) -> Result<AccountView, ProcessingError> {
    if c.locked {
        Err(ProcessingError::ClientLocked)
    } else {
        Ok(AccountView { available: c.available + amount, held: c.held - amount, ..c })
    }
}

/// Chargeback: withdraws `amount` from held and total and locks the account
/// in the same atomic step.
pub open spec fn spec_charge_back(c: AccountView, amount: int) -> Result<AccountView, ProcessingError> {
    if c.locked {
        Err(ProcessingError::ClientLocked)
    } else {
        Ok(AccountView { held: c.held - amount, total: c.total - amount, locked: true, ..c })
    }
}

/// Per-client balance state with a lock flag.
#[derive(Debug, Clone, Copy)]
pub struct Client {
    id: ClientId,
    available: Amount,
    held: Amount,
    total: Amount,
    locked: bool,
}

impl View for Client {
    type V = AccountView;

    closed spec fn view(&self) -> AccountView {
        AccountView {
            id: self.id,
            available: self.available as int,
            held: self.held as int,
            total: self.total as int,
            locked: self.locked,
        }
    }
}

impl Client {
    /// A fresh, unlocked account for `id` with zero balances.
    pub fn new(id: ClientId) -> (c: Client)
        ensures
            c@ == spec_new_account(id),
    {
        Client { id, available: 0, held: 0, total: 0, locked: false }
    }

    /// The lock gate shared by every balance-mutating operation: a locked
    /// account rejects the operation before any field is touched.
    fn ensure_unlocked(&self) -> (r: Result<(), ProcessingError>)
        ensures
            r == if self@.locked {
                Err::<(), ProcessingError>(ProcessingError::ClientLocked)
            } else {
                Ok::<(), ProcessingError>(())
            },
    {
        if self.locked {
            Err(ProcessingError::ClientLocked)
        } else {
            Ok(())
        }
    }

    /// Adds `amount` to the available and total balances.
    pub fn deposit(&mut self, amount: Amount) -> (r: Result<(), ProcessingError>)
        requires
            0 <= amount,
            !old(self)@.locked ==> old(self)@.available + amount <= i64::MAX
                && old(self)@.total + amount <= i64::MAX,
        ensures
            match spec_deposit(old(self)@, amount as int) {
                Ok(c) => r == Ok::<(), ProcessingError>(()) && final(self)@ == c,
                Err(e) => r == Err::<(), ProcessingError>(e) && final(self)@ == old(self)@,
            },
            old(self)@.inv() ==> final(self)@.inv(),
            old(self)@.locked ==> final(self)@.locked,
    {
        match self.ensure_unlocked() {
            Ok(()) => {
                self.available = self.available + amount;
                self.total = self.total + amount;
                Ok(())
            }
            Err(e) => Err(e),
        }
    }

    /// Subtracts `amount` from the available and total balances; fails with
    /// `InsufficientFunds` if the available balance is below `amount`.
    pub fn withdraw(&mut self, amount: Amount) -> (r: Result<(), ProcessingError>)
        requires
            0 <= amount,
            (!old(self)@.locked && old(self)@.available >= amount)
                ==> old(self)@.total - amount >= i64::MIN,
        ensures
            match spec_withdraw(old(self)@, amount as int) {
                Ok(c) => r == Ok::<(), ProcessingError>(()) && final(self)@ == c,
                Err(e) => r == Err::<(), ProcessingError>(e) && final(self)@ == old(self)@,
            },
            old(self)@.inv() ==> final(self)@.inv(),
            old(self)@.locked ==> final(self)@.locked,
    {
        match self.ensure_unlocked() {
            Ok(()) => {
                if self.available < amount {
                    return Err(ProcessingError::InsufficientFunds);
                }
                self.available = self.available - amount;
                self.total = self.total - amount;
                Ok(())
            }
            Err(e) => Err(e),
        }
    }

    /// Moves `amount` from available to held; available may go negative.
    pub fn dispute(&mut self, amount: Amount) -> (r: Result<(), ProcessingError>)
        requires
            0 <= amount,
            !old(self)@.locked ==> old(self)@.available - amount >= i64::MIN
                && old(self)@.held + amount <= i64::MAX,
        ensures
            match spec_dispute(old(self)@, amount as int) {
                Ok(c) => r == Ok::<(), ProcessingError>(()) && final(self)@ == c,
                Err(e) => r == Err::<(), ProcessingError>(e) && final(self)@ == old(self)@,
            },
            old(self)@.inv() ==> final(self)@.inv(),
            old(self)@.locked ==> final(self)@.locked,
    {
        match self.ensure_unlocked() {
            Ok(()) => {
                self.available = self.available - amount;
                self.held = self.held + amount;
                Ok(())
            }
            Err(e) => Err(e),
        }
    }

    /// Releases `amount` from held back to available.
    pub fn resolve(&mut self, amount: Amount) -> (r: Result<(), ProcessingError>)
        requires
            0 <= amount,
            !old(self)@.locked ==> old(self)@.held - amount >= i64::MIN
                && old(self)@.available + amount <= i64::MAX,
        ensures
            match spec_resolve(old(self)@, amount as int) {
                Ok(c) => r == Ok::<(), ProcessingError>(()) && final(self)@ == c,
                Err(e) => r == Err::<(), ProcessingError>(e) && final(self)@ == old(self)@,
            },
            old(self)@.inv() ==> final(self)@.inv(),
            old(self)@.locked ==> final(self)@.locked,
    {
        match self.ensure_unlocked() {
            Ok(()) => {
                self.held = self.held - amount;
                self.available = self.available + amount;
                Ok(())
            }
            Err(e) => Err(e),
        }
    }

    /// Withdraws `amount` from held and total and locks the account.
    pub fn charge_back(&mut self, amount: Amount) -> (r: Result<(), ProcessingError>)
        requires
            0 <= amount,
            !old(self)@.locked ==> old(self)@.held - amount >= i64::MIN
                && old(self)@.total - amount >= i64::MIN,
        ensures
            match spec_charge_back(old(self)@, amount as int) {
                Ok(c) => r == Ok::<(), ProcessingError>(()) && final(self)@ == c,
                Err(e) => r == Err::<(), ProcessingError>(e) && final(self)@ == old(self)@,
            },
            old(self)@.inv() ==> final(self)@.inv(),
            old(self)@.locked ==> final(self)@.locked,
    {
        match self.ensure_unlocked() {
            Ok(()) => {
                self.held = self.held - amount;
                self.total = self.total - amount;
                self.locked = true;
                Ok(())
            }
            Err(e) => Err(e),
        }
    }

    /// The spendable balance.
    pub fn available(&self) -> (r: Amount)
        ensures
            r == self@.available,
    {
        self.available
    }

    /// The balance frozen pending dispute resolution.
    pub fn held(&self) -> (r: Amount)
        ensures
            r == self@.held,
    {
        self.held
    }

    /// The sum of available and held.
    pub fn total(&self) -> (r: Amount)
        ensures
            r == self@.total,
    {
        self.total
    }

    /// Whether a chargeback has locked this account.
    pub fn is_locked(&self) -> (r: bool)
        ensures
            r == self@.locked,
    {
        self.locked
    }

    /// The identifier of the client owning this account.
    pub fn id(&self) -> (r: ClientId)
        ensures
            r == self@.id,
    {
        self.id
    }
}

/// The account ledger: a mapping from client identifier to account, with
/// accounts created lazily on first reference.
pub struct ClientStore {
    clients: vstd::hash_map::HashMapWithView<ClientId, Client>,
    ids: Vec<ClientId>,
}

impl View for ClientStore {
    type V = Map<ClientId, AccountView>;

    closed spec fn view(&self) -> Map<ClientId, AccountView> {
        self.clients@.map_values(|c: Client| c@)
    }
}

impl ClientStore {
    /// The ledger's internal bookkeeping: `ids` lists exactly the clients in
    /// the map, once each, and every account is keyed by its own identifier.
    pub closed spec fn wf(self) -> bool {
        &&& forall|i: int, j: int|
            0 <= i < j < self.ids@.len() ==> self.ids@[i] != self.ids@[j]
        &&& forall|i: int|
            0 <= i < self.ids@.len() ==> self.clients@.contains_key(#[trigger] self.ids@[i])
        &&& forall|k: ClientId| #[trigger] self.clients@.contains_key(k) ==> self.ids@.contains(k)
        &&& forall|k: ClientId|
            self.clients@.contains_key(k) ==> (#[trigger] self.clients@[k])@.id == k
    }

    /// An empty ledger.
    pub fn new() -> (s: ClientStore)
        ensures
            s.wf(),
            s@ == Map::<ClientId, AccountView>::empty(),
    {
        let s = ClientStore { clients: vstd::hash_map::HashMapWithView::new(), ids: Vec::new() };
        proof {
            assert(s@ =~= Map::<ClientId, AccountView>::empty());
        }
        s
    }

    /// Returns the account for `id`, creating a fresh zero-balance unlocked
    /// account on first reference. The created account is committed to the
    /// ledger at once, whatever later happens to the returned copy.
    pub fn get_or_create(&mut self, id: ClientId) -> (c: Client)
        requires
            old(self).wf(),
        ensures
            final(self).wf(),
            c@ == if old(self)@.contains_key(id) {
                old(self)@[id]
            } else {
                spec_new_account(id)
            },
            c@.id == id,
            final(self)@ == old(self)@.insert(id, c@),
    {
        let existing = match self.clients.get(&id) {
            Some(c) => Some(*c),
            None => None,
        };
        match existing {
            Some(c) => {
                proof {
                    assert(self@ =~= old(self)@.insert(id, c@));
                }
                c
            }
            None => {
                let c = Client::new(id);
                self.clients.insert(id, c);
                self.ids.push(id);
                proof {
                    assert(self@ =~= old(self)@.insert(id, c@));
                    assert(self.ids@[old(self).ids@.len() as int] == id);
                    assert(self.ids@.contains(id));
                    assert forall|k: ClientId| #[trigger] self.clients@.contains_key(k) implies
                        self.ids@.contains(k) by {
                        if k != id {
                            assert(old(self).clients@.contains_key(k));
                            let i = choose|i: int|
                                0 <= i < old(self).ids@.len() && old(self).ids@[i] == k;
                            assert(self.ids@[i] == k);
                        }
                    }
                }
                c
            }
        }
    }

    /// A read-only lookup: the account for `id`, if one exists yet.
    pub(crate) fn peek(&self, id: ClientId) -> (r: Option<Client>)
        ensures
            match r {
                Some(c) => self@.contains_key(id) && c@ == self@[id],
                None => !self@.contains_key(id),
            },
    {
        match self.clients.get(&id) {
            Some(c) => Some(*c),
            None => None,
        }
    }

    /// Writes an account back into the ledger under its own identifier.
    pub fn update_client(&mut self, c: Client)
        requires
            old(self).wf(),
            old(self)@.contains_key(c@.id),
        ensures
            final(self).wf(),
            final(self)@ == old(self)@.insert(c@.id, c@),
    {
        let id = c.id();
        self.clients.insert(id, c);
        proof {
            assert(self@ =~= old(self)@.insert(c@.id, c@));
        }
    }

    /// A snapshot of every account in the ledger, each client once, in
    /// unspecified order.
    pub fn get_clients(&self) -> (v: Vec<Client>)
        requires
            self.wf(),
        ensures
            forall|i: int|
                0 <= i < v@.len() ==> self@.contains_key((#[trigger] v@[i])@.id) && v@[i]@
                    == self@[v@[i]@.id],
            forall|k: ClientId|
                #[trigger] self@.contains_key(k) ==> exists|i: int|
                    0 <= i < v@.len() && (#[trigger] v@[i])@.id == k,
            forall|i: int, j: int| 0 <= i < j < v@.len() ==> v@[i]@.id != v@[j]@.id,
    {
        let mut v: Vec<Client> = Vec::new();
        let mut idx: usize = 0;
        while idx < self.ids.len()
            invariant
                self.wf(),
                idx <= self.ids@.len(),
                v@.len() == idx,
                forall|i: int|
                    0 <= i < idx ==> (#[trigger] v@[i])@.id == self.ids@[i]
                        && self.clients@.contains_key(self.ids@[i]) && v@[i]
                        == self.clients@[self.ids@[i]],
            decreases self.ids@.len() - idx,
        {
            let id = self.ids[idx];
            let c = match self.clients.get(&id) {
                Some(c) => *c,
                None => {
                    proof {
                        assert(false);
                    }
                    Client::new(id)
                }
            };
            v.push(c);
            idx += 1;
        }
        proof {
            assert forall|k: ClientId| #[trigger] self@.contains_key(k) implies exists|i: int|
                0 <= i < v@.len() && (#[trigger] v@[i])@.id == k by {
                assert(self.clients@.contains_key(k));
                assert(self.ids@.contains(k));
                let i = choose|i: int| 0 <= i < self.ids@.len() && self.ids@[i] == k;
                assert(v@[i]@.id == k);
            }
        }
        v
    }
}

} // verus!
