//! Accounts and the book that owns one account per client.
//!
//! All monetary quantities are exact fixed-point decimals with four
//! fractional digits, stored as counts of ten-thousandths of a unit.
//! With that representation every balance mutation is exact integer
//! arithmetic, so rounding the result to four decimal places is the
//! identity and the account invariant `total == available + held`
//! can hold exactly at every observable point.

use vstd::prelude::*;

use crate::error::EngineError;
use std::collections::HashMap;

verus! {

broadcast use vstd::std_specs::hash::group_hash_axioms;

/// One client's balances. `available`, `held` and `total` count
/// ten-thousandths of a currency unit.
#[derive(Debug, Clone, Copy, PartialEq, Eq, Structural)]
pub struct Account {
    pub client: u16,
    pub available: u64,
    pub held: u64,
    pub total: u64,
    pub locked: bool,
}

/// The account invariant: the full balance is exactly the withdrawable
/// part plus the part frozen by open disputes. (`held >= 0` holds by
/// the choice of an unsigned representation.)
pub open spec fn balanced(a: Account) -> bool {
    a.total == a.available + a.held
}

/// The freshly created account for `client_id`: zero balances, unlocked.
pub open spec fn new_account(client_id: u16) -> Account {
    Account { client: client_id, available: 0, held: 0, total: 0, locked: false }
}

/// `a` after a successful deposit of `amount`.
pub open spec fn spec_deposit(a: Account, amount: u64) -> Account {
    Account {
        client: a.client,
        available: (a.available + amount) as u64,
        held: a.held,
        total: (a.total + amount) as u64,
        locked: a.locked,
    }
}

/// `a` after a successful withdrawal of `amount`.
pub open spec fn spec_withdraw(a: Account, amount: u64) -> Account {
    Account {
        client: a.client,
        available: (a.available - amount) as u64,
        held: a.held,
        total: (a.total - amount) as u64,
        locked: a.locked,
    }
}

/// `a` after a dispute hold of `amount`: funds move from available to held.
pub open spec fn spec_hold(a: Account, amount: u64) -> Account {
    Account {
        client: a.client,
        available: (a.available - amount) as u64,
        held: (a.held + amount) as u64,
        total: a.total,
        locked: a.locked,
    }
}

/// `a` after a resolve of `amount`: held funds return to available.
pub open spec fn spec_release(a: Account, amount: u64) -> Account {
    Account {
        client: a.client,
        available: (a.available + amount) as u64,
        held: (a.held - amount) as u64,
        total: a.total,
        locked: a.locked,
    }
}

/// `a` after a chargeback of `amount`: held funds leave the account
/// for good and the account locks.
pub open spec fn spec_chargeback(a: Account, amount: u64) -> Account {
    Account {
        client: a.client,
        available: a.available,
        held: (a.held - amount) as u64,
        total: (a.total - amount) as u64,
        locked: true,
    }
}

/// `accounts` with an account for `client_id` present: unchanged if one
/// exists, else extended with a fresh zero account.
pub open spec fn spec_ensure_account(accounts: Map<u16, Account>, client_id: u16) -> Map<
    u16,
    Account,
> {
    if accounts.contains_key(client_id) {
        accounts
    } else {
        accounts.insert(client_id, new_account(client_id))
    }
}

impl Account {
    /// A fresh account for `client_id`: zero balances, unlocked.
    pub fn new(client_id: u16) -> (a: Account)
        ensures
            a == new_account(client_id),
    {
        Account { client: client_id, available: 0, held: 0, total: 0, locked: false }
    }

    /// Rejects any operation on a locked account.
    pub fn is_locked(&self) -> (r: Result<(), EngineError>)
        ensures
            r is Err <==> self.locked,
            r matches Err(e) ==> e == (EngineError::AccountLocked { client_id: self.client }),
    {
        if self.locked {
            return Err(EngineError::AccountLocked { client_id: self.client });
        }
        Ok(())
    }

    /// Rejects an operation that would draw more than is available.
    pub fn has_sufficient_funds(&self, amount: u64) -> (r: Result<(), EngineError>)
        ensures
            r is Err <==> self.available < amount,
            r matches Err(e) ==> e == (EngineError::InsufficientFunds { client_id: self.client }),
    {
        if self.available < amount {
            return Err(EngineError::InsufficientFunds { client_id: self.client });
        }
        Ok(())
    }

    /// Rejects an operation that would release more than is held.
    pub fn has_sufficient_held_funds(&self, amount: u64) -> (r: Result<(), EngineError>)
        ensures
            r is Err <==> self.held < amount,
            r matches Err(e) ==> e == (EngineError::InsufficientHeldFunds {
                client_id: self.client,
            }),
    {
        if self.held < amount {
            return Err(EngineError::InsufficientHeldFunds { client_id: self.client });
        }
        Ok(())
    }

    /// Credits `amount` to available and total; fails on a locked account.
    pub fn deposit(&mut self, amount: u64) -> (r: Result<(), EngineError>)
        requires
            balanced(*old(self)),
            old(self).locked || old(self).total + amount <= u64::MAX,
        ensures
            balanced(*final(self)),
            old(self).locked ==> r == Err::<(), EngineError>(
                EngineError::AccountLocked { client_id: old(self).client },
            ) && *final(self) == *old(self),
            !old(self).locked ==> r == Ok::<(), EngineError>(()) && *final(self) == spec_deposit(
                *old(self),
                amount,
            ),
    {
        self.is_locked()?;
        self.available = self.available + amount;
        self.total = self.total + amount;
        Ok(())
    }

    /// Debits `amount` from available and total; fails on a locked
    /// account or when `available < amount`.
    pub fn withdraw(&mut self, amount: u64) -> (r: Result<(), EngineError>)
        requires
            balanced(*old(self)),
        ensures
            balanced(*final(self)),
            old(self).locked ==> r == Err::<(), EngineError>(
                EngineError::AccountLocked { client_id: old(self).client },
            ) && *final(self) == *old(self),
            !old(self).locked && old(self).available < amount ==> r == Err::<(), EngineError>(
                EngineError::InsufficientFunds { client_id: old(self).client },
            ) && *final(self) == *old(self),
            !old(self).locked && old(self).available >= amount ==> r == Ok::<(), EngineError>(())
                && *final(self) == spec_withdraw(*old(self), amount),
    {
        self.is_locked()?;
        self.has_sufficient_funds(amount)?;
        self.available = self.available - amount;
        self.total = self.total - amount;
        Ok(())
    }

    /// Moves `amount` from available to held for an open dispute; fails
    /// on a locked account or when `available < amount`.
    pub fn dispute(&mut self, amount: u64) -> (r: Result<(), EngineError>)
        requires
            balanced(*old(self)),
        ensures
            balanced(*final(self)),
            old(self).locked ==> r == Err::<(), EngineError>(
                EngineError::AccountLocked { client_id: old(self).client },
            ) && *final(self) == *old(self),
            !old(self).locked && old(self).available < amount ==> r == Err::<(), EngineError>(
                EngineError::InsufficientFunds { client_id: old(self).client },
            ) && *final(self) == *old(self),
            !old(self).locked && old(self).available >= amount ==> r == Ok::<(), EngineError>(())
                && *final(self) == spec_hold(*old(self), amount),
    {
        self.is_locked()?;
        self.has_sufficient_funds(amount)?;
        self.available = self.available - amount;
        self.held = self.held + amount;
        Ok(())
    }

    /// Returns `amount` from held to available, closing a dispute in the
    /// client's favor; fails on a locked account or when `held < amount`.
    pub fn resolve(&mut self, amount: u64) -> (r: Result<(), EngineError>)
        requires
            balanced(*old(self)),
        ensures
            balanced(*final(self)),
            old(self).locked ==> r == Err::<(), EngineError>(
                EngineError::AccountLocked { client_id: old(self).client },
            ) && *final(self) == *old(self),
            !old(self).locked && old(self).held < amount ==> r == Err::<(), EngineError>(
                EngineError::InsufficientHeldFunds { client_id: old(self).client },
            ) && *final(self) == *old(self),
            !old(self).locked && old(self).held >= amount ==> r == Ok::<(), EngineError>(())
                && *final(self) == spec_release(*old(self), amount),
    {
        self.is_locked()?;
        self.has_sufficient_held_funds(amount)?;
        self.available = self.available + amount;
        self.held = self.held - amount;
        Ok(())
    }

    /// Removes `amount` from held and total and locks the account,
    /// closing a dispute against the client; fails on a locked account
    /// or when `held < amount`.
    pub fn chargeback(&mut self, amount: u64) -> (r: Result<(), EngineError>)
        requires
            balanced(*old(self)),
        ensures
            balanced(*final(self)),
            old(self).locked ==> r == Err::<(), EngineError>(
                EngineError::AccountLocked { client_id: old(self).client },
            ) && *final(self) == *old(self),
            !old(self).locked && old(self).held < amount ==> r == Err::<(), EngineError>(
                EngineError::InsufficientHeldFunds { client_id: old(self).client },
            ) && *final(self) == *old(self),
            !old(self).locked && old(self).held >= amount ==> r == Ok::<(), EngineError>(())
                && *final(self) == spec_chargeback(*old(self), amount),
    {
        self.is_locked()?;
        self.has_sufficient_held_funds(amount)?;
        self.total = self.total - amount;
        self.held = self.held - amount;
        self.locked = true;
        Ok(())
    }
}

/// One account per client, created lazily on first reference and never
/// deleted. Snapshots come out in order of first reference.
pub struct AccountBook {
    accounts: HashMap<u16, Account>,
    clients: Vec<u16>,
}

impl View for AccountBook {
    type V = Map<u16, Account>;

    closed spec fn view(&self) -> Map<u16, Account> {
        self.accounts@
    }
}

impl AccountBook {
    /// Every stored account is balanced and keyed by its own client id,
    /// and `clients` records the key set once each.
    pub closed spec fn wf(&self) -> bool {
        &&& forall|c: u16|
            self.accounts@.contains_key(c) ==> balanced(#[trigger] self.accounts@[c])
                && self.accounts@[c].client == c
        &&& self.clients@.no_duplicates()
        &&& forall|c: u16| self.accounts@.contains_key(c) <==> self.clients@.contains(c)
    }

    /// An empty book.
    pub fn new() -> (book: AccountBook)
        ensures
            book.wf(),
            book@ == Map::<u16, Account>::empty(),
    {
        AccountBook { accounts: HashMap::new(), clients: Vec::new() }
    }

    /// The account for `client_id`, created with zero balances if absent.
    pub fn get_or_create(&mut self, client_id: u16) -> (a: Account)
        requires
            old(self).wf(),
        ensures
            final(self).wf(),
            final(self)@ == spec_ensure_account(old(self)@, client_id),
            final(self)@.contains_key(client_id),
            a == final(self)@[client_id],
    {
        if self.accounts.contains_key(&client_id) {
            *self.accounts.get(&client_id).unwrap()
        } else {
            let a = Account::new(client_id);
            self.accounts.insert(client_id, a);
            self.clients.push(client_id);
            proof {
                let oldc = old(self).clients@;
                assert(!oldc.contains(client_id));
                assert forall|c: u16| self.accounts@.contains_key(c) implies self.clients@.contains(
                    c,
                ) by {
                    if c == client_id {
                        assert(self.clients@[oldc.len() as int] == c);
                    } else {
                        assert(old(self).accounts@.contains_key(c));
                        assert(oldc.contains(c));
                        let i = choose|i: int| 0 <= i < oldc.len() && oldc[i] == c;
                        assert(self.clients@[i] == c);
                    }
                }
                assert forall|c: u16| self.clients@.contains(c) implies self.accounts@.contains_key(
                    c,
                ) by {
                    let i = choose|i: int|
                        0 <= i < self.clients@.len() && self.clients@[i] == c;
                    if i < oldc.len() {
                        assert(oldc[i] == c);
                        assert(oldc.contains(c));
                        assert(old(self).accounts@.contains_key(c));
                    } else {
                        assert(c == client_id);
                    }
                }
                assert forall|i: int, j: int|
                    0 <= i < self.clients@.len() && 0 <= j < self.clients@.len() && i
                        != j implies self.clients@[i] != self.clients@[j] by {
                    if self.clients@[i] == client_id && i < oldc.len() {
                        assert(oldc.contains(client_id));
                    }
                    if self.clients@[j] == client_id && j < oldc.len() {
                        assert(oldc.contains(client_id));
                    }
                }
            }
            a
        }
    }

    /// Applies a deposit to the (possibly fresh) account of `client_id`.
    /// The caller rules out balance overflow beforehand.
    pub fn deposit(&mut self, client_id: u16, amount: u64) -> (r: Result<(), EngineError>)
        requires
            old(self).wf(),
            ({
                let a = spec_ensure_account(old(self)@, client_id)[client_id];
                a.locked || a.total + amount <= u64::MAX
            }),
        ensures
            final(self).wf(),
            ({
                let m = spec_ensure_account(old(self)@, client_id);
                let a = m[client_id];
                if a.locked {
                    r == Err::<(), EngineError>(EngineError::AccountLocked { client_id })
                        && final(self)@ == m
                } else {
                    r == Ok::<(), EngineError>(()) && final(self)@ == m.insert(
                        client_id,
                        spec_deposit(a, amount),
                    )
                }
            }),
    {
        let mut a = self.get_or_create(client_id);
        let r = a.deposit(amount);
        if r.is_ok() {
            self.accounts.insert(client_id, a);
        }
        r
    }

    /// Applies a withdrawal to the (possibly fresh) account of `client_id`.
    pub fn withdraw(&mut self, client_id: u16, amount: u64) -> (r: Result<(), EngineError>)
        requires
            old(self).wf(),
        ensures
            final(self).wf(),
            ({
                let m = spec_ensure_account(old(self)@, client_id);
                let a = m[client_id];
                if a.locked {
                    r == Err::<(), EngineError>(EngineError::AccountLocked { client_id })
                        && final(self)@ == m
                } else if a.available < amount {
                    r == Err::<(), EngineError>(EngineError::InsufficientFunds { client_id })
                        && final(self)@ == m
                } else {
                    r == Ok::<(), EngineError>(()) && final(self)@ == m.insert(
                        client_id,
                        spec_withdraw(a, amount),
                    )
                }
            }),
    {
        let mut a = self.get_or_create(client_id);
        let r = a.withdraw(amount);
        if r.is_ok() {
            self.accounts.insert(client_id, a);
        }
        r
    }

    /// Holds `amount` of the account's available funds for a dispute.
    pub fn dispute_hold(&mut self, client_id: u16, amount: u64) -> (r: Result<(), EngineError>)
        requires
            old(self).wf(),
        ensures
            final(self).wf(),
            ({
                let m = spec_ensure_account(old(self)@, client_id);
                let a = m[client_id];
                if a.locked {
                    r == Err::<(), EngineError>(EngineError::AccountLocked { client_id })
                        && final(self)@ == m
                } else if a.available < amount {
                    r == Err::<(), EngineError>(EngineError::InsufficientFunds { client_id })
                        && final(self)@ == m
                } else {
                    r == Ok::<(), EngineError>(()) && final(self)@ == m.insert(
                        client_id,
                        spec_hold(a, amount),
                    )
                }
            }),
    {
        let mut a = self.get_or_create(client_id);
        let r = a.dispute(amount);
        if r.is_ok() {
            self.accounts.insert(client_id, a);
        }
        r
    }

    /// Releases `amount` of held funds back to available on a resolve.
    pub fn resolve_release(&mut self, client_id: u16, amount: u64) -> (r: Result<(), EngineError>)
        requires
            old(self).wf(),
        ensures
            final(self).wf(),
            ({
                let m = spec_ensure_account(old(self)@, client_id);
                let a = m[client_id];
                if a.locked {
                    r == Err::<(), EngineError>(EngineError::AccountLocked { client_id })
                        && final(self)@ == m
                } else if a.held < amount {
                    r == Err::<(), EngineError>(EngineError::InsufficientHeldFunds { client_id })
                        && final(self)@ == m
                } else {
                    r == Ok::<(), EngineError>(()) && final(self)@ == m.insert(
                        client_id,
                        spec_release(a, amount),
                    )
                }
            }),
    {
        let mut a = self.get_or_create(client_id);
        let r = a.resolve(amount);
        if r.is_ok() {
            self.accounts.insert(client_id, a);
        }
        r
    }

    /// Removes `amount` of held funds for good and locks the account on
    /// a chargeback.
    pub fn chargeback_apply(&mut self, client_id: u16, amount: u64) -> (r: Result<
        (),
        EngineError,
    >)
        requires
            old(self).wf(),
        ensures
            final(self).wf(),
            ({
                let m = spec_ensure_account(old(self)@, client_id);
                let a = m[client_id];
                if a.locked {
                    r == Err::<(), EngineError>(EngineError::AccountLocked { client_id })
                        && final(self)@ == m
                } else if a.held < amount {
                    r == Err::<(), EngineError>(EngineError::InsufficientHeldFunds { client_id })
                        && final(self)@ == m
                } else {
                    r == Ok::<(), EngineError>(()) && final(self)@ == m.insert(
                        client_id,
                        spec_chargeback(a, amount),
                    )
                }
            }),
    {
        let mut a = self.get_or_create(client_id);
        let r = a.chargeback(amount);
        if r.is_ok() {
            self.accounts.insert(client_id, a);
        }
        r
    }

    /// One snapshot per known account, each exactly the stored account,
    /// no client twice, in order of first reference.
    pub fn snapshots(&self) -> (v: Vec<Account>)
        requires
            self.wf(),
        ensures
            forall|i: int|
                0 <= i < v@.len() ==> self@.contains_key(#[trigger] v@[i].client) && v@[i]
                    == self@[v@[i].client],
            forall|c: u16|
                self@.contains_key(c) ==> exists|i: int| 0 <= i < v@.len() && v@[i].client == c,
            forall|i: int, j: int| 0 <= i < j < v@.len() ==> v@[i].client != v@[j].client,
    {
        let mut v: Vec<Account> = Vec::new();
        let mut idx: usize = 0;
        while idx < self.clients.len()
            invariant
                self.wf(),
                idx <= self.clients@.len(),
                v@.len() == idx,
                forall|j: int|
                    0 <= j < idx ==> (#[trigger] v@[j]) == self.accounts@[self.clients@[j]]
                        && v@[j].client == self.clients@[j],
            decreases self.clients@.len() - idx,
        {
            let c = self.clients[idx];
            proof {
                assert(self.clients@[idx as int] == c);
                assert(self.clients@.contains(c));
                assert(self.accounts@.contains_key(c));
            }
            let a = *self.accounts.get(&c).unwrap();
            v.push(a);
            idx = idx + 1;
        }
        assert forall|i: int|
            0 <= i < v@.len() implies self@.contains_key(#[trigger] v@[i].client) && v@[i]
            == self@[v@[i].client] by {
            assert(self.clients@.contains(self.clients@[i]));
            assert(self.accounts@.contains_key(self.clients@[i]));
            assert(v@[i] == self.accounts@[self.clients@[i]]);
        }
        assert forall|c: u16| self@.contains_key(c) implies exists|i: int|
            0 <= i < v@.len() && v@[i].client == c by {
            assert(self.clients@.contains(c));
            let j = choose|j: int| 0 <= j < self.clients@.len() && self.clients@[j] == c;
            assert(v@[j] == self.accounts@[self.clients@[j]]);
            assert(v@[j].client == c);
        }
        v
    }
}

} // verus!
