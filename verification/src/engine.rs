//! The engine loop: routes each record to the account book and the
//! dispute ledger, swallowing per-record business errors, and emits one
//! snapshot per known client at the end.
//!
//! The whole run is pinned down by a specification-level state machine:
//! `spec_apply` says exactly what one record does to the pair of maps,
//! and `spec_run` folds it over the input sequence. The executable
//! functions are proved to follow it step by step.

use vstd::prelude::*;

use crate::account::{
    balanced, new_account, spec_chargeback, spec_deposit, spec_ensure_account, spec_hold,
    spec_release, spec_withdraw, Account, AccountBook,
};
use crate::ledger::{DisputeLedger, LedgerEntry, TransactionRecord, TxKind, TxState};

verus! {

/// The whole engine state: per-client accounts and per-deposit entries.
pub ghost struct EngineState {
    pub accounts: Map<u16, Account>,
    pub entries: Map<u32, LedgerEntry>,
}

impl EngineState {
    /// The state before any record: no accounts, no entries.
    pub open spec fn initial() -> EngineState {
        EngineState { accounts: Map::empty(), entries: Map::empty() }
    }

    /// Every account is balanced and keyed by its own client id.
    pub open spec fn valid(self) -> bool {
        forall|c: u16|
            self.accounts.contains_key(c) ==> balanced(#[trigger] self.accounts[c])
                && self.accounts[c].client == c
    }
}

/// A missing amount counts as zero, as for a deposit of nothing.
pub open spec fn amount_or_zero(amount: Option<u64>) -> u64 {
    match amount {
        Some(x) => x,
        None => 0,
    }
}

/// What a deposit record does once the account (unlocked) is at hand:
/// credit the amount and record the deposit as open to dispute, unless
/// the balance cannot take it.
pub open spec fn spec_apply_deposit(
    accounts: Map<u16, Account>,
    entries: Map<u32, LedgerEntry>,
    a: Account,
    r: TransactionRecord,
) -> EngineState {
    let amt = amount_or_zero(r.amount);
    if a.total + amt <= u64::MAX {
        EngineState {
            accounts: accounts.insert(r.client, spec_deposit(a, amt)),
            entries: entries.insert(
                r.tx,
                LedgerEntry { client: r.client, amount: amt, state: TxState::Normal },
            ),
        }
    } else {
        EngineState { accounts, entries }
    }
}

/// What a withdrawal record does once the account (unlocked) is at
/// hand: debit the amount if it is available, else drop the record.
pub open spec fn spec_apply_withdrawal(
    accounts: Map<u16, Account>,
    entries: Map<u32, LedgerEntry>,
    a: Account,
    r: TransactionRecord,
) -> EngineState {
    let amt = amount_or_zero(r.amount);
    if a.available >= amt {
        EngineState { accounts: accounts.insert(r.client, spec_withdraw(a, amt)), entries }
    } else {
        EngineState { accounts, entries }
    }
}

/// What a dispute record does once the account (unlocked) is at hand:
/// if the referenced deposit exists, belongs to the record's client,
/// was never successfully disputed, and its amount is still available,
/// hold that amount and mark the entry `Disputed`; otherwise nothing.
pub open spec fn spec_apply_dispute(
    accounts: Map<u16, Account>,
    entries: Map<u32, LedgerEntry>,
    a: Account,
    r: TransactionRecord,
) -> EngineState {
    if entries.contains_key(r.tx) {
        let e = entries[r.tx];
        if e.client == r.client && e.state is Normal && a.available >= e.amount {
            EngineState {
                accounts: accounts.insert(r.client, spec_hold(a, e.amount)),
                entries: entries.insert(
                    r.tx,
                    LedgerEntry { client: e.client, amount: e.amount, state: TxState::Disputed },
                ),
            }
        } else {
            EngineState { accounts, entries }
        }
    } else {
        EngineState { accounts, entries }
    }
}

/// What a resolve record does once the account (unlocked) is at hand:
/// if the referenced deposit is under dispute by this client and its
/// amount is held, release the hold and mark the entry `Resolved`.
pub open spec fn spec_apply_resolve(
    accounts: Map<u16, Account>,
    entries: Map<u32, LedgerEntry>,
    a: Account,
    r: TransactionRecord,
) -> EngineState {
    if entries.contains_key(r.tx) {
        let e = entries[r.tx];
        if e.client == r.client && e.state is Disputed && a.held >= e.amount {
            EngineState {
                accounts: accounts.insert(r.client, spec_release(a, e.amount)),
                entries: entries.insert(
                    r.tx,
                    LedgerEntry { client: e.client, amount: e.amount, state: TxState::Resolved },
                ),
            }
        } else {
            EngineState { accounts, entries }
        }
    } else {
        EngineState { accounts, entries }
    }
}

/// What a chargeback record does once the account (unlocked) is at
/// hand: if the referenced deposit is under dispute by this client and
/// its amount is held, remove it for good, lock the account, and mark
/// the entry `ChargedBack`.
pub open spec fn spec_apply_chargeback(
    accounts: Map<u16, Account>,
    entries: Map<u32, LedgerEntry>,
    a: Account,
    r: TransactionRecord,
) -> EngineState {
    if entries.contains_key(r.tx) {
        let e = entries[r.tx];
        if e.client == r.client && e.state is Disputed && a.held >= e.amount {
            EngineState {
                accounts: accounts.insert(r.client, spec_chargeback(a, e.amount)),
                entries: entries.insert(
                    r.tx,
                    LedgerEntry { client: e.client, amount: e.amount, state: TxState::ChargedBack },
                ),
            }
        } else {
            EngineState { accounts, entries }
        }
    } else {
        EngineState { accounts, entries }
    }
}

/// What one record does to the engine state: the account for the
/// record's client is created if absent; a locked account drops the
/// record whole; otherwise the record is dispatched by kind.
pub open spec fn spec_apply(s: EngineState, r: TransactionRecord) -> EngineState {
    let accounts = spec_ensure_account(s.accounts, r.client);
    let a = accounts[r.client];
    if a.locked {
        EngineState { accounts, entries: s.entries }
    } else {
        match r.kind {
            TxKind::Deposit => spec_apply_deposit(accounts, s.entries, a, r),
            TxKind::Withdrawal => spec_apply_withdrawal(accounts, s.entries, a, r),
            TxKind::Dispute => spec_apply_dispute(accounts, s.entries, a, r),
            TxKind::Resolve => spec_apply_resolve(accounts, s.entries, a, r),
            TxKind::Chargeback => spec_apply_chargeback(accounts, s.entries, a, r),
        }
    }
}

/// The engine state after applying `records` in order to the initial
/// state.
pub open spec fn spec_run(records: Seq<TransactionRecord>) -> EngineState
    decreases records.len(),
{
    if records.len() == 0 {
        EngineState::initial()
    } else {
        spec_apply(spec_run(records.drop_last()), records.last())
    }
}

/// Applies one record to the book and the ledger, exactly as
/// `spec_apply` says. Business errors are swallowed: the record is
/// dropped and all prior state stands.
pub fn apply_record(book: &mut AccountBook, ledger: &mut DisputeLedger, record: &TransactionRecord)
    requires
        old(book).wf(),
    ensures
        final(book).wf(),
        (EngineState { accounts: final(book)@, entries: final(ledger)@ }) == spec_apply(
            (EngineState { accounts: old(book)@, entries: old(ledger)@ }),
            *record,
        ),
{
    let account = book.get_or_create(record.client);
    if account.locked {
        return ;
    }
    match record.kind {
        TxKind::Deposit => {
            let amt = match record.amount {
                Some(x) => x,
                None => 0,
            };
            if amt <= u64::MAX - account.total {
                match book.deposit(record.client, amt) {
                    Ok(()) => ledger.record_deposit(record.tx, record.client, amt),
                    Err(_) => {},
                }
            }
        },
        TxKind::Withdrawal => {
            let amt = match record.amount {
                Some(x) => x,
                None => 0,
            };
            let _ = book.withdraw(record.client, amt);
        },
        TxKind::Dispute => {
            match ledger.get(record.tx) {
                Some(entry) => {
                    if entry.client == record.client && entry.state == TxState::Normal {
                        match book.dispute_hold(record.client, entry.amount) {
                            Ok(()) => ledger.set_state(record.tx, TxState::Disputed),
                            Err(_) => {},
                        }
                    }
                },
                None => {},
            }
        },
        TxKind::Resolve => {
            match ledger.get(record.tx) {
                Some(entry) => {
                    if entry.client == record.client && entry.state == TxState::Disputed {
                        match book.resolve_release(record.client, entry.amount) {
                            Ok(()) => ledger.set_state(record.tx, TxState::Resolved),
                            Err(_) => {},
                        }
                    }
                },
                None => {},
            }
        },
        TxKind::Chargeback => {
            match ledger.get(record.tx) {
                Some(entry) => {
                    if entry.client == record.client && entry.state == TxState::Disputed {
                        match book.chargeback_apply(record.client, entry.amount) {
                            Ok(()) => ledger.set_state(record.tx, TxState::ChargedBack),
                            Err(_) => {},
                        }
                    }
                },
                None => {},
            }
        },
    }
}

/// Consumes the records in input order and returns one snapshot per
/// client that was ever referenced: exactly the accounts of
/// `spec_run(records@)`, each client once.
pub fn process_transactions(records: &Vec<TransactionRecord>) -> (snapshots: Vec<Account>)
    ensures
        forall|i: int|
            0 <= i < snapshots@.len() ==> spec_run(records@).accounts.contains_key(
                #[trigger] snapshots@[i].client,
            ) && snapshots@[i] == spec_run(records@).accounts[snapshots@[i].client],
        forall|c: u16|
            spec_run(records@).accounts.contains_key(c) ==> exists|i: int|
                0 <= i < snapshots@.len() && snapshots@[i].client == c,
        forall|i: int, j: int|
            0 <= i < j < snapshots@.len() ==> snapshots@[i].client != snapshots@[j].client,
{
    let mut book = AccountBook::new();
    let mut ledger = DisputeLedger::new();
    proof {
        assert(records@.take(0) =~= Seq::<TransactionRecord>::empty());
    }
    let mut i: usize = 0;
    while i < records.len()
        invariant
            book.wf(),
            i <= records@.len(),
            (EngineState { accounts: book@, entries: ledger@ }) == spec_run(
                records@.take(i as int),
            ),
        decreases records@.len() - i,
    {
        apply_record(&mut book, &mut ledger, &records[i]);
        proof {
            assert(records@.take(i + 1).drop_last() =~= records@.take(i as int));
            assert(records@.take(i + 1).last() == records@[i as int]);
        }
        i = i + 1;
    }
    proof {
        assert(records@.take(records@.len() as int) =~= records@);
    }
    book.snapshots()
}

} // verus!
