//! The engine's general laws, proved over the specification-level
//! state machine (`spec_apply`, `spec_run`) that the executable
//! functions are verified against.

use vstd::prelude::*;

use crate::account::{balanced, spec_ensure_account};
use crate::engine::{spec_apply, spec_run, EngineState};
use crate::ledger::{TransactionRecord, TxKind};

verus! {

/// Applying one record preserves validity of every account: each stays
/// balanced (`total == available + held`) and keyed by its client id.
pub proof fn lemma_apply_preserves_valid(s: EngineState, r: TransactionRecord)
    requires
        s.valid(),
    ensures
        spec_apply(s, r).valid(),
{
    let accounts = spec_ensure_account(s.accounts, r.client);
    let s2 = spec_apply(s, r);
    assert forall|c: u16|
        s2.accounts.contains_key(c) implies balanced(#[trigger] s2.accounts[c])
        && s2.accounts[c].client == c by {
        if c != r.client {
            assert(s2.accounts[c] == accounts[c]);
            assert(accounts[c] == s.accounts[c]);
        }
    }
}

/// At every observation point of a run, every account satisfies
/// `total == available + held` exactly (and `held >= 0` holds by the
/// unsigned representation): the invariant holds after any sequence of
/// records, hence after every prefix of any input.
pub proof fn lemma_run_valid(records: Seq<TransactionRecord>)
    ensures
        spec_run(records).valid(),
    decreases records.len(),
{
    if records.len() == 0 {
    } else {
        lemma_run_valid(records.drop_last());
        lemma_apply_preserves_valid(spec_run(records.drop_last()), records.last());
    }
}

/// No record changes a locked account: once locked, an account's
/// balances and lock stand whatever comes next.
pub proof fn lemma_apply_keeps_locked_account(s: EngineState, r: TransactionRecord, c: u16)
    requires
        s.accounts.contains_key(c),
        s.accounts[c].locked,
    ensures
        spec_apply(s, r).accounts.contains_key(c),
        spec_apply(s, r).accounts[c] == s.accounts[c],
{
    let accounts = spec_ensure_account(s.accounts, r.client);
    if c == r.client {
        assert(accounts[c] == s.accounts[c]);
    } else {
        assert(spec_apply(s, r).accounts[c] == accounts[c]);
    }
}

/// Once an account is locked, no subsequent stretch of records changes
/// it: the account after `prefix + rest` is the account after `prefix`.
pub proof fn lemma_locked_account_frozen(
    prefix: Seq<TransactionRecord>,
    rest: Seq<TransactionRecord>,
    c: u16,
)
    requires
        spec_run(prefix).accounts.contains_key(c),
        spec_run(prefix).accounts[c].locked,
    ensures
        spec_run(prefix + rest).accounts.contains_key(c),
        spec_run(prefix + rest).accounts[c] == spec_run(prefix).accounts[c],
    decreases rest.len(),
{
    if rest.len() == 0 {
        assert(prefix + rest =~= prefix);
    } else {
        lemma_locked_account_frozen(prefix, rest.drop_last(), c);
        assert((prefix + rest).drop_last() =~= prefix + rest.drop_last());
        assert((prefix + rest).last() == rest.last());
        lemma_apply_keeps_locked_account(spec_run(prefix + rest.drop_last()), rest.last(), c);
    }
}

/// Dispute-family records are idempotent: once a dispute, resolve or
/// chargeback record has been applied, applying the very same record
/// again changes nothing.
pub proof fn lemma_dispute_family_idempotent(s: EngineState, r: TransactionRecord)
    requires
        r.kind is Dispute || r.kind is Resolve || r.kind is Chargeback,
    ensures
        spec_apply(spec_apply(s, r), r) == spec_apply(s, r),
{
    let s1 = spec_apply(s, r);
    assert(s1.accounts.contains_key(r.client));
    assert(spec_ensure_account(s1.accounts, r.client) == s1.accounts);
}

/// A dispute that fails for want of available funds leaves the entry
/// `Normal` and every balance as it was, so a later dispute of the
/// same deposit can still succeed.
pub proof fn lemma_failed_dispute_leaves_normal(s: EngineState, r: TransactionRecord)
    requires
        r.kind is Dispute,
        s.entries.contains_key(r.tx),
        s.entries[r.tx].client == r.client,
        s.entries[r.tx].state is Normal,
        !spec_ensure_account(s.accounts, r.client)[r.client].locked,
        spec_ensure_account(s.accounts, r.client)[r.client].available < s.entries[r.tx].amount,
    ensures
        spec_apply(s, r).entries == s.entries,
        spec_apply(s, r).accounts == spec_ensure_account(s.accounts, r.client),
{
}

/// A dispute of a deposit whose amount is still available succeeds:
/// the amount moves from available to held and the entry becomes
/// `Disputed`.
pub proof fn lemma_eligible_dispute_succeeds(s: EngineState, r: TransactionRecord)
    requires
        r.kind is Dispute,
        s.entries.contains_key(r.tx),
        s.entries[r.tx].client == r.client,
        s.entries[r.tx].state is Normal,
        !spec_ensure_account(s.accounts, r.client)[r.client].locked,
        spec_ensure_account(s.accounts, r.client)[r.client].available >= s.entries[r.tx].amount,
    ensures
        spec_apply(s, r).entries[r.tx].state is Disputed,
        spec_apply(s, r).accounts[r.client] == crate::account::spec_hold(
            spec_ensure_account(s.accounts, r.client)[r.client],
            s.entries[r.tx].amount,
        ),
{
}

/// Disputing, resolving or charging back a transaction that is unknown
/// or owned by another client has no effect: no entry moves and no
/// balance changes (at most the record's client gains a fresh, empty
/// account).
pub proof fn lemma_foreign_or_unknown_claim_no_effect(s: EngineState, r: TransactionRecord)
    requires
        r.kind is Dispute || r.kind is Resolve || r.kind is Chargeback,
        !s.entries.contains_key(r.tx) || s.entries[r.tx].client != r.client,
    ensures
        spec_apply(s, r).entries == s.entries,
        spec_apply(s, r).accounts == spec_ensure_account(s.accounts, r.client),
{
}

} // verus!
