//! Transaction records and the dispute ledger.
//!
//! The ledger remembers, for every deposit that was actually applied,
//! its owner, its amount and a per-transaction dispute state, keyed by
//! the globally unique transaction id. Withdrawals are never recorded:
//! they cannot be disputed. `Resolved` and `ChargedBack` are terminal.

use vstd::prelude::*;

use std::collections::HashMap;

verus! {

broadcast use vstd::std_specs::hash::group_hash_axioms;

/// The kind of an incoming transaction record.
#[derive(Debug, Clone, Copy, PartialEq, Eq, Structural)]
pub enum TxKind {
    Deposit,
    Withdrawal,
    Dispute,
    Resolve,
    Chargeback,
}

/// The dispute state of one recorded deposit.
#[derive(Debug, Clone, Copy, PartialEq, Eq, Structural)]
pub enum TxState {
    /// Never successfully disputed; a dispute may still open.
    Normal,
    /// Under an open dispute; its amount is held.
    Disputed,
    /// The dispute closed in the client's favor. Terminal.
    Resolved,
    /// The dispute closed against the client; the account locked. Terminal.
    ChargedBack,
}

/// One already-decoded transaction record. `amount` counts
/// ten-thousandths of a unit; it is present for deposits and
/// withdrawals and absent (and ignored) for the dispute family, which
/// instead looks up the referenced `tx`.
#[derive(Debug, Clone, Copy, PartialEq, Eq, Structural)]
pub struct TransactionRecord {
    pub kind: TxKind,
    pub client: u16,
    pub tx: u32,
    pub amount: Option<u64>,
}

/// What the ledger stores for one applied deposit.
#[derive(Debug, Clone, Copy, PartialEq, Eq, Structural)]
pub struct LedgerEntry {
    pub client: u16,
    pub amount: u64,
    pub state: TxState,
}

/// The dispute ledger: one `LedgerEntry` per applied deposit, keyed by
/// transaction id. Entries are never deleted.
pub struct DisputeLedger {
    entries: HashMap<u32, LedgerEntry>,
}

impl View for DisputeLedger {
    type V = Map<u32, LedgerEntry>;

    closed spec fn view(&self) -> Map<u32, LedgerEntry> {
        self.entries@
    }
}

impl DisputeLedger {
    /// An empty ledger.
    pub fn new() -> (ledger: DisputeLedger)
        ensures
            ledger@ == Map::<u32, LedgerEntry>::empty(),
    {
        DisputeLedger { entries: HashMap::new() }
    }

    /// Records an applied deposit as open to later dispute. A record
    /// for an already-known `tx` replaces the old entry.
    pub fn record_deposit(&mut self, tx: u32, client_id: u16, amount: u64)
        ensures
            final(self)@ == old(self)@.insert(
                tx,
                (LedgerEntry { client: client_id, amount, state: TxState::Normal }),
            ),
    {
        self.entries.insert(tx, LedgerEntry { client: client_id, amount, state: TxState::Normal });
    }

    /// Looks up the entry for `tx`, if any.
    pub fn get(&self, tx: u32) -> (r: Option<LedgerEntry>)
        ensures
            match r {
                Some(e) => self@.contains_key(tx) && e == self@[tx],
                None => !self@.contains_key(tx),
            },
    {
        match self.entries.get(&tx) {
            Some(e) => Some(*e),
            None => None,
        }
    }

    /// Moves the entry for `tx` to `state`, leaving owner and amount as
    /// they are.
    pub fn set_state(&mut self, tx: u32, state: TxState)
        requires
            old(self)@.contains_key(tx),
        ensures
            final(self)@ == old(self)@.insert(
                tx,
                (LedgerEntry {
                    client: old(self)@[tx].client,
                    amount: old(self)@[tx].amount,
                    state,
                }),
            ),
    {
        let e = *self.entries.get(&tx).unwrap();
        self.entries.insert(tx, LedgerEntry { client: e.client, amount: e.amount, state });
    }
}

} // verus!
