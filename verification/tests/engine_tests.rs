//! Scenario tests: each feeds the engine a decoded record sequence and
//! compares the final snapshots, sorted by client, with the expected
//! balances. Amounts count ten-thousandths of a unit.

use paymentengine::{process_transactions, TransactionRecord, TxKind};

fn rec(kind: TxKind, client: u16, tx: u32, amount: Option<u64>) -> TransactionRecord {
    TransactionRecord { kind, client, tx, amount }
}

fn deposit(client: u16, tx: u32, amount: u64) -> TransactionRecord {
    rec(TxKind::Deposit, client, tx, Some(amount))
}

fn withdrawal(client: u16, tx: u32, amount: u64) -> TransactionRecord {
    rec(TxKind::Withdrawal, client, tx, Some(amount))
}

fn dispute(client: u16, tx: u32) -> TransactionRecord {
    rec(TxKind::Dispute, client, tx, None)
}

fn resolve(client: u16, tx: u32) -> TransactionRecord {
    rec(TxKind::Resolve, client, tx, None)
}

fn chargeback(client: u16, tx: u32) -> TransactionRecord {
    rec(TxKind::Chargeback, client, tx, None)
}

/// Runs the records and checks the snapshots against
/// `(client, available, held, total, locked)` rows, in client order.
fn run_test_scenario(records: Vec<TransactionRecord>, expected: Vec<(u16, u64, u64, u64, bool)>) {
    let mut out = process_transactions(&records);
    out.sort_by_key(|a| a.client);
    assert_eq!(out.len(), expected.len(), "wrong number of accounts");
    for (a, e) in out.iter().zip(expected.iter()) {
        assert_eq!(a.client, e.0);
        assert_eq!(a.available, e.1, "available of client {}", e.0);
        assert_eq!(a.held, e.2, "held of client {}", e.0);
        assert_eq!(a.total, e.3, "total of client {}", e.0);
        assert_eq!(a.locked, e.4, "locked of client {}", e.0);
    }
}

#[test]
fn test_deposit_withdrawal() {
    run_test_scenario(
        vec![
            deposit(1, 1, 20000),
            deposit(2, 2, 30000),
            deposit(1, 3, 20000),
            withdrawal(1, 4, 25000),
            withdrawal(2, 5, 35000),
        ],
        vec![(1, 15000, 0, 15000, false), (2, 30000, 0, 30000, false)],
    );
}

#[test]
fn test_deposit_withdrawal_dispute_chargeback_resolve() {
    run_test_scenario(
        vec![
            deposit(1, 1, 10000),
            deposit(2, 2, 20000),
            deposit(1, 3, 20000),
            withdrawal(1, 4, 15000),
            withdrawal(2, 5, 30000),
            deposit(3, 6, 370000),
            dispute(3, 6),
            chargeback(3, 6),
            deposit(4, 7, 200000),
            dispute(4, 7),
            resolve(4, 7),
        ],
        vec![
            (1, 15000, 0, 15000, false),
            (2, 20000, 0, 20000, false),
            (3, 0, 0, 0, true),
            (4, 200000, 0, 200000, false),
        ],
    );
}

#[test]
fn test_resolve_and_chargeback_with_funds_scenario() {
    run_test_scenario(
        vec![
            deposit(1, 1, 100000),
            deposit(1, 2, 50000),
            deposit(2, 3, 80000),
            withdrawal(1, 4, 30000),
            dispute(1, 1),
            chargeback(1, 1),
            dispute(2, 3),
            resolve(2, 3),
        ],
        vec![(1, 20000, 0, 20000, true), (2, 80000, 0, 80000, false)],
    );
}

#[test]
fn test_withdrawal_exceeding_balance() {
    run_test_scenario(
        vec![deposit(1, 1, 100000), withdrawal(1, 2, 150000)],
        vec![(1, 100000, 0, 100000, false)],
    );
}

#[test]
fn test_locked_account_transactions() {
    run_test_scenario(
        vec![
            deposit(1, 1, 1000000),
            dispute(1, 1),
            chargeback(1, 1),
            deposit(1, 2, 500000),
            withdrawal(1, 3, 200000),
        ],
        vec![(1, 0, 0, 0, true)],
    );
}

#[test]
fn test_multiple_disputes_same_transaction() {
    run_test_scenario(
        vec![
            deposit(1, 1, 1000000),
            deposit(1, 2, 1000000),
            deposit(1, 3, 1000000),
            dispute(1, 1),
            dispute(1, 1),
            dispute(1, 1),
            dispute(1, 1),
            dispute(1, 2),
            resolve(1, 1),
        ],
        vec![(1, 2000000, 1000000, 3000000, false)],
    );
}

#[test]
fn test_dispute_nonexistent_transaction() {
    run_test_scenario(
        vec![deposit(1, 1, 500000), dispute(1, 2)],
        vec![(1, 500000, 0, 500000, false)],
    );
}

#[test]
fn test_incorrect_input() {
    // Rows with an unknown kind, a wrong arity or an unparsable amount
    // never reach the engine: the decoder drops them. Only the two
    // well-formed records arrive.
    run_test_scenario(
        vec![deposit(1, 1, 200000), withdrawal(1, 3, 50000)],
        vec![(1, 150000, 0, 150000, false)],
    );
}

#[test]
fn test_unauthorized_transaction_updates() {
    run_test_scenario(
        vec![
            deposit(1, 1, 1000000),
            deposit(2, 2, 2000000),
            dispute(2, 1),
            chargeback(2, 1),
            resolve(2, 1),
            withdrawal(2, 3, 500000),
        ],
        vec![(1, 1000000, 0, 1000000, false), (2, 1500000, 0, 1500000, false)],
    );
}

#[test]
fn test_partial_dispute_after_withdrawal() {
    // Disputing tx 1 fails: only 5 of the deposited 10 are still
    // available, and a dispute cannot hold more than is available.
    run_test_scenario(
        vec![deposit(1, 1, 100000), withdrawal(1, 2, 50000), dispute(1, 1), resolve(1, 1)],
        vec![(1, 50000, 0, 50000, false)],
    );
}

#[test]
fn test_successfully_dispute_after_failed_dispute_request() {
    run_test_scenario(
        vec![
            deposit(1, 1, 100000),
            withdrawal(1, 2, 50000),
            dispute(1, 1),
            deposit(1, 3, 50000),
            dispute(1, 1),
        ],
        vec![(1, 0, 100000, 100000, false)],
    );
}

#[test]
fn test_high_precision_transactions() {
    // The decoder normalizes 10.12345 to four fractional digits
    // (banker's rounding: the tie goes to the even 10.1234) before the
    // record reaches the engine.
    run_test_scenario(
        vec![deposit(1, 1, 101234), deposit(1, 2, 205678), withdrawal(1, 3, 51234)],
        vec![(1, 255678, 0, 255678, false)],
    );
}

#[test]
fn test_empty_input() {
    run_test_scenario(vec![], vec![]);
}

#[test]
fn test_repeated_resolve_is_noop() {
    // The second resolve finds the entry already `Resolved` and does
    // nothing.
    run_test_scenario(
        vec![deposit(1, 1, 1000000), dispute(1, 1), resolve(1, 1), resolve(1, 1)],
        vec![(1, 1000000, 0, 1000000, false)],
    );
}

#[test]
fn test_resolved_entry_is_terminal() {
    // A resolved deposit cannot be disputed again.
    run_test_scenario(
        vec![deposit(1, 1, 1000000), dispute(1, 1), resolve(1, 1), dispute(1, 1)],
        vec![(1, 1000000, 0, 1000000, false)],
    );
}

#[test]
fn test_locked_account_blocks_other_disputes() {
    // After the chargeback locks the account, even a well-formed
    // dispute of the other deposit is dropped whole.
    run_test_scenario(
        vec![
            deposit(1, 1, 500000),
            deposit(1, 2, 300000),
            dispute(1, 1),
            chargeback(1, 1),
            dispute(1, 2),
        ],
        vec![(1, 300000, 0, 300000, true)],
    );
}

#[test]
fn test_deposit_overflow_is_dropped() {
    // A deposit the balance cannot take is dropped like any other
    // failed record; the account stands.
    run_test_scenario(
        vec![deposit(1, 1, u64::MAX), deposit(1, 2, 1), withdrawal(1, 3, 5)],
        vec![(1, u64::MAX - 5, 0, u64::MAX - 5, false)],
    );
}

#[test]
fn test_dispute_of_withdrawal_id_is_unknown() {
    // Withdrawals are never recorded, so disputing a withdrawal's tx
    // references an unknown transaction and is dropped.
    run_test_scenario(
        vec![deposit(1, 1, 100000), withdrawal(1, 2, 40000), dispute(1, 2)],
        vec![(1, 60000, 0, 60000, false)],
    );
}
