//! A payment ledger engine: applies an ordered stream of transaction
//! records (deposit, withdrawal, dispute, resolve, chargeback) to
//! per-client accounts, enforcing the account invariant
//! `total == available + held` and the dispute state machine.
//!
//! Monetary values are exact fixed-point decimals with four fractional
//! digits, represented as counts of ten-thousandths.

pub mod account;
pub mod engine;
pub mod error;
pub mod laws;
pub mod ledger;

pub use account::Account;
pub use account::AccountBook;
pub use engine::apply_record;
pub use engine::process_transactions;
pub use error::EngineError;
pub use ledger::DisputeLedger;
pub use ledger::LedgerEntry;
pub use ledger::TransactionRecord;
pub use ledger::TxKind;
pub use ledger::TxState;
