//! An in-memory ledger of accounts with overdraft limits and their
//! transaction history, with every operation verified against its contract.

pub mod types;
pub mod accounts;
pub mod log;
pub mod clock;
pub mod service;
pub mod laws;

pub use types::{
    Balance, LastTransaction, LedgerError, NewTransaction, Statement, StatementResponse,
    TransactionResponse, TxKind, User,
};
pub use accounts::AccountStore;
pub use log::LedgerLog;
pub use service::AppState;
