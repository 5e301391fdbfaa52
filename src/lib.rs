//! Replays deposits, withdrawals and the dispute lifecycle of deposits
//! against per-client accounts held as exact fixed-point balances.

pub mod account;
pub mod amount;
pub mod laws;
pub mod transaction;

pub use account::{Account, AccountState};
pub use transaction::{LedgerError, Transaction};
