//! Stealth-address payment escrow and a simple-interest yield vault, written
//! as pure state transitions over plain account values.
//!
//! Every handler takes the accounts a transaction declares, checks the
//! business rules, and either returns the new account state together with
//! the record to log, or fails and leaves every account as it was.
//!
//! - `identity`: ledger addresses, and who signed for them.
//! - `token`: token accounts and the two operations of the token service.
//! - `address`: the addresses the ledger derives from seeds.
//! - `stealth`: `pay`, `withdraw` and `announce` of the escrow.
//! - `vault`: accrual, `deposit`, `withdraw` and `get_balance` of the vault.

pub mod address;
pub mod identity;
pub mod stealth;
pub mod token;
pub mod vault;
