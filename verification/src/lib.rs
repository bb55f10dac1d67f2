//! A custodial, time-locked token vault.
//!
//! An owner deposits tokens into a vault whose authority is no key of
//! anyone's but an address derived from the program's identity, and may
//! withdraw up to the deposited amount once a lock has elapsed.
//!
//! The library decides and keeps the books; it moves no tokens. `initialize`,
//! `deposit` and `claim` work on the accounts that the host has read, change
//! the records in them, and return the call that the host has to make to the
//! asset transfer service. The host then hands the answer of that service to
//! the store together with the change, so that a change is kept only where
//! the transfer has succeeded:
//!
//! - `authority` derives the vault authority,
//! - `lock` holds the two lock rules,
//! - `staker` holds the staker's record and its arithmetic,
//! - `accounts` holds the accounts of each operation and the calls,
//! - `engine` holds the operations,
//! - `ledger` is the store of vaults and staker records,
//! - `laws` states what holds over all inputs and all courses of events.

pub mod accounts;
pub mod address;
pub mod authority;
pub mod engine;
pub mod error;
pub mod laws;
pub mod ledger;
pub mod lock;
pub mod staker;

pub use accounts::{
    AuthorityType, Claim, Deposit, Initialize, SetAuthority, SetAuthorityCall, TokenAccount,
    Transfer, TransferCall,
};
pub use address::Address;
pub use authority::{derive_authority, derive_vault_authority, DerivedAuthority, VAULT_AUTHORITY_SEED};
pub use engine::{claim, claim_with_authority, deposit, initialize, initialize_with_authority};
pub use error::{CustomError, TransferError};
pub use ledger::{Ledger, Mutation, VaultEntry};
pub use lock::{clock_seconds, LockPolicy, LockTime};
pub use staker::TokenStaker;
