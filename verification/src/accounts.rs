//! The accounts that each operation works on, and the calls that it hands to
//! the asset transfer service.

use vstd::prelude::*;
use crate::address::Address;
use crate::lock::{LockPolicy, LockTime};
use crate::staker::TokenStaker;

verus! {

/// What the vault reads of a token account.
#[derive(Clone, Copy, Debug, PartialEq, Eq)]
pub struct TokenAccount {
    pub key: Address,
    pub mint: Address,
    pub authority: Address,
}

/// The kinds of authority that the transfer service can reassign.
#[derive(Clone, Copy, Debug, PartialEq, Eq, Structural)]
pub enum AuthorityType {
    MintTokens,
    FreezeAccount,
    AccountOwner,
    CloseAccount,
}

/// The accounts of a reassignment of authority.
#[derive(Clone, Copy, Debug, PartialEq, Eq)]
pub struct SetAuthority {
    pub account_or_mint: Address,
    pub current_authority: Address,
}

/// The accounts of a transfer.
#[derive(Clone, Copy, Debug, PartialEq, Eq)]
pub struct Transfer {
    pub from: Address,
    pub to: Address,
    pub authority: Address,
}

/// A reassignment of authority for the transfer service to perform.
#[derive(Clone, Copy, Debug, PartialEq, Eq)]
pub struct SetAuthorityCall {
    pub accounts: SetAuthority,
    pub authority_type: AuthorityType,
    pub new_authority: Option<Address>,
}

/// A transfer for the transfer service to perform. Where `signer_bump` is
/// given, the program signs as the vault authority, with the authority's seed
/// and this bump seed; else the authority has signed itself.
#[derive(Clone, Copy, Debug, PartialEq, Eq)]
pub struct TransferCall {
    pub accounts: Transfer,
    pub amount: u64,
    pub signer_bump: Option<u8>,
}

/// The accounts of `initialize`. `vault_account` and `lock_time_account` are
/// `None` until the owner's vault has been initialized.
#[derive(Clone, Copy, Debug, PartialEq, Eq)]
pub struct Initialize {
    pub owner: Address,
    pub lock_time_account: Option<LockTime>,
    pub vault_key: Address,
    pub vault_account: Option<TokenAccount>,
    pub source_token_mint: Address,
}

/// The accounts of `deposit`.
#[derive(Clone, Copy, Debug, PartialEq, Eq)]
pub struct Deposit {
    pub owner: Address,
    pub token_staker: TokenStaker,
    pub source_token_account: TokenAccount,
    pub source_token_mint: Address,
    pub token_vault_account: TokenAccount,
    pub lock_policy: LockPolicy,
}

/// The accounts of `claim`.
#[derive(Clone, Copy, Debug, PartialEq, Eq)]
pub struct Claim {
    pub owner: Address,
    pub token_staker: TokenStaker,
    pub dest_token_account: TokenAccount,
    pub token_mint: Address,
    pub token_vault_account: TokenAccount,
    pub vault_authority: Address,
    pub lock_policy: LockPolicy,
}

impl Initialize {
    /// The accounts of handing the vault over: the vault, with the owner as
    /// the authority that it has until then.
    pub open spec fn set_authority_accounts(self) -> SetAuthority {
        SetAuthority { account_or_mint: self.vault_key, current_authority: self.owner }
    }

    /// Names the accounts of handing the vault over.
    pub fn into_set_authority_context(&self) -> (accounts: SetAuthority)
        ensures
            accounts == self.set_authority_accounts(),
    {
        SetAuthority { account_or_mint: self.vault_key, current_authority: self.owner }
    }
}

impl Deposit {
    /// The accounts of the deposit's transfer: from the source to the vault,
    /// on the owner's own authority.
    pub open spec fn transfer_accounts(self) -> Transfer {
        Transfer {
            from: self.source_token_account.key,
            to: self.token_vault_account.key,
            authority: self.owner,
        }
    }

    /// Names the accounts of the deposit's transfer.
    pub fn into_token_transfer_context(&self) -> (accounts: Transfer)
        ensures
            accounts == self.transfer_accounts(),
    {
        Transfer {
            from: self.source_token_account.key,
            to: self.token_vault_account.key,
            authority: self.owner,
        }
    }
}

impl Claim {
    /// The accounts of the withdrawal's transfer: from the vault to the
    /// destination, on the vault authority.
    pub open spec fn transfer_accounts(self) -> Transfer {
        Transfer {
            from: self.token_vault_account.key,
            to: self.dest_token_account.key,
            authority: self.vault_authority,
        }
    }

    /// Names the accounts of the withdrawal's transfer.
    pub fn into_token_transfer_context(&self) -> (accounts: Transfer)
        ensures
            accounts == self.transfer_accounts(),
    {
        Transfer {
            from: self.token_vault_account.key,
            to: self.dest_token_account.key,
            authority: self.vault_authority,
        }
    }
}

} // verus!
