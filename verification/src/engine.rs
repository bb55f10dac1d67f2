//! The custody engine: `initialize`, `deposit` and `claim`.
//!
//! Each operation checks its accounts, changes the records in them and
//! returns the call that the asset transfer service has to perform. An
//! operation that fails changes nothing and asks for no call.

use vstd::prelude::*;
use crate::accounts::{
    AuthorityType, Claim, Deposit, Initialize, SetAuthorityCall, TokenAccount, TransferCall,
};
use crate::address::Address;
use crate::authority::{derive_vault_authority, vault_authority, DerivedAuthority};
use crate::error::CustomError;
use crate::lock::LockTime;
use crate::staker::TokenStaker;

verus! {

impl Initialize {
    /// Whether the owner's vault has been initialized before.
    pub open spec fn already_exists(self) -> bool {
        self.vault_account is Some || self.lock_time_account is Some
    }

    /// What `initialize` makes of these accounts, `authority` being the
    /// outcome of deriving the vault authority: the accounts afterwards and
    /// the call to the transfer service, or the error.
    pub open spec fn initialized(
        self,
        authority: Result<DerivedAuthority, CustomError>,
        lock_time: Option<u64>,
    ) -> Result<(Initialize, SetAuthorityCall), CustomError> {
        if self.already_exists() {
            Err(CustomError::AlreadyExists)
        } else {
            match authority {
                Err(error) => Err(error),
                Ok(derived) => Ok(
                    (
                        Initialize {
                            owner: self.owner,
                            lock_time_account: match lock_time {
                                Some(time) => Some(LockTime { owner: self.owner, lock_time: time }),
                                None => None,
                            },
                            vault_key: self.vault_key,
                            vault_account: Some(
                                TokenAccount {
                                    key: self.vault_key,
                                    mint: self.source_token_mint,
                                    authority: derived.address,
                                },
                            ),
                            source_token_mint: self.source_token_mint,
                        },
                        SetAuthorityCall {
                            accounts: self.set_authority_accounts(),
                            authority_type: AuthorityType::AccountOwner,
                            new_authority: Some(derived.address),
                        },
                    ),
                ),
            }
        }
    }
}

impl Deposit {
    /// Whether the source and the vault hold the token type of the mint.
    pub open spec fn mints_match(self) -> bool {
        self.source_token_account.mint == self.source_token_mint && self.token_vault_account.mint
            == self.source_token_mint
    }

    /// What `deposit` makes of these accounts: the accounts afterwards and
    /// the call to the transfer service, or the error.
    pub open spec fn deposited(self, amount: u64, now: u64) -> Result<
        (Deposit, TransferCall),
        CustomError,
    > {
        if !self.mints_match() {
            Err(CustomError::MintMismatch)
        } else {
            match self.token_staker.credited(self.owner, amount) {
                Err(error) => Err(error),
                Ok(credited) => match self.lock_policy.after_deposit(
                    self.token_staker.unlock_time,
                    now,
                ) {
                    Err(error) => Err(error),
                    Ok(unlock_time) => Ok(
                        (
                            Deposit {
                                owner: self.owner,
                                token_staker: TokenStaker {
                                    owner: credited.owner,
                                    staked_amount: credited.staked_amount,
                                    unlock_time,
                                },
                                source_token_account: self.source_token_account,
                                source_token_mint: self.source_token_mint,
                                token_vault_account: self.token_vault_account,
                                lock_policy: self.lock_policy,
                            },
                            TransferCall {
                                accounts: self.transfer_accounts(),
                                amount,
                                signer_bump: None,
                            },
                        ),
                    ),
                },
            }
        }
    }
}

impl Claim {
    /// Whether the destination holds the token type of the mint and belongs
    /// to the owner.
    pub open spec fn destination_valid(self) -> bool {
        self.dest_token_account.mint == self.token_mint && self.dest_token_account.authority
            == self.owner
    }

    /// What `claim` makes of these accounts, `authority` being the outcome of
    /// deriving the vault authority: the accounts afterwards and the call to
    /// the transfer service, or the error. The lock comes first and the
    /// balance second, whatever else is wrong.
    pub open spec fn claimed(
        self,
        authority: Result<DerivedAuthority, CustomError>,
        amount: u64,
        now: u64,
    ) -> Result<(Claim, TransferCall), CustomError> {
        if self.lock_policy.is_locked(self.token_staker.unlock_time, now) {
            Err(CustomError::Locked)
        } else if amount > self.token_staker.staked_amount {
            Err(CustomError::ExceedAmount)
        } else if self.token_staker.owner != self.owner {
            Err(CustomError::Unauthorized)
        } else if !self.destination_valid() {
            Err(CustomError::InvalidDestination)
        } else if self.token_vault_account.mint != self.token_mint {
            Err(CustomError::MintMismatch)
        } else {
            match authority {
                Err(error) => Err(error),
                Ok(derived) => if self.vault_authority != derived.address {
                    Err(CustomError::Unauthorized)
                } else {
                    Ok(
                        (
                            Claim {
                                owner: self.owner,
                                token_staker: TokenStaker {
                                    owner: self.token_staker.owner,
                                    staked_amount: (self.token_staker.staked_amount
                                        - amount) as u64,
                                    unlock_time: self.token_staker.unlock_time,
                                },
                                dest_token_account: self.dest_token_account,
                                token_mint: self.token_mint,
                                token_vault_account: self.token_vault_account,
                                vault_authority: self.vault_authority,
                                lock_policy: self.lock_policy,
                            },
                            TransferCall {
                                accounts: self.transfer_accounts(),
                                amount,
                                signer_bump: Some(derived.bump),
                            },
                        ),
                    )
                },
            }
        }
    }
}

/// Whether an operation that started from `before` and should have done
/// `expected` ended in `after` with `outcome`.
pub open spec fn carried_out<A, C>(
    expected: Result<(A, C), CustomError>,
    before: A,
    after: A,
    outcome: Result<C, CustomError>,
) -> bool {
    match expected {
        Ok((accounts, call)) => outcome == Ok::<C, CustomError>(call) && after == accounts,
        Err(error) => outcome == Err::<C, CustomError>(error) && after == before,
    }
}

/// Initializes the owner's vault with `authority` as the outcome of deriving
/// the vault authority: creates the vault for the mint, hands it to the
/// derived address, and under the global rule writes the lock record.
pub fn initialize_with_authority(
    ctx: &mut Initialize,
    authority: Result<DerivedAuthority, CustomError>,
    lock_time: Option<u64>,
) -> (outcome: Result<SetAuthorityCall, CustomError>)
    ensures
        carried_out(old(ctx).initialized(authority, lock_time), *old(ctx), *final(ctx), outcome),
{
    if ctx.vault_account.is_some() || ctx.lock_time_account.is_some() {
        return Err(CustomError::AlreadyExists);
    }
    let derived = match authority {
        Ok(derived) => derived,
        Err(error) => {
            return Err(error);
        },
    };
    let accounts = ctx.into_set_authority_context();
    ctx.lock_time_account =
    match lock_time {
        Some(time) => Some(LockTime { owner: ctx.owner, lock_time: time }),
        None => None,
    };
    ctx.vault_account =
    Some(TokenAccount { key: ctx.vault_key, mint: ctx.source_token_mint, authority: derived.address });
    Ok(
        SetAuthorityCall {
            accounts,
            authority_type: AuthorityType::AccountOwner,
            new_authority: Some(derived.address),
        },
    )
}

/// Initializes the owner's vault under the program `program_id`.
pub fn initialize(ctx: &mut Initialize, program_id: &Address, lock_time: Option<u64>) -> (outcome:
    Result<SetAuthorityCall, CustomError>)
    ensures
        carried_out(
            old(ctx).initialized(vault_authority(*program_id), lock_time),
            *old(ctx),
            *final(ctx),
            outcome,
        ),
{
    let authority = derive_vault_authority(program_id);
    initialize_with_authority(ctx, authority, lock_time)
}

/// Deposits `amount` at the time `now`: adds it to the staker's balance,
/// stamps the record with the owner, and under the per-staker rule sets the
/// unlock time anew.
pub fn deposit(ctx: &mut Deposit, amount: u64, now: u64) -> (outcome: Result<
    TransferCall,
    CustomError,
>)
    ensures
        carried_out(old(ctx).deposited(amount, now), *old(ctx), *final(ctx), outcome),
{
    if ctx.source_token_account.mint != ctx.source_token_mint || ctx.token_vault_account.mint
        != ctx.source_token_mint {
        return Err(CustomError::MintMismatch);
    }
    let mut staker = ctx.token_staker;
    match staker.credit(ctx.owner, amount) {
        Ok(()) => {},
        Err(error) => {
            return Err(error);
        },
    }
    match ctx.lock_policy.unlock_time_after_deposit(ctx.token_staker.unlock_time, now) {
        Ok(unlock_time) => {
            staker.unlock_time = unlock_time;
        },
        Err(error) => {
            return Err(error);
        },
    }
    let accounts = ctx.into_token_transfer_context();
    ctx.token_staker = staker;
    Ok(TransferCall { accounts, amount, signer_bump: None })
}

/// Withdraws `amount` at the time `now`, with `authority` as the outcome of
/// deriving the vault authority: takes it off the staker's balance and has
/// it transferred on the vault authority, signed with the bump seed.
pub fn claim_with_authority(
    ctx: &mut Claim,
    authority: Result<DerivedAuthority, CustomError>,
    amount: u64,
    now: u64,
) -> (outcome: Result<TransferCall, CustomError>)
    ensures
        carried_out(old(ctx).claimed(authority, amount, now), *old(ctx), *final(ctx), outcome),
{
    if ctx.lock_policy.locked_at(ctx.token_staker.unlock_time, now) {
        return Err(CustomError::Locked);
    }
    if amount > ctx.token_staker.staked_amount {
        return Err(CustomError::ExceedAmount);
    }
    if ctx.token_staker.owner != ctx.owner {
        return Err(CustomError::Unauthorized);
    }
    if ctx.dest_token_account.mint != ctx.token_mint || ctx.dest_token_account.authority
        != ctx.owner {
        return Err(CustomError::InvalidDestination);
    }
    if ctx.token_vault_account.mint != ctx.token_mint {
        return Err(CustomError::MintMismatch);
    }
    let derived = match authority {
        Ok(derived) => derived,
        Err(error) => {
            return Err(error);
        },
    };
    if ctx.vault_authority != derived.address {
        return Err(CustomError::Unauthorized);
    }
    let mut staker = ctx.token_staker;
    match staker.debit(amount) {
        Ok(()) => {},
        Err(error) => {
            return Err(error);
        },
    }
    let accounts = ctx.into_token_transfer_context();
    ctx.token_staker = staker;
    Ok(TransferCall { accounts, amount, signer_bump: Some(derived.bump) })
}

/// Withdraws `amount` at the time `now` under the program `program_id`. The
/// vault authority is derived anew for every withdrawal.
pub fn claim(ctx: &mut Claim, program_id: &Address, amount: u64, now: u64) -> (outcome: Result<
    TransferCall,
    CustomError,
>)
    ensures
        carried_out(
            old(ctx).claimed(vault_authority(*program_id), amount, now),
            *old(ctx),
            *final(ctx),
            outcome,
        ),
{
    let authority = derive_vault_authority(program_id);
    claim_with_authority(ctx, authority, amount, now)
}

} // verus!
