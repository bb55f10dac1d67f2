//! What holds of the vault over every input and every course of events.

use vstd::prelude::*;
use crate::accounts::{Claim, Deposit, Initialize, TokenAccount};
use crate::address::Address;
use crate::authority::DerivedAuthority;
use crate::error::{fails_with, CustomError, TransferError};
use crate::ledger::{mutated, record_of, vault_created, Mutation, VaultEntry};
use crate::lock::LockPolicy;
use crate::staker::TokenStaker;

verus! {

/// One operation on a staker's record together with the answer of the
/// transfer service to its call. The record in `accounts` does not count:
/// the operation works on the record as the events before it have left it.
#[allow(inconsistent_fields)]
pub enum Event {
    Deposit { accounts: Deposit, amount: u64, now: u64, transfer: Result<(), TransferError> },
    Withdraw {
        accounts: Claim,
        authority: Result<DerivedAuthority, CustomError>,
        amount: u64,
        now: u64,
        transfer: Result<(), TransferError>,
    },
}

impl Deposit {
    /// These accounts with `record` as the staker's record.
    pub open spec fn with_record(self, record: TokenStaker) -> Deposit {
        Deposit {
            owner: self.owner,
            token_staker: record,
            source_token_account: self.source_token_account,
            source_token_mint: self.source_token_mint,
            token_vault_account: self.token_vault_account,
            lock_policy: self.lock_policy,
        }
    }
}

impl Claim {
    /// These accounts with `record` as the staker's record.
    pub open spec fn with_record(self, record: TokenStaker) -> Claim {
        Claim {
            owner: self.owner,
            token_staker: record,
            dest_token_account: self.dest_token_account,
            token_mint: self.token_mint,
            token_vault_account: self.token_vault_account,
            vault_authority: self.vault_authority,
            lock_policy: self.lock_policy,
        }
    }

    /// Whether nothing but the lock and the balance can stand against a
    /// withdrawal signed by `derived`.
    pub open spec fn in_order(self, derived: DerivedAuthority) -> bool {
        &&& self.token_staker.owner == self.owner
        &&& self.destination_valid()
        &&& self.token_vault_account.mint == self.token_mint
        &&& self.vault_authority == derived.address
    }
}

impl Event {
    /// Whether the operation passes on `record` and its transfer succeeds.
    pub open spec fn succeeds(self, record: TokenStaker) -> bool {
        match self {
            Event::Deposit { accounts, amount, now, transfer } => transfer is Ok
                && accounts.with_record(record).deposited(amount, now) is Ok,
            Event::Withdraw { accounts, authority, amount, now, transfer } => transfer is Ok
                && accounts.with_record(record).claimed(authority, amount, now) is Ok,
        }
    }

    /// The record after the event: changed where the event succeeds, else
    /// as it was.
    pub open spec fn apply(self, record: TokenStaker) -> TokenStaker {
        if !self.succeeds(record) {
            record
        } else {
            match self {
                Event::Deposit { accounts, amount, now, transfer } => accounts.with_record(
                    record,
                ).deposited(amount, now).unwrap().0.token_staker,
                Event::Withdraw {
                    accounts,
                    authority,
                    amount,
                    now,
                    transfer,
                } => accounts.with_record(record).claimed(
                    authority,
                    amount,
                    now,
                ).unwrap().0.token_staker,
            }
        }
    }

    /// What the event adds to the balance: the amount of a deposit that
    /// succeeds, minus the amount of a withdrawal that succeeds, else
    /// nothing.
    pub open spec fn net_amount(self, record: TokenStaker) -> int {
        if !self.succeeds(record) {
            0
        } else {
            match self {
                Event::Deposit { accounts, amount, now, transfer } => amount as int,
                Event::Withdraw { accounts, authority, amount, now, transfer } => -(amount as int),
            }
        }
    }
}

/// The record after the events in their order.
pub open spec fn record_after(record: TokenStaker, events: Seq<Event>) -> TokenStaker
    decreases events.len(),
{
    if events.len() == 0 {
        record
    } else {
        events.last().apply(record_after(record, events.drop_last()))
    }
}

/// The sum of the deposits that succeed in the course of the events, minus
/// the sum of the withdrawals that succeed.
pub open spec fn net_amount(record: TokenStaker, events: Seq<Event>) -> int
    decreases events.len(),
{
    if events.len() == 0 {
        0
    } else {
        net_amount(record, events.drop_last()) + events.last().net_amount(
            record_after(record, events.drop_last()),
        )
    }
}

/// After any course of deposits and withdrawals the balance is what it was,
/// plus the deposits that succeeded, minus the withdrawals that succeeded;
/// and that is never negative.
pub proof fn law_balance_is_net_of_events(record: TokenStaker, events: Seq<Event>)
    ensures
        record_after(record, events).staked_amount == record.staked_amount + net_amount(
            record,
            events,
        ),
        record.staked_amount + net_amount(record, events) >= 0,
    decreases events.len(),
{
    if events.len() > 0 {
        law_balance_is_net_of_events(record, events.drop_last());
    }
}

/// A withdrawal of more than the balance, at or after the unlock time,
/// fails with `ExceedAmount` and leaves the record as it was.
pub proof fn law_exceeding_withdrawal_fails(
    accounts: Claim,
    authority: Result<DerivedAuthority, CustomError>,
    amount: u64,
    now: u64,
    transfer: Result<(), TransferError>,
)
    requires
        amount > accounts.token_staker.staked_amount,
        !accounts.lock_policy.is_locked(accounts.token_staker.unlock_time, now),
    ensures
        fails_with(accounts.claimed(authority, amount, now), CustomError::ExceedAmount),
        (Event::Withdraw { accounts, authority, amount, now, transfer }).apply(
            accounts.token_staker,
        ) == accounts.token_staker,
{
    assert(accounts.with_record(accounts.token_staker) == accounts);
}

/// A withdrawal before the unlock time fails with `Locked`, whatever the
/// amount and whatever else the accounts hold, and leaves the record as it
/// was.
pub proof fn law_early_withdrawal_is_locked(
    accounts: Claim,
    authority: Result<DerivedAuthority, CustomError>,
    amount: u64,
    now: u64,
    transfer: Result<(), TransferError>,
)
    requires
        accounts.lock_policy.is_locked(accounts.token_staker.unlock_time, now),
    ensures
        fails_with(accounts.claimed(authority, amount, now), CustomError::Locked),
        (Event::Withdraw { accounts, authority, amount, now, transfer }).apply(
            accounts.token_staker,
        ) == accounts.token_staker,
{
    assert(accounts.with_record(accounts.token_staker) == accounts);
}

/// A deposit followed by the withdrawal of the same amount: before the lock
/// has elapsed the withdrawal fails with `Locked`; from the unlock time on,
/// with accounts in order, it succeeds and takes the balance back to what it
/// was before the deposit. Under the per-staker rule the unlock time is the
/// time of the deposit plus the lock period.
pub proof fn law_deposit_then_withdrawal(
    deposit: Deposit,
    amount: u64,
    now: u64,
    withdrawal: Claim,
    derived: DerivedAuthority,
    later: u64,
)
    requires
        deposit.deposited(amount, now) is Ok,
        withdrawal.token_staker == deposit.deposited(amount, now).unwrap().0.token_staker,
        withdrawal.lock_policy == deposit.lock_policy,
    ensures
        deposit.lock_policy matches LockPolicy::PerStaker { lock_period } ==> (
        withdrawal.lock_policy.is_locked(withdrawal.token_staker.unlock_time, later) <==> later
            < now + lock_period),
        deposit.lock_policy matches LockPolicy::Global { lock_time_account } ==> (
        withdrawal.lock_policy.is_locked(withdrawal.token_staker.unlock_time, later) <==> later
            < lock_time_account.lock_time),
        withdrawal.lock_policy.is_locked(withdrawal.token_staker.unlock_time, later)
            ==> fails_with(withdrawal.claimed(Ok(derived), amount, later), CustomError::Locked),
        !withdrawal.lock_policy.is_locked(withdrawal.token_staker.unlock_time, later)
            && withdrawal.in_order(derived) ==> {
            &&& withdrawal.claimed(Ok(derived), amount, later) is Ok
            &&& withdrawal.claimed(Ok(derived), amount, later).unwrap().0.token_staker.staked_amount
                == deposit.token_staker.staked_amount
            &&& withdrawal.claimed(Ok(derived), amount, later).unwrap().1.amount == amount
        },
{
}

/// Once `initialize` has succeeded, every further `initialize` on the same
/// accounts fails with `AlreadyExists`, whatever it is given. By the
/// contract of `initialize` it then changes nothing, and it never holds a
/// staker's record to begin with.
pub proof fn law_repeated_initialize_fails(
    accounts: Initialize,
    authority: Result<DerivedAuthority, CustomError>,
    lock_time: Option<u64>,
    again_authority: Result<DerivedAuthority, CustomError>,
    again_lock_time: Option<u64>,
)
    requires
        accounts.initialized(authority, lock_time) is Ok,
    ensures
        fails_with(
            accounts.initialized(authority, lock_time).unwrap().0.initialized(
                again_authority,
                again_lock_time,
            ),
            CustomError::AlreadyExists,
        ),
{
}

/// The store refuses a second vault of an owner with `AlreadyExists`,
/// whether the first was there from the start or has just been created, and
/// whatever the transfer service answered the second time.
pub proof fn law_second_vault_is_refused(
    vaults: Map<Address, VaultEntry>,
    entry: VaultEntry,
    again_entry: VaultEntry,
    set_authority: Result<(), TransferError>,
)
    requires
        again_entry.owner == entry.owner,
    ensures
        vaults.dom().contains(entry.owner) ==> fails_with(
            vault_created(vaults, again_entry, set_authority),
            CustomError::AlreadyExists,
        ),
        !vaults.dom().contains(entry.owner) ==> vault_created(vaults, entry, Ok(())) is Ok
            && fails_with(
            vault_created(
                vault_created(vaults, entry, Ok(())).unwrap(),
                again_entry,
                set_authority,
            ),
            CustomError::AlreadyExists,
        ),
{
}

/// After `initialize` the vault's authority is the derived address, and the
/// transfer service is asked to make it so; it is not the owner, unless the
/// owner's identity is the derived address itself.
pub proof fn law_vault_belongs_to_derived_authority(
    accounts: Initialize,
    derived: DerivedAuthority,
    lock_time: Option<u64>,
)
    requires
        !accounts.already_exists(),
    ensures
        accounts.initialized(Ok(derived), lock_time) is Ok,
        accounts.initialized(Ok(derived), lock_time).unwrap().0.vault_account == Some(
            TokenAccount {
                key: accounts.vault_key,
                mint: accounts.source_token_mint,
                authority: derived.address,
            },
        ),
        accounts.initialized(Ok(derived), lock_time).unwrap().1.new_authority == Some(
            derived.address,
        ),
        accounts.initialized(Ok(derived), lock_time).unwrap().1.accounts.account_or_mint
            == accounts.vault_key,
        accounts.owner != derived.address ==> accounts.initialized(
            Ok(derived),
            lock_time,
        ).unwrap().0.vault_account.unwrap().authority != accounts.owner,
{
}

/// No deposit and no withdrawal changes a token account: the vault stays
/// with the authority that `initialize` gave it.
pub proof fn law_operations_keep_the_vault(
    deposit: Deposit,
    withdrawal: Claim,
    authority: Result<DerivedAuthority, CustomError>,
    amount: u64,
    now: u64,
)
    ensures
        deposit.deposited(amount, now) is Ok ==> deposit.deposited(
            amount,
            now,
        ).unwrap().0.token_vault_account == deposit.token_vault_account,
        withdrawal.claimed(authority, amount, now) is Ok ==> withdrawal.claimed(
            authority,
            amount,
            now,
        ).unwrap().0.token_vault_account == withdrawal.token_vault_account,
        withdrawal.claimed(authority, amount, now) is Ok ==> authority is Ok
            && withdrawal.claimed(authority, amount, now).unwrap().1.accounts.authority
            == authority.unwrap().address,
{
}

/// A deposit or a withdrawal that has passed on the record that the store
/// holds, and whose transfer succeeds, enters the store as the record that
/// the operation left in its accounts.
pub proof fn law_store_follows_engine(
    stakers: Map<Address, TokenStaker>,
    deposit: Deposit,
    withdrawal: Claim,
    authority: Result<DerivedAuthority, CustomError>,
    amount: u64,
    now: u64,
)
    ensures
        deposit.token_staker == record_of(stakers, deposit.owner) && deposit.deposited(
            amount,
            now,
        ) is Ok ==> mutated(
            stakers,
            deposit.owner,
            Mutation::Deposit {
                amount,
                unlock_time: deposit.deposited(amount, now).unwrap().0.token_staker.unlock_time,
            },
            Ok(()),
        ) == Ok::<_, CustomError>(
            stakers.insert(deposit.owner, deposit.deposited(amount, now).unwrap().0.token_staker),
        ),
        withdrawal.token_staker == record_of(stakers, withdrawal.owner) && withdrawal.claimed(
            authority,
            amount,
            now,
        ) is Ok ==> mutated(stakers, withdrawal.owner, Mutation::Withdraw { amount }, Ok(()))
            == Ok::<_, CustomError>(
            stakers.insert(
                withdrawal.owner,
                withdrawal.claimed(authority, amount, now).unwrap().0.token_staker,
            ),
        ),
{
}

/// A mutation of one owner's record leaves every other owner's record as it
/// was, and a mutation that fails leaves all of them.
pub proof fn law_mutation_touches_one_record(
    stakers: Map<Address, TokenStaker>,
    owner: Address,
    mutation: Mutation,
    transfer: Result<(), TransferError>,
    other: Address,
)
    requires
        other != owner,
    ensures
        mutated(stakers, owner, mutation, transfer) is Ok ==> {
            let after = mutated(stakers, owner, mutation, transfer).unwrap();
            &&& after.dom().contains(owner)
            &&& after.dom().contains(other) == stakers.dom().contains(other)
            &&& record_of(after, other) == record_of(stakers, other)
        },
        transfer is Err ==> mutated(stakers, owner, mutation, transfer) is Err,
{
}

} // verus!
