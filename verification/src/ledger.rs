//! The vault ledger store: the vault of each initializing owner and the
//! record of each staker, keyed by the owner's identity.
//!
//! A change enters the store only together with the answer of the asset
//! transfer service to the call that belongs to it: where that call failed,
//! the store stays as it was and the failure is passed on.

use vstd::prelude::*;
use crate::accounts::TokenAccount;
use crate::address::Address;
use crate::error::{CustomError, TransferError};
use crate::lock::LockTime;
use crate::staker::TokenStaker;

verus! {

/// What the store keeps of an initialized vault.
#[derive(Clone, Copy, Debug, PartialEq, Eq)]
pub struct VaultEntry {
    pub owner: Address,
    pub vault_account: TokenAccount,
    pub lock_time_account: Option<LockTime>,
}

/// A change of a staker's balance.
#[derive(Clone, Copy, Debug, PartialEq, Eq)]
pub enum Mutation {
    /// Adds `amount` and leaves `unlock_time` in the record.
    Deposit { amount: u64, unlock_time: Option<u64> },
    /// Takes `amount` off.
    Withdraw { amount: u64 },
}

/// The record that `stakers` holds of `owner`, or the empty one.
pub open spec fn record_of(stakers: Map<Address, TokenStaker>, owner: Address) -> TokenStaker {
    if stakers.dom().contains(owner) {
        stakers[owner]
    } else {
        TokenStaker::fresh(owner)
    }
}

/// The record of `owner` after `mutation`: `Overflow` where a deposit does
/// not fit, `ExceedAmount` where a withdrawal is more than the balance.
pub open spec fn mutated_record(record: TokenStaker, owner: Address, mutation: Mutation) -> Result<
    TokenStaker,
    CustomError,
> {
    match mutation {
        Mutation::Deposit { amount, unlock_time } => match record.credited(owner, amount) {
            Ok(credited) => Ok(
                TokenStaker {
                    owner: credited.owner,
                    staked_amount: credited.staked_amount,
                    unlock_time,
                },
            ),
            Err(error) => Err(error),
        },
        Mutation::Withdraw { amount } => record.debited(amount),
    }
}

/// The staker records after `mutation` of the record of `owner`, paired with
/// a transfer that ended in `transfer`.
pub open spec fn mutated(
    stakers: Map<Address, TokenStaker>,
    owner: Address,
    mutation: Mutation,
    transfer: Result<(), TransferError>,
) -> Result<Map<Address, TokenStaker>, CustomError> {
    match transfer {
        Err(error) => Err(CustomError::of_transfer(error)),
        Ok(_) => match mutated_record(record_of(stakers, owner), owner, mutation) {
            Ok(record) => Ok(stakers.insert(owner, record)),
            Err(error) => Err(error),
        },
    }
}

/// The vaults after the creation of `entry`, paired with a reassignment of
/// authority that ended in `set_authority`.
pub open spec fn vault_created(
    vaults: Map<Address, VaultEntry>,
    entry: VaultEntry,
    set_authority: Result<(), TransferError>,
) -> Result<Map<Address, VaultEntry>, CustomError> {
    if vaults.dom().contains(entry.owner) {
        Err(CustomError::AlreadyExists)
    } else {
        match set_authority {
            Err(error) => Err(CustomError::of_transfer(error)),
            Ok(_) => Ok(vaults.insert(entry.owner, entry)),
        }
    }
}

spec fn holds_staker(records: Seq<TokenStaker>, owner: Address) -> bool {
    exists|i: int| 0 <= i < records.len() && #[trigger] records[i].owner == owner
}

spec fn staker_at(records: Seq<TokenStaker>, owner: Address) -> int {
    choose|i: int| 0 <= i < records.len() && #[trigger] records[i].owner == owner
}

spec fn holds_vault(entries: Seq<VaultEntry>, owner: Address) -> bool {
    exists|i: int| 0 <= i < entries.len() && #[trigger] entries[i].owner == owner
}

spec fn vault_at(entries: Seq<VaultEntry>, owner: Address) -> int {
    choose|i: int| 0 <= i < entries.len() && #[trigger] entries[i].owner == owner
}

spec fn staker_map(records: Seq<TokenStaker>) -> Map<Address, TokenStaker> {
    Map::new(
        |owner: Address| holds_staker(records, owner),
        |owner: Address| records[staker_at(records, owner)],
    )
}

spec fn vault_map(entries: Seq<VaultEntry>) -> Map<Address, VaultEntry> {
    Map::new(
        |owner: Address| holds_vault(entries, owner),
        |owner: Address| entries[vault_at(entries, owner)],
    )
}

/// The store. No owner has two vaults or two staker records.
pub struct Ledger {
    vault_entries: Vec<VaultEntry>,
    staker_records: Vec<TokenStaker>,
}

impl Ledger {
    #[verifier::type_invariant]
    spec fn well_formed(self) -> bool {
        &&& forall|i: int, j: int|
            0 <= i < j < self.vault_entries@.len() ==> #[trigger] self.vault_entries@[i].owner
                != #[trigger] self.vault_entries@[j].owner
        &&& forall|i: int, j: int|
            0 <= i < j < self.staker_records@.len() ==> #[trigger] self.staker_records@[i].owner
                != #[trigger] self.staker_records@[j].owner
    }

    /// The vaults in the store, by owner.
    pub closed spec fn vaults(self) -> Map<Address, VaultEntry> {
        vault_map(self.vault_entries@)
    }

    /// The staker records in the store, by owner. Each is stamped with the
    /// owner that it is kept under.
    pub closed spec fn stakers(self) -> Map<Address, TokenStaker> {
        staker_map(self.staker_records@)
    }

    /// The empty store.
    pub fn new() -> (ledger: Ledger)
        ensures
            ledger.vaults() == Map::<Address, VaultEntry>::empty(),
            ledger.stakers() == Map::<Address, TokenStaker>::empty(),
    {
        let ledger = Ledger { vault_entries: Vec::new(), staker_records: Vec::new() };
        assert(ledger.vaults() =~= Map::<Address, VaultEntry>::empty());
        assert(ledger.stakers() =~= Map::<Address, TokenStaker>::empty());
        ledger
    }

    fn find_vault(&self, owner: &Address) -> (found: Option<usize>)
        ensures
            match found {
                Some(i) => i < self.vault_entries@.len() && self.vault_entries@[i as int].owner
                    == *owner,
                None => !holds_vault(self.vault_entries@, *owner),
            },
    {
        let mut i: usize = 0;
        while i < self.vault_entries.len()
            invariant
                i <= self.vault_entries@.len(),
                forall|j: int| 0 <= j < i ==> self.vault_entries@[j].owner != *owner,
            decreases self.vault_entries@.len() - i,
        {
            if self.vault_entries[i].owner == *owner {
                return Some(i);
            }
            i += 1;
        }
        None
    }

    fn find_staker(&self, owner: &Address) -> (found: Option<usize>)
        ensures
            match found {
                Some(i) => i < self.staker_records@.len() && self.staker_records@[i as int].owner
                    == *owner,
                None => !holds_staker(self.staker_records@, *owner),
            },
    {
        let mut i: usize = 0;
        while i < self.staker_records.len()
            invariant
                i <= self.staker_records@.len(),
                forall|j: int| 0 <= j < i ==> self.staker_records@[j].owner != *owner,
            decreases self.staker_records@.len() - i,
        {
            if self.staker_records[i].owner == *owner {
                return Some(i);
            }
            i += 1;
        }
        None
    }

    /// The vault of `owner`, if it has been initialized.
    pub fn vault(&self, owner: &Address) -> (entry: Option<VaultEntry>)
        ensures
            entry == if self.vaults().dom().contains(*owner) {
                Some(self.vaults()[*owner])
            } else {
                None
            },
            entry matches Some(found) ==> found.owner == *owner,
    {
        proof {
            use_type_invariant(self);
        }
        match self.find_vault(owner) {
            Some(i) => {
                assert(holds_vault(self.vault_entries@, *owner));
                assert(vault_at(self.vault_entries@, *owner) == i);
                Some(self.vault_entries[i])
            },
            None => None,
        }
    }

    /// The record of `owner`, or the empty record where the owner has not
    /// deposited yet. The store itself takes a record up with the owner's
    /// first deposit.
    pub fn get_or_create_staker_record(&self, owner: &Address) -> (record: TokenStaker)
        ensures
            record == record_of(self.stakers(), *owner),
            record.owner == *owner,
    {
        proof {
            use_type_invariant(self);
        }
        match self.find_staker(owner) {
            Some(i) => {
                assert(holds_staker(self.staker_records@, *owner));
                assert(staker_at(self.staker_records@, *owner) == i);
                self.staker_records[i]
            },
            None => TokenStaker::new(*owner),
        }
    }

    /// Takes up the vault `entry`, created by an `initialize` whose
    /// reassignment of authority ended in `set_authority`. A second vault of
    /// the same owner is refused with `AlreadyExists`.
    pub fn create_vault(
        &mut self,
        entry: VaultEntry,
        set_authority: Result<(), TransferError>,
    ) -> (outcome: Result<(), CustomError>)
        ensures
            final(self).stakers() == old(self).stakers(),
            match vault_created(old(self).vaults(), entry, set_authority) {
                Ok(vaults) => outcome is Ok && final(self).vaults() == vaults,
                Err(error) => outcome == Err::<(), CustomError>(error) && final(self).vaults()
                    == old(self).vaults(),
            },
    {
        proof {
            use_type_invariant(&*self);
        }
        if self.find_vault(&entry.owner).is_some() {
            assert(holds_vault(self.vault_entries@, entry.owner));
            return Err(CustomError::AlreadyExists);
        }
        match set_authority {
            Err(error) => Err(CustomError::from_transfer(error)),
            Ok(()) => {
                let ghost before = self.vault_entries@;
                let mut entries: Vec<VaultEntry> = Vec::new();
                std::mem::swap(&mut entries, &mut self.vault_entries);
                entries.push(entry);
                self.vault_entries = entries;
                proof {
                    lemma_vault_pushed(before, entry);
                }
                Ok(())
            },
        }
    }

    /// Applies `mutation` to the record of `owner`, paired with a transfer
    /// that ended in `transfer`. Either the whole change enters the store,
    /// or none of it: a failed transfer is passed on, a deposit that does
    /// not fit is refused with `Overflow` and a withdrawal of more than the
    /// balance with `ExceedAmount`.
    pub fn mutate(
        &mut self,
        owner: &Address,
        mutation: Mutation,
        transfer: Result<(), TransferError>,
    ) -> (outcome: Result<(), CustomError>)
        ensures
            final(self).vaults() == old(self).vaults(),
            match mutated(old(self).stakers(), *owner, mutation, transfer) {
                Ok(stakers) => outcome is Ok && final(self).stakers() == stakers,
                Err(error) => outcome == Err::<(), CustomError>(error) && final(self).stakers()
                    == old(self).stakers(),
            },
    {
        proof {
            use_type_invariant(&*self);
        }
        match transfer {
            Err(error) => {
                return Err(CustomError::from_transfer(error));
            },
            Ok(()) => {},
        }
        let found = self.find_staker(owner);
        let mut record = match found {
            Some(i) => {
                assert(holds_staker(self.staker_records@, *owner));
                assert(staker_at(self.staker_records@, *owner) == i);
                self.staker_records[i]
            },
            None => TokenStaker::new(*owner),
        };
        assert(record == record_of(self.stakers(), *owner));
        match mutation {
            Mutation::Deposit { amount, unlock_time } => {
                match record.credit(*owner, amount) {
                    Ok(()) => {
                        record.unlock_time = unlock_time;
                    },
                    Err(error) => {
                        return Err(error);
                    },
                }
            },
            Mutation::Withdraw { amount } => {
                match record.debit(amount) {
                    Ok(()) => {},
                    Err(error) => {
                        return Err(error);
                    },
                }
            },
        }
        assert(record.owner == *owner);
        let ghost before = self.staker_records@;
        let mut records: Vec<TokenStaker> = Vec::new();
        std::mem::swap(&mut records, &mut self.staker_records);
        match found {
            Some(i) => {
                records.set(i, record);
                proof {
                    lemma_staker_replaced(before, i as int, record);
                }
            },
            None => {
                records.push(record);
                proof {
                    lemma_staker_pushed(before, record);
                }
            },
        }
        self.staker_records = records;
        Ok(())
    }
}

proof fn lemma_vault_pushed(before: Seq<VaultEntry>, entry: VaultEntry)
    requires
        forall|i: int, j: int|
            0 <= i < j < before.len() ==> #[trigger] before[i].owner != #[trigger] before[j].owner,
        !holds_vault(before, entry.owner),
    ensures
        forall|i: int, j: int|
            0 <= i < j < before.push(entry).len() ==> #[trigger] before.push(entry)[i].owner
                != #[trigger] before.push(entry)[j].owner,
        vault_map(before.push(entry)) == vault_map(before).insert(entry.owner, entry),
{
    let after = before.push(entry);
    assert forall|i: int, j: int| 0 <= i < j < after.len() implies #[trigger] after[i].owner
        != #[trigger] after[j].owner by {
        if j == before.len() {
            assert(before[i].owner != entry.owner);
        }
    }
    assert forall|owner: Address| #[trigger]
        holds_vault(after, owner) <==> holds_vault(before, owner) || owner == entry.owner by {
        if holds_vault(before, owner) {
            let i = vault_at(before, owner);
            assert(after[i].owner == owner);
        }
        if owner == entry.owner {
            assert(after[before.len() as int].owner == owner);
        }
        if holds_vault(after, owner) {
            let i = vault_at(after, owner);
            if i < before.len() {
                assert(before[i].owner == owner);
            }
        }
    }
    assert forall|owner: Address| #[trigger] holds_vault(after, owner) implies after[vault_at(
        after,
        owner,
    )] == vault_map(before).insert(entry.owner, entry)[owner] by {
        let i = vault_at(after, owner);
        if owner != entry.owner {
            assert(before[i].owner == owner);
            let k = vault_at(before, owner);
            assert(after[k].owner == owner);
        }
    }
    assert(vault_map(after) =~= vault_map(before).insert(entry.owner, entry));
}

proof fn lemma_staker_pushed(before: Seq<TokenStaker>, record: TokenStaker)
    requires
        forall|i: int, j: int|
            0 <= i < j < before.len() ==> #[trigger] before[i].owner != #[trigger] before[j].owner,
        !holds_staker(before, record.owner),
    ensures
        forall|i: int, j: int|
            0 <= i < j < before.push(record).len() ==> #[trigger] before.push(record)[i].owner
                != #[trigger] before.push(record)[j].owner,
        staker_map(before.push(record)) == staker_map(before).insert(record.owner, record),
{
    let after = before.push(record);
    assert forall|i: int, j: int| 0 <= i < j < after.len() implies #[trigger] after[i].owner
        != #[trigger] after[j].owner by {
        if j == before.len() {
            assert(before[i].owner != record.owner);
        }
    }
    assert forall|owner: Address| #[trigger]
        holds_staker(after, owner) <==> holds_staker(before, owner) || owner == record.owner by {
        if holds_staker(before, owner) {
            let i = staker_at(before, owner);
            assert(after[i].owner == owner);
        }
        if owner == record.owner {
            assert(after[before.len() as int].owner == owner);
        }
        if holds_staker(after, owner) {
            let i = staker_at(after, owner);
            if i < before.len() {
                assert(before[i].owner == owner);
            }
        }
    }
    assert forall|owner: Address| #[trigger] holds_staker(after, owner) implies after[staker_at(
        after,
        owner,
    )] == staker_map(before).insert(record.owner, record)[owner] by {
        let i = staker_at(after, owner);
        if owner != record.owner {
            assert(before[i].owner == owner);
            let k = staker_at(before, owner);
            assert(after[k].owner == owner);
        }
    }
    assert(staker_map(after) =~= staker_map(before).insert(record.owner, record));
}

proof fn lemma_staker_replaced(before: Seq<TokenStaker>, at: int, record: TokenStaker)
    requires
        forall|i: int, j: int|
            0 <= i < j < before.len() ==> #[trigger] before[i].owner != #[trigger] before[j].owner,
        0 <= at < before.len(),
        before[at].owner == record.owner,
    ensures
        forall|i: int, j: int|
            0 <= i < j < before.len() ==> #[trigger] before.update(at, record)[i].owner
                != #[trigger] before.update(at, record)[j].owner,
        staker_map(before.update(at, record)) == staker_map(before).insert(record.owner, record),
{
    let after = before.update(at, record);
    assert forall|i: int| 0 <= i < before.len() implies #[trigger] after[i].owner
        == before[i].owner by {}
    assert forall|i: int, j: int| 0 <= i < j < after.len() implies #[trigger] after[i].owner
        != #[trigger] after[j].owner by {
        assert(before[i].owner != before[j].owner);
    }
    assert forall|owner: Address| #[trigger]
        holds_staker(after, owner) <==> holds_staker(before, owner) by {
        if holds_staker(before, owner) {
            let i = staker_at(before, owner);
            assert(after[i].owner == owner);
        }
        if holds_staker(after, owner) {
            let i = staker_at(after, owner);
            assert(before[i].owner == owner);
        }
    }
    assert(holds_staker(before, record.owner)) by {
        assert(before[at].owner == record.owner);
    }
    assert forall|owner: Address| #[trigger] holds_staker(after, owner) implies after[staker_at(
        after,
        owner,
    )] == staker_map(before).insert(record.owner, record)[owner] by {
        let i = staker_at(after, owner);
        if owner != record.owner {
            assert(before[i].owner == owner);
            let k = staker_at(before, owner);
            assert(after[k].owner == owner);
        } else {
            assert(after[at].owner == owner);
        }
    }
    assert(staker_map(after) =~= staker_map(before).insert(record.owner, record));
}

} // verus!
