//! The staker record: who deposited how much, and until when it is locked.

use vstd::prelude::*;
use crate::address::Address;
use crate::error::CustomError;

verus! {

/// The ledger entry of one depositing owner. It is made on the owner's first
/// deposit and never deleted; its balance may go back to zero.
#[derive(Clone, Copy, Debug, PartialEq, Eq)]
pub struct TokenStaker {
    pub owner: Address,
    pub staked_amount: u64,
    /// The staker's own unlock time; only the per-staker rule sets it.
    pub unlock_time: Option<u64>,
}

impl Default for TokenStaker {
    /// The empty record of the zero identity.
    fn default() -> (record: TokenStaker)
        ensures
            record.staked_amount == 0,
            record.unlock_time is None,
            forall|i: int| 0 <= i < 32 ==> record.owner.bytes[i] == 0,
    {
        TokenStaker { owner: Address::default(), staked_amount: 0, unlock_time: None }
    }
}

impl TokenStaker {
    /// The record of an owner who has not deposited yet.
    pub open spec fn fresh(owner: Address) -> TokenStaker {
        TokenStaker { owner, staked_amount: 0, unlock_time: None }
    }

    /// The record after `owner` has deposited `amount`: `Overflow` where the
    /// balance does not fit.
    pub open spec fn credited(self, owner: Address, amount: u64) -> Result<
        TokenStaker,
        CustomError,
    > {
        if self.staked_amount + amount > u64::MAX {
            Err(CustomError::Overflow)
        } else {
            Ok(
                TokenStaker {
                    owner,
                    staked_amount: (self.staked_amount + amount) as u64,
                    unlock_time: self.unlock_time,
                },
            )
        }
    }

    /// The record after `amount` has been withdrawn: `ExceedAmount` where
    /// the balance is smaller.
    pub open spec fn debited(self, amount: u64) -> Result<TokenStaker, CustomError> {
        if amount > self.staked_amount {
            Err(CustomError::ExceedAmount)
        } else {
            Ok(
                TokenStaker {
                    owner: self.owner,
                    staked_amount: (self.staked_amount - amount) as u64,
                    unlock_time: self.unlock_time,
                },
            )
        }
    }

    /// Makes the empty record of `owner`.
    pub fn new(owner: Address) -> (record: TokenStaker)
        ensures
            record == TokenStaker::fresh(owner),
    {
        TokenStaker { owner, staked_amount: 0, unlock_time: None }
    }

    /// Adds `amount` to the balance and stamps the record with `owner`. A
    /// deposit that does not fit is refused and leaves the record as it was.
    pub fn credit(&mut self, owner: Address, amount: u64) -> (outcome: Result<(), CustomError>)
        ensures
            match old(self).credited(owner, amount) {
                Ok(after) => outcome is Ok && *final(self) == after,
                Err(error) => outcome == Err::<(), CustomError>(error) && *final(self) == *old(
                    self,
                ),
            },
    {
        match self.staked_amount.checked_add(amount) {
            Some(sum) => {
                self.staked_amount = sum;
                self.owner = owner;
                Ok(())
            },
            None => Err(CustomError::Overflow),
        }
    }

    /// Takes `amount` off the balance. A withdrawal of more than the balance
    /// is refused and leaves the record as it was; one of the whole balance
    /// leaves the record at zero.
    pub fn debit(&mut self, amount: u64) -> (outcome: Result<(), CustomError>)
        ensures
            match old(self).debited(amount) {
                Ok(after) => outcome is Ok && *final(self) == after,
                Err(error) => outcome == Err::<(), CustomError>(error) && *final(self) == *old(
                    self,
                ),
            },
    {
        if amount > self.staked_amount {
            Err(CustomError::ExceedAmount)
        } else {
            self.staked_amount = self.staked_amount - amount;
            Ok(())
        }
    }
}

} // verus!
