//! The lock policy: from when on a staker may withdraw.
//!
//! A vault runs under one of two rules. Under the per-staker rule every
//! deposit locks the staker's balance until the time of the deposit plus a
//! fixed period. Under the global rule every staker is locked until the one
//! time that was fixed when the vault was initialized.

use vstd::prelude::*;
use crate::address::Address;
use crate::error::CustomError;

verus! {

/// The record of the global rule: the time until which every staker is
/// locked, written once by `initialize`.
#[derive(Clone, Copy, Debug, PartialEq, Eq)]
pub struct LockTime {
    pub owner: Address,
    pub lock_time: u64,
}

impl Default for LockTime {
    /// The record of the zero identity that locks nothing.
    fn default() -> (record: LockTime)
        ensures
            record.lock_time == 0,
            forall|i: int| 0 <= i < 32 ==> record.owner.bytes[i] == 0,
    {
        LockTime { owner: Address::default(), lock_time: 0 }
    }
}

/// The rule under which a vault runs.
#[derive(Clone, Copy, Debug, PartialEq, Eq)]
pub enum LockPolicy {
    /// Every deposit locks the staker until `lock_period` after the deposit.
    PerStaker { lock_period: u64 },
    /// Every staker is locked until the time in the vault's lock record.
    Global { lock_time_account: LockTime },
}

impl LockPolicy {
    /// The unlock time that a staker has after a deposit at `now`, given the
    /// one it had before: `Overflow` where the per-staker time does not fit.
    pub open spec fn after_deposit(self, before: Option<u64>, now: u64) -> Result<
        Option<u64>,
        CustomError,
    > {
        match self {
            LockPolicy::PerStaker { lock_period } => if now + lock_period > u64::MAX {
                Err(CustomError::Overflow)
            } else {
                Ok(Some((now + lock_period) as u64))
            },
            LockPolicy::Global { lock_time_account } => Ok(before),
        }
    }

    /// The time from which on a staker may withdraw, `staker_unlock` being
    /// the unlock time in the staker's own record.
    pub open spec fn unlock_time(self, staker_unlock: Option<u64>) -> u64 {
        match self {
            LockPolicy::PerStaker { lock_period } => match staker_unlock {
                Some(time) => time,
                None => 0,
            },
            LockPolicy::Global { lock_time_account } => lock_time_account.lock_time,
        }
    }

    /// Whether a withdrawal at `now` comes too early. The unlock time itself
    /// is not too early.
    pub open spec fn is_locked(self, staker_unlock: Option<u64>, now: u64) -> bool {
        now < self.unlock_time(staker_unlock)
    }

    /// Computes the unlock time that a deposit at `now` leaves in the
    /// staker's record.
    pub fn unlock_time_after_deposit(&self, before: Option<u64>, now: u64) -> (outcome: Result<
        Option<u64>,
        CustomError,
    >)
        ensures
            outcome == self.after_deposit(before, now),
    {
        match self {
            LockPolicy::PerStaker { lock_period } => match now.checked_add(*lock_period) {
                Some(time) => Ok(Some(time)),
                None => Err(CustomError::Overflow),
            },
            LockPolicy::Global { lock_time_account: _ } => Ok(before),
        }
    }

    /// Tells whether a withdrawal at `now` comes before the unlock time.
    pub fn locked_at(&self, staker_unlock: Option<u64>, now: u64) -> (locked: bool)
        ensures
            locked == self.is_locked(staker_unlock, now),
    {
        let unlock: u64 = match self {
            LockPolicy::PerStaker { lock_period: _ } => match staker_unlock {
                Some(time) => time,
                None => 0,
            },
            LockPolicy::Global { lock_time_account } => lock_time_account.lock_time,
        };
        now < unlock
    }
}

/// The clock's reading as the unsigned number of seconds that lock times are
/// compared with. A reading before the epoch wraps around, to a time later
/// than every reading after it.
pub fn clock_seconds(unix_timestamp: i64) -> (now: u64)
    ensures
        unix_timestamp >= 0 ==> now == unix_timestamp,
        unix_timestamp < 0 ==> now == unix_timestamp + 0x1_0000_0000_0000_0000,
{
    let now: u64 = #[verifier::truncate] (unix_timestamp as u64);
    assert(unix_timestamp >= 0 ==> now == unix_timestamp) by (bit_vector)
        requires
            now == unix_timestamp as u64,
    ;
    assert(unix_timestamp < 0 ==> now == unix_timestamp + 0x1_0000_0000_0000_0000) by (bit_vector)
        requires
            now == unix_timestamp as u64,
    ;
    now
}

} // verus!
