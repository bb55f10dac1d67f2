use timelock_vault::{
    Address, CustomError, Ledger, LockTime, Mutation, TokenAccount, TokenStaker, TransferError,
    VaultEntry,
};

fn id(byte: u8) -> Address {
    Address::new([byte; 32])
}

fn entry(owner: u8, authority: u8) -> VaultEntry {
    VaultEntry {
        owner: id(owner),
        vault_account: TokenAccount { key: id(40), mint: id(2), authority: id(authority) },
        lock_time_account: Some(LockTime { owner: id(owner), lock_time: 9 }),
    }
}

#[test]
fn new_ledger_is_empty() {
    let ledger = Ledger::new();
    assert_eq!(ledger.vault(&id(1)), None);
    assert_eq!(ledger.get_or_create_staker_record(&id(1)), TokenStaker::new(id(1)));
}

#[test]
fn create_vault_once_per_owner() {
    let mut ledger = Ledger::new();
    assert_eq!(ledger.create_vault(entry(1, 9), Ok(())), Ok(()));
    assert_eq!(ledger.vault(&id(1)), Some(entry(1, 9)));
    assert_eq!(ledger.create_vault(entry(1, 8), Ok(())), Err(CustomError::AlreadyExists));
    assert_eq!(ledger.vault(&id(1)), Some(entry(1, 9)));
    assert_eq!(ledger.create_vault(entry(2, 9), Ok(())), Ok(()));
    assert_eq!(ledger.vault(&id(2)), Some(entry(2, 9)));
    assert_eq!(ledger.vault(&id(1)), Some(entry(1, 9)));
}

#[test]
fn repeated_create_vault_does_not_reset_balances() {
    let mut ledger = Ledger::new();
    ledger.create_vault(entry(1, 9), Ok(())).unwrap();
    ledger.mutate(&id(1), Mutation::Deposit { amount: 70, unlock_time: None }, Ok(())).unwrap();
    assert_eq!(ledger.create_vault(entry(1, 9), Ok(())), Err(CustomError::AlreadyExists));
    assert_eq!(ledger.get_or_create_staker_record(&id(1)).staked_amount, 70);
}

#[test]
fn create_vault_with_failed_reassignment_is_not_kept() {
    let mut ledger = Ledger::new();
    assert_eq!(
        ledger.create_vault(entry(1, 9), Err(TransferError::Unauthorized)),
        Err(CustomError::Unauthorized)
    );
    assert_eq!(ledger.vault(&id(1)), None);
    assert_eq!(ledger.create_vault(entry(1, 9), Ok(())), Ok(()));
}

#[test]
fn mutate_keeps_one_record_per_owner() {
    let mut ledger = Ledger::new();
    ledger.mutate(&id(1), Mutation::Deposit { amount: 50, unlock_time: Some(4) }, Ok(())).unwrap();
    ledger.mutate(&id(2), Mutation::Deposit { amount: 8, unlock_time: None }, Ok(())).unwrap();
    ledger.mutate(&id(1), Mutation::Deposit { amount: 5, unlock_time: Some(6) }, Ok(())).unwrap();
    assert_eq!(
        ledger.get_or_create_staker_record(&id(1)),
        TokenStaker { owner: id(1), staked_amount: 55, unlock_time: Some(6) }
    );
    assert_eq!(
        ledger.get_or_create_staker_record(&id(2)),
        TokenStaker { owner: id(2), staked_amount: 8, unlock_time: None }
    );
    ledger.mutate(&id(1), Mutation::Withdraw { amount: 55 }, Ok(())).unwrap();
    assert_eq!(
        ledger.get_or_create_staker_record(&id(1)),
        TokenStaker { owner: id(1), staked_amount: 0, unlock_time: Some(6) }
    );
}

#[test]
fn mutate_refuses_what_would_break_the_balance() {
    let mut ledger = Ledger::new();
    ledger.mutate(&id(1), Mutation::Deposit { amount: 50, unlock_time: None }, Ok(())).unwrap();
    assert_eq!(
        ledger.mutate(&id(1), Mutation::Withdraw { amount: 60 }, Ok(())),
        Err(CustomError::ExceedAmount)
    );
    assert_eq!(
        ledger.mutate(&id(1), Mutation::Deposit { amount: u64::MAX, unlock_time: None }, Ok(())),
        Err(CustomError::Overflow)
    );
    assert_eq!(
        ledger.mutate(&id(3), Mutation::Withdraw { amount: 1 }, Ok(())),
        Err(CustomError::ExceedAmount)
    );
    assert_eq!(ledger.get_or_create_staker_record(&id(1)).staked_amount, 50);
    assert_eq!(ledger.get_or_create_staker_record(&id(3)), TokenStaker::new(id(3)));
}

#[test]
fn mutate_with_failed_transfer_passes_the_failure_on() {
    let mut ledger = Ledger::new();
    ledger.mutate(&id(1), Mutation::Deposit { amount: 50, unlock_time: None }, Ok(())).unwrap();
    assert_eq!(
        ledger.mutate(
            &id(1),
            Mutation::Deposit { amount: 1, unlock_time: Some(3) },
            Err(TransferError::InsufficientFunds)
        ),
        Err(CustomError::InsufficientFunds)
    );
    assert_eq!(
        ledger.mutate(&id(1), Mutation::Withdraw { amount: 1 }, Err(TransferError::MintMismatch)),
        Err(CustomError::MintMismatch)
    );
    assert_eq!(
        ledger.mutate(&id(1), Mutation::Withdraw { amount: 99 }, Err(TransferError::Unauthorized)),
        Err(CustomError::Unauthorized)
    );
    assert_eq!(
        ledger.get_or_create_staker_record(&id(1)),
        TokenStaker { owner: id(1), staked_amount: 50, unlock_time: None }
    );
}

#[test]
fn transfer_failures_keep_their_names() {
    assert_eq!(CustomError::from_transfer(TransferError::MintMismatch), CustomError::MintMismatch);
    assert_eq!(
        CustomError::from_transfer(TransferError::InsufficientFunds),
        CustomError::InsufficientFunds
    );
    assert_eq!(CustomError::from_transfer(TransferError::Unauthorized), CustomError::Unauthorized);
}
