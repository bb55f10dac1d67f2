use timelock_vault::{
    claim, deposit, derive_vault_authority, initialize, Address, Claim, CustomError, Deposit,
    Initialize, Ledger, LockPolicy, Mutation, TokenAccount, TransferError, VaultEntry,
};

fn id(byte: u8) -> Address {
    Address::new([byte; 32])
}

fn initialize_vault(ledger: &mut Ledger, program: &Address, owner: Address, lock_time: u64)
    -> Result<(), CustomError>
{
    let stored = ledger.vault(&owner);
    let mut ctx = Initialize {
        owner,
        lock_time_account: stored.and_then(|entry| entry.lock_time_account),
        vault_key: id(40),
        vault_account: stored.map(|entry| entry.vault_account),
        source_token_mint: id(2),
    };
    initialize(&mut ctx, program, Some(lock_time))?;
    ledger.create_vault(
        VaultEntry {
            owner,
            vault_account: ctx.vault_account.unwrap(),
            lock_time_account: ctx.lock_time_account,
        },
        Ok(()),
    )
}

fn deposit_into(
    ledger: &mut Ledger,
    vault: &VaultEntry,
    owner: Address,
    amount: u64,
    now: u64,
    transfer: Result<(), TransferError>,
) -> Result<(), CustomError> {
    let mut ctx = Deposit {
        owner,
        token_staker: ledger.get_or_create_staker_record(&owner),
        source_token_account: TokenAccount { key: id(30), mint: id(2), authority: owner },
        source_token_mint: id(2),
        token_vault_account: vault.vault_account,
        lock_policy: LockPolicy::Global { lock_time_account: vault.lock_time_account.unwrap() },
    };
    let call = deposit(&mut ctx, amount, now)?;
    ledger.mutate(
        &owner,
        Mutation::Deposit { amount: call.amount, unlock_time: ctx.token_staker.unlock_time },
        transfer,
    )?;
    assert_eq!(ledger.get_or_create_staker_record(&owner), ctx.token_staker);
    Ok(())
}

fn claim_from(
    ledger: &mut Ledger,
    program: &Address,
    vault: &VaultEntry,
    owner: Address,
    amount: u64,
    now: u64,
    transfer: Result<(), TransferError>,
) -> Result<(), CustomError> {
    let mut ctx = Claim {
        owner,
        token_staker: ledger.get_or_create_staker_record(&owner),
        dest_token_account: TokenAccount { key: id(31), mint: id(2), authority: owner },
        token_mint: id(2),
        token_vault_account: vault.vault_account,
        vault_authority: vault.vault_account.authority,
        lock_policy: LockPolicy::Global { lock_time_account: vault.lock_time_account.unwrap() },
    };
    let call = claim(&mut ctx, program, amount, now)?;
    ledger.mutate(&owner, Mutation::Withdraw { amount: call.amount }, transfer)?;
    assert_eq!(ledger.get_or_create_staker_record(&owner), ctx.token_staker);
    Ok(())
}

#[test]
fn a_vault_over_its_life() {
    let program = id(77);
    let authority = derive_vault_authority(&program).unwrap();
    let mut ledger = Ledger::new();

    assert_eq!(initialize_vault(&mut ledger, &program, id(1), 1_000), Ok(()));
    let vault = ledger.vault(&id(1)).unwrap();
    assert_eq!(vault.vault_account.authority, authority.address);
    assert_ne!(vault.vault_account.authority, id(1));

    assert_eq!(deposit_into(&mut ledger, &vault, id(5), 100, 10, Ok(())), Ok(()));
    assert_eq!(deposit_into(&mut ledger, &vault, id(6), 30, 20, Ok(())), Ok(()));
    assert_eq!(
        deposit_into(&mut ledger, &vault, id(5), 11, 30, Err(TransferError::InsufficientFunds)),
        Err(CustomError::InsufficientFunds)
    );
    assert_eq!(ledger.get_or_create_staker_record(&id(5)).staked_amount, 100);

    assert_eq!(
        initialize_vault(&mut ledger, &program, id(1), 0),
        Err(CustomError::AlreadyExists)
    );
    assert_eq!(ledger.vault(&id(1)), Some(vault));
    assert_eq!(ledger.get_or_create_staker_record(&id(5)).staked_amount, 100);
    assert_eq!(ledger.get_or_create_staker_record(&id(6)).staked_amount, 30);

    assert_eq!(
        claim_from(&mut ledger, &program, &vault, id(5), 100, 999, Ok(())),
        Err(CustomError::Locked)
    );
    assert_eq!(
        claim_from(&mut ledger, &program, &vault, id(5), 101, 1_000, Ok(())),
        Err(CustomError::ExceedAmount)
    );
    assert_eq!(
        claim_from(&mut ledger, &program, &vault, id(5), 40, 1_000, Err(TransferError::Unauthorized)),
        Err(CustomError::Unauthorized)
    );
    assert_eq!(ledger.get_or_create_staker_record(&id(5)).staked_amount, 100);
    assert_eq!(claim_from(&mut ledger, &program, &vault, id(5), 40, 1_000, Ok(())), Ok(()));
    assert_eq!(claim_from(&mut ledger, &program, &vault, id(5), 60, 1_001, Ok(())), Ok(()));
    assert_eq!(ledger.get_or_create_staker_record(&id(5)).staked_amount, 0);
    assert_eq!(ledger.get_or_create_staker_record(&id(6)).staked_amount, 30);
    assert_eq!(
        claim_from(&mut ledger, &program, &vault, id(7), 1, 2_000, Ok(())),
        Err(CustomError::ExceedAmount)
    );
}
