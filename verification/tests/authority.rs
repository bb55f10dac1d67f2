use anchor_lang::prelude::Pubkey;
use timelock_vault::{
    claim, derive_authority, derive_vault_authority, initialize, Address, Claim, CustomError,
    Initialize, LockPolicy, TokenAccount, TokenStaker, VAULT_AUTHORITY_SEED,
};

fn id(byte: u8) -> Address {
    Address::new([byte; 32])
}

#[test]
fn seed_is_the_text_vault_authority() {
    assert_eq!(&VAULT_AUTHORITY_SEED[..], &b"vault-authority"[..]);
}

#[test]
fn vault_authority_is_the_program_address() {
    for byte in [0u8, 1, 7, 200, 255] {
        let program = Pubkey::new_from_array([byte; 32]);
        let (address, bump) = Pubkey::find_program_address(&[b"vault-authority"], &program);
        let derived = derive_vault_authority(&id(byte)).unwrap();
        assert_eq!(derived.address.to_bytes(), address.to_bytes());
        assert_eq!(derived.bump, bump);
        assert_ne!(derived.address, id(byte));
        assert_eq!(
            Pubkey::create_program_address(&[b"vault-authority", &[derived.bump]], &program)
                .unwrap()
                .to_bytes(),
            derived.address.to_bytes()
        );
    }
}

#[test]
fn derivation_is_repeatable_and_depends_on_seed_and_program() {
    let first = derive_authority(b"vault", &id(3)).unwrap();
    assert_eq!(derive_authority(b"vault", &id(3)).unwrap(), first);
    assert_ne!(derive_authority(b"vaulu", &id(3)).unwrap().address, first.address);
    assert_ne!(derive_authority(b"vault", &id(4)).unwrap().address, first.address);
}

#[test]
fn derivation_from_an_overlong_seed_is_exhausted() {
    assert_eq!(derive_authority(&[5u8; 33], &id(3)), Err(CustomError::DerivationExhausted));
    assert!(derive_authority(&[5u8; 32], &id(3)).is_ok());
}

#[test]
fn initialize_and_claim_use_the_derived_authority() {
    let program = id(42);
    let derived = derive_vault_authority(&program).unwrap();
    let mut ctx = Initialize {
        owner: id(1),
        lock_time_account: None,
        vault_key: id(4),
        vault_account: None,
        source_token_mint: id(2),
    };
    let call = initialize(&mut ctx, &program, Some(100)).unwrap();
    assert_eq!(call.new_authority, Some(derived.address));
    assert_eq!(call.accounts.current_authority, id(1));
    let vault = ctx.vault_account.unwrap();
    assert_eq!(vault.authority, derived.address);
    assert_ne!(vault.authority, id(1));
    assert_eq!(initialize(&mut ctx, &program, Some(5)), Err(CustomError::AlreadyExists));

    let mut out = Claim {
        owner: id(1),
        token_staker: TokenStaker { owner: id(1), staked_amount: 10, unlock_time: None },
        dest_token_account: TokenAccount { key: id(5), mint: id(2), authority: id(1) },
        token_mint: id(2),
        token_vault_account: vault,
        vault_authority: derived.address,
        lock_policy: LockPolicy::Global { lock_time_account: ctx.lock_time_account.unwrap() },
    };
    assert_eq!(claim(&mut out, &program, 4, 99), Err(CustomError::Locked));
    let call = claim(&mut out, &program, 4, 100).unwrap();
    assert_eq!(call.accounts.authority, derived.address);
    assert_eq!(call.signer_bump, Some(derived.bump));
    assert_eq!(call.amount, 4);
    assert_eq!(out.token_staker.staked_amount, 6);

    out.vault_authority = id(1);
    assert_eq!(claim(&mut out, &program, 1, 100), Err(CustomError::Unauthorized));
}
