//! The vault authority: an address derived from a fixed seed and the
//! identity of the running program. No private key belongs to it, so only the
//! program itself can sign for it, by handing over the seed and the bump seed
//! from which the address was made.

use vstd::prelude::*;
use anchor_lang::prelude::Pubkey;
use crate::address::Address;
use crate::error::CustomError;

verus! {

/// The seed of the vault authority: the bytes of `vault-authority`.
pub const VAULT_AUTHORITY_SEED: [u8; 15] = [
    118, 97, 117, 108, 116, 45, 97, 117, 116, 104, 111, 114, 105, 116, 121,
];

/// What `Pubkey::try_find_program_address` returns for the one seed `seed` and
/// the program `program_id`: the derived address with its bump seed, or `None`
/// where no bump seed gives an address. It is a hash of its arguments, the
/// same in every run.
pub uninterp spec fn program_address(seed: Seq<u8>, program_id: Seq<u8>) -> Option<(Seq<u8>, u8)>;

/// Calls `Pubkey::try_find_program_address` with `seed` as the only seed.
/// Nothing is claimed of the outcome but that it is `program_address` of the
/// same seed and program.
#[verifier::external_body]
fn find_program_address(seed: &[u8], program_id: &[u8; 32]) -> (found: Option<([u8; 32], u8)>)
    ensures
        found matches Some(pair) ==> program_address(seed@, program_id@) == Some(
            (pair.0@, pair.1),
        ),
        found is None ==> program_address(seed@, program_id@) is None,
{
    Pubkey::try_find_program_address(&[seed], &Pubkey::new_from_array(*program_id))
        .map(|(address, bump)| (address.to_bytes(), bump))
}

/// A derived address together with the bump seed that proves its derivation.
#[derive(Clone, Copy, Debug, PartialEq, Eq)]
pub struct DerivedAuthority {
    pub address: Address,
    pub bump: u8,
}

impl DerivedAuthority {
    /// Whether this is what `seed` and `program_id` derive.
    pub open spec fn derived_from(self, seed: Seq<u8>, program_id: Address) -> bool {
        program_address(seed, program_id@) == Some((self.address@, self.bump))
    }
}

/// Whether `outcome` is what deriving from `seed` and `program_id` gives: the
/// derived authority, or `DerivationExhausted` where there is none.
pub open spec fn is_derivation(
    outcome: Result<DerivedAuthority, CustomError>,
    seed: Seq<u8>,
    program_id: Address,
) -> bool {
    match outcome {
        Ok(authority) => authority.derived_from(seed, program_id),
        Err(error) => error == CustomError::DerivationExhausted && program_address(
            seed,
            program_id@,
        ) is None,
    }
}

/// The outcome of deriving from `seed` and `program_id`: the one that
/// `is_derivation` holds of.
pub open spec fn derivation(seed: Seq<u8>, program_id: Address) -> Result<
    DerivedAuthority,
    CustomError,
> {
    choose|outcome: Result<DerivedAuthority, CustomError>|
        is_derivation(outcome, seed, program_id)
}

/// The outcome of deriving the vault authority of `program_id`.
pub open spec fn vault_authority(program_id: Address) -> Result<DerivedAuthority, CustomError> {
    derivation(VAULT_AUTHORITY_SEED@, program_id)
}

/// Derives the address that `program_id` controls under `seed`.
pub fn derive_authority(seed: &[u8], program_id: &Address) -> (outcome: Result<
    DerivedAuthority,
    CustomError,
>)
    ensures
        is_derivation(outcome, seed@, *program_id),
        outcome == derivation(seed@, *program_id),
{
    let outcome = match find_program_address(seed, &program_id.bytes) {
        Some((bytes, bump)) => Ok(DerivedAuthority { address: Address { bytes }, bump }),
        None => Err(CustomError::DerivationExhausted),
    };
    proof {
        lemma_derivation_is_a_function(
            outcome,
            derivation(seed@, *program_id),
            seed@,
            *program_id,
        );
    }
    outcome
}

/// Derives the vault authority of `program_id`.
pub fn derive_vault_authority(program_id: &Address) -> (outcome: Result<
    DerivedAuthority,
    CustomError,
>)
    ensures
        is_derivation(outcome, VAULT_AUTHORITY_SEED@, *program_id),
        outcome == vault_authority(*program_id),
{
    let seed: [u8; 15] = VAULT_AUTHORITY_SEED;
    derive_authority(seed.as_slice(), program_id)
}

/// Deriving is a function of the seed and the program: any two outcomes for
/// the same seed and program are the same address with the same bump seed,
/// or the same failure.
pub proof fn lemma_derivation_is_a_function(
    first: Result<DerivedAuthority, CustomError>,
    second: Result<DerivedAuthority, CustomError>,
    seed: Seq<u8>,
    program_id: Address,
)
    requires
        is_derivation(first, seed, program_id),
        is_derivation(second, seed, program_id),
    ensures
        first == second,
{
    if let Ok(a) = first {
        if let Ok(b) = second {
            Address::lemma_view_injective(a.address, b.address);
        }
    }
}

} // verus!
