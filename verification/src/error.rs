//! What an operation of the vault can fail with.

use vstd::prelude::*;

verus! {

/// A failure reported by the asset transfer service.
#[derive(Clone, Copy, Debug, PartialEq, Eq, Structural)]
pub enum TransferError {
    /// The accounts of the transfer hold different token types.
    MintMismatch,
    /// The source holds less than the amount asked for.
    InsufficientFunds,
    /// The authority given may not move the source's funds.
    Unauthorized,
}

/// A failure of `initialize`, `deposit` or `claim`. None of them leaves a
/// record changed.
#[derive(Clone, Copy, Debug, PartialEq, Eq, Structural)]
pub enum CustomError {
    /// The withdrawal came before the unlock time.
    Locked,
    /// The withdrawal asked for more than the staker has deposited.
    ExceedAmount,
    /// The vault of this owner has been initialized before.
    AlreadyExists,
    /// No bump seed gives the vault authority an address.
    DerivationExhausted,
    /// The deposit would take a balance or an unlock time past `u64::MAX`.
    Overflow,
    /// The destination holds another token type or belongs to someone else.
    InvalidDestination,
    /// A token account holds another token type than the mint given.
    MintMismatch,
    /// The caller is not the owner of the record, or the transfer service
    /// refused the authority.
    Unauthorized,
    /// The transfer service found too little in the source account.
    InsufficientFunds,
}

/// Whether `outcome` is the failure `error`.
pub open spec fn fails_with<T>(outcome: Result<T, CustomError>, error: CustomError) -> bool {
    outcome == Err::<T, CustomError>(error)
}

impl CustomError {
    /// The error under which a failure of the transfer service is passed on.
    pub open spec fn of_transfer(error: TransferError) -> CustomError {
        match error {
            TransferError::MintMismatch => CustomError::MintMismatch,
            TransferError::InsufficientFunds => CustomError::InsufficientFunds,
            TransferError::Unauthorized => CustomError::Unauthorized,
        }
    }

    /// Passes a failure of the transfer service on under the same name.
    pub fn from_transfer(error: TransferError) -> (passed_on: CustomError)
        ensures
            passed_on == CustomError::of_transfer(error),
    {
        match error {
            TransferError::MintMismatch => CustomError::MintMismatch,
            TransferError::InsufficientFunds => CustomError::InsufficientFunds,
            TransferError::Unauthorized => CustomError::Unauthorized,
        }
    }

    /// The text shown for each error.
    pub open spec fn message_text(self) -> Seq<char> {
        match self {
            CustomError::Locked => "Token still locked!"@,
            CustomError::ExceedAmount => "Token amount exceed!"@,
            CustomError::AlreadyExists => "Vault already initialized!"@,
            CustomError::DerivationExhausted => "No vault authority address found!"@,
            CustomError::Overflow => "Token amount overflow!"@,
            CustomError::InvalidDestination => "Invalid destination account!"@,
            CustomError::MintMismatch => "Token mint mismatch!"@,
            CustomError::Unauthorized => "Not authorized!"@,
            CustomError::InsufficientFunds => "Insufficient funds!"@,
        }
    }

    /// The text shown for this error.
    pub fn message(&self) -> (text: &'static str)
        ensures
            text@ == self.message_text(),
    {
        match self {
            CustomError::Locked => "Token still locked!",
            CustomError::ExceedAmount => "Token amount exceed!",
            CustomError::AlreadyExists => "Vault already initialized!",
            CustomError::DerivationExhausted => "No vault authority address found!",
            CustomError::Overflow => "Token amount overflow!",
            CustomError::InvalidDestination => "Invalid destination account!",
            CustomError::MintMismatch => "Token mint mismatch!",
            CustomError::Unauthorized => "Not authorized!",
            CustomError::InsufficientFunds => "Insufficient funds!",
        }
    }
}

} // verus!
