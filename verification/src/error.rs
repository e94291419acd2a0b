use vstd::prelude::*;

verus! {

/// The vault program's own errors.
#[derive(Clone, Copy, Debug, PartialEq, Eq, Structural)]
pub enum CustomError {
    /// The vault cannot give the amount asked and stay rent exempt.
    InsufficientBalance,
    /// The signer is not the wallet recorded as the vault's authority.
    InvalidAuthority,
}

impl CustomError {
    /// The error code the program reports: the first custom code is 6000.
    pub fn code(&self) -> (res: u32)
        ensures
            res == match *self {
                CustomError::InsufficientBalance => 6000u32,
                CustomError::InvalidAuthority => 6001u32,
            },
    {
        match self {
            CustomError::InsufficientBalance => 6000,
            CustomError::InvalidAuthority => 6001,
        }
    }

    /// The error's name, as the program logs it.
    pub fn name(&self) -> (res: &'static str)
        ensures
            res@ == match *self {
                CustomError::InsufficientBalance => "InsufficientBalance"@,
                CustomError::InvalidAuthority => "InvalidAuthority"@,
            },
    {
        match self {
            CustomError::InsufficientBalance => "InsufficientBalance",
            CustomError::InvalidAuthority => "InvalidAuthority",
        }
    }

    /// The message that goes with the error.
    pub fn message(&self) -> (res: &'static str)
        ensures
            res@ == match *self {
                CustomError::InsufficientBalance =>
                    "Can't withdraw given amount due to insufficient balance"@,
                CustomError::InvalidAuthority =>
                    "You do not have authority to perform actions on this account"@,
            },
    {
        match self {
            CustomError::InsufficientBalance =>
                "Can't withdraw given amount due to insufficient balance",
            CustomError::InvalidAuthority =>
                "You do not have authority to perform actions on this account",
        }
    }
}

/// Why an instruction of the vault is refused.
#[derive(Clone, Copy, Debug, PartialEq, Eq, Structural)]
pub enum VaultError {
    /// One of the program's own errors.
    Program(CustomError),
    /// An account's address is not the one its seeds derive.
    ConstraintSeeds,
    /// The vault-state account would be closed into itself.
    ConstraintClose,
    /// The vault-state account holds no vault state.
    AccountNotInitialized,
    /// The vault-state account to create holds a vault state already.
    AccountAlreadyInUse,
    /// The account that lamports leave holds fewer than are asked.
    InsufficientFunds,
    /// The account that lamports enter would hold more than a `u64`.
    ArithmeticOverflow,
}

} // verus!
