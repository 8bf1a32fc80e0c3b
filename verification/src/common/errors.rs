use vstd::prelude::*;

verus! {

/// Errors shared by every ledger: account mismatches and failed arithmetic.
#[derive(Clone, Copy, Debug, PartialEq, Eq, Structural)]
pub enum ErrorCode {
    /// Incompatible token accounts.
    IncompatibleTokenAccounts,
    /// Invalid authority of strategy token account.
    StrategyVaultInvalidAuthority,
    /// Invalid authority of bentobox token account.
    BentoboxVaultInvalidAuthority,
    /// Invalid account owner. Expect strategy program as owner.
    InvalidAccountOwnerStrategyProgram,
    /// Invalid account owner. Expect bentobox program as owner.
    InvalidAccountOwnerBentoboxProgram,
    /// Remaining accounts are empty. Expected some.
    EmptyRemainingAccounts,
    /// Overflow occurred when making integer addition.
    WrongIntegerAddition,
    /// Overflow occurred when making integer subtraction.
    WrongIntegerSubtraction,
    /// Overflow occurred when making integer multiplication.
    WrongIntegerMultiplication,
    /// Overflow occurred when making integer division.
    WrongIntegerDivision,
    /// Conversion to u64 failed with an overflow or underflow.
    TryIntoConversionError,
    /// Conversion to u128/u64 failed with an overflow or underflow.
    BnConversionError,
    /// Wrong convertion from AccountInfo To TokenAccount.
    WrongConvertionFromAccountInfoToTokenAccount,
    /// Invalid account owner. Expect cauldron program as owner.
    InvalidAccountOwnerCauldronProgram,
    /// Invalid token account owner.
    InvalidTokenAccountOwner,
}

} // verus!
