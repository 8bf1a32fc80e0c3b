use vstd::prelude::*;

verus! {

/// Errors that the lending market returns.
#[derive(Clone, Copy, Debug, PartialEq, Eq, Structural)]
pub enum ErrorCode {
    /// Cauldron: user insolvent.
    UserInsolventError,
    /// Cauldron: invalid collateral account.
    InvalidCollateral,
    /// Switchboard account provided is not owned by the switchboard oracle program.
    InvalidSwitchboardProgram,
    /// Switchboard oracle price is negative which is not allowed.
    InvalidSwitchboardPrice,
    /// Switchboard data feed account is invalid.
    InvalidSwitchboardDataFeedAccount,
    /// Switchboard data feed not of type aggregator.
    InvalidSwitchboardAccountType,
    /// Switchboard data feed account version is incorrect.
    InvalidSwitchboardAccountVersion,
    /// Switchboard oracle price is stale.
    StaleSwitchboardDataFeedResult,
    /// Incompatible switchboard data feed account.
    IncompatibleSwitchboardDataFeed,
    /// Add collateral: Skim too much.
    SkimTooMuch,
    /// Incorrect remaining accounts.
    IncorrectRemainingAccounts,
    /// Invalid Bentobox account.
    InvalidBentoboxAccount,
    /// Invalid Bentobox program account.
    InvalidBentoboxProgramAccount,
    /// Invalid cauldron authority account.
    InvalidCauldronAuthority,
    /// Cauldron: Borrow limit reached.
    BorrowLimitReached,
    /// BentoBox account is not owned by BentoBox program.
    BentoBoxAccountOwnerDoesNotMatchProgram,
    /// Total account pubkey from total info mismatch with total token account.
    InvalidBentoboxTotalTokenAccount,
    /// Invalid Master Contract whitelisted account.
    MasterContractWhitelistedAccountInvalid,
    /// Incompatible Master Contract whitelisted account.
    IncompatibleMasterContractWhitelistedAccount,
    /// Incompatible token account owner and signer.
    IncompatibleTokenAccountOwner,
    /// Interest rate increase > 75%.
    NotValidInterestRate,
    /// Canot update interest rate, update only every 3 days.
    TooSoonToUpdateInterestRate,
    /// Cauldron: invalid magic internet money account.
    InvalidMagicInternetMoneyAccount,
    /// Bento transfer: invalid parameter 'from'.
    InvalidParameterFrom,
    /// Cauldron: user is solvent.
    UserIsSolvent,
    /// Incorrect remaining accounts for swapper.
    IncorrectRemainingAccountsForSwapper,
    /// Invalid swapper.
    InvalidSwapper,
    /// Can not complete liquidation, only origin liquidator can do it before timestamp.
    TooSoon,
    /// Invalid owner of cauldron source token account.
    InvalidCauldronSourceVault,
    /// Invalid owner of cauldron destination token account.
    InvalidCauldronDestinationVault,
}

} // verus!
