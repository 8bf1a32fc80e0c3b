use vstd::prelude::*;

verus! {

/// Errors that the vault returns.
#[derive(Clone, Copy, Debug, PartialEq, Eq, Structural)]
pub enum ErrorCode {
    /// Cannot deposit current amount. Not enough funds.
    DepositAmountTooHigh,
    /// Authority of deposit token account mismatch with signer.
    DepositTokenAccountInvalidAuthority,
    /// BentoBox: No tokens.
    BentoBoxNoTokens,
    /// BentoBox: Wrong token mint provided.
    BentoBoxWrongToken,
    /// Cannot withdraw current amount. Not enough funds.
    WithdrawAmountToHigh,
    /// Authority of withdraw token account mismatch with signer.
    WithdrawTokenAccountInvalidAuthority,
    /// BentoBox: Cannot empty.
    WithdrawCannotEmpty,
    /// Unauthorized withdraw.
    UnauthorizedWithdraw,
    /// BentoBox: Wrong amount.
    BentoBoxWrongAmount,
    /// Cannot transfer current amount. Not enough funds.
    TransferAmountToHigh,
    /// Cannot transfer due to empty receivers list.
    EmptyTransferReceiversList,
    /// Cannot transfer because of missmatch between shares and receivers list.
    MismatchBetweenSharesAndReceivers,
    /// Error while casting AccountInfo to Balance.
    WrongConvertionFromAccountInfoToBalance,
    /// Source liquidity account amount is less than flash loan amount.
    InsufficientSourceLiquidity,
    /// Flash loan fee receiver account amount is less than flash loan expected fee.
    InsufficientFlashLoanFeeReceiverFunds,
    /// Error while casting AccountInfo to Reserve account.
    WrongConvertionFromAccountInfoToReserveAccount,
    /// Invalid flash loan fee receiver account for flash loan.
    FlashLoanInvalidFlashLoanFeeReceiverTokenAccount,
    /// Total account pubkey from total info mismatch with total token account.
    InvalidTotalTokenAccount,
    /// StrategyManager: Too early.
    TooEarlyStrategyStartData,
    /// BentoBox: Skim too much.
    DepositSkimTooMuch,
    /// Provided account does not exist.
    EmptyAccount,
    /// This signer cannot claim authority for BentoBox.
    InvalidClaimAuthority,
    /// New authority has empty address.
    EmptyAuthorityAddress,
    /// New authority is the same as current BentoBox authority.
    SameAuthority,
    /// Unauthorized save harvest.
    UnauthorizedSaveHarvest,
    /// Master Contract not whitelisted.
    MasterContractNotWhitelisted,
    /// Master Contract not approved.
    MasterContractNotApproved,
    /// Invalid Master Contract whitelisted account.
    MasterContractWhitelistedAccountInvalid,
    /// Invalid Master Contract approved account.
    MasterContractApprovedAccountInvalid,
    /// Master Contract account is not owned by Master Contract program.
    MasterContractAccountOwnerDoesNotMatchProgram,
    /// Remaining accounts should contains 3 accounts for allowed checks.
    AllowedRemainingAccountsAreEmpty,
    /// Pending authority is empty.
    EmptyPendingAuthorityAddress,
    /// Unauthorized safe harvest.
    UnauthorizedSafeHarvest,
    /// Active strategy is not set.
    StrategyNotSet,
    /// Invalid strategy account.
    InvalidStrategyAccount,
    /// Invalid strategy target percentage.
    StrategyTargetPercentageTooHigh,
    /// Cauldron sign mismatch.
    CauldronSignMismatch,
    /// Invalid remaining accounts count.
    InvalidRemainingAccountsCount,
    /// Invalid cauldron accounts.
    InvalidCauldronAccount,
    /// BentoBox strategy is exited.
    StrategyIsExited,
}

} // verus!
