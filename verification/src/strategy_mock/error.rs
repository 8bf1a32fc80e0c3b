use vstd::prelude::*;

verus! {

/// Errors of the pool-backed strategy.
#[derive(Clone, Copy, Debug, PartialEq, Eq, Structural)]
pub enum ErrorCode {
    /// Error convertion from AccountInfo to StrategyMock.
    WrongConvertionFromAccountInfoToStrategyMock,
    /// Invalid base strategy info account.
    InvalidBaseStrategyInfoAccount,
    /// BentoBox Strategy: not exited.
    StrategyNotExited,
    /// BentoBox Strategy: invalid strategy vault token account.
    InvalidStrategyVaultAccount,
    /// Unauthorized after_exit.
    UnauthorizedAfterExit,
    /// Unauthorized set_strategy_executor.
    UnauthorizedSetStrategyExecutor,
    /// Invalid remaining accounts.
    InvalidRemainingAccounts,
    /// Invalid pool account.
    InvalidPoolAccount,
    /// Invalid bentobox account.
    InvalidBentoBoxAccount,
}

} // verus!
