use crate::bentobox::error::ErrorCode as BentoboxErrorCode;
use crate::cauldron::error::ErrorCode as CauldronErrorCode;
use crate::common::errors::ErrorCode as CommonErrorCode;
use crate::strategy::errors::ErrorCode as StrategyErrorCode;
use crate::strategy_mock::error::ErrorCode as StrategyMockErrorCode;
use crate::swapper::errors::ErrorCode as SwapperErrorCode;
use crate::swapper_orca::error::ErrorCode as SwapperOrcaErrorCode;
use crate::swapper_raydium::error::ErrorCode as SwapperRaydiumErrorCode;
use vstd::prelude::*;

verus! {

/// Why a token transfer between two token accounts is refused.
#[derive(Clone, Copy, Debug, PartialEq, Eq, Structural)]
pub enum TokenError {
    /// The source account holds less than the amount.
    InsufficientFunds,
    /// The destination account cannot hold the amount on top of its own.
    Overflow,
}

/// Any error of the library, by the part that raised it.
#[derive(Clone, Copy, Debug, PartialEq, Eq, Structural)]
pub enum Error {
    Common(CommonErrorCode),
    Bentobox(BentoboxErrorCode),
    Cauldron(CauldronErrorCode),
    Strategy(StrategyErrorCode),
    StrategyMock(StrategyMockErrorCode),
    Swapper(SwapperErrorCode),
    SwapperOrca(SwapperOrcaErrorCode),
    SwapperRaydium(SwapperRaydiumErrorCode),
    Token(TokenError),
    /// The lender's fee schedule has no fee for the amount.
    FlashLoanFee,
    /// Another program failed, with the code it gave: the error of
    /// strategies and swappers that call out.
    Program(u32),
}

impl Error {
    /// Lifts the result of shared arithmetic into the library's error type.
    pub open spec fn spec_lift<T>(r: Result<T, CommonErrorCode>) -> Result<T, Error> {
        match r {
            Ok(v) => Ok(v),
            Err(e) => Err(Error::Common(e)),
        }
    }

    pub fn lift<T>(r: Result<T, CommonErrorCode>) -> (out: Result<T, Error>)
        ensures
            out == Error::spec_lift(r),
    {
        match r {
            Ok(v) => Ok(v),
            Err(e) => Err(Error::Common(e)),
        }
    }
}

} // verus!
