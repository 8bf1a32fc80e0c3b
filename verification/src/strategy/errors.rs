use vstd::prelude::*;

verus! {

/// Errors every strategy shares.
#[derive(Clone, Copy, Debug, PartialEq, Eq, Structural)]
pub enum ErrorCode {
    /// After exit: accounts list for after exit is empty.
    EmptyAccountsListForAfterExit,
    /// Error while casting AccountInfo to BaseStrategyInfo.
    WrongConvertionFromAccountInfoToBaseStrategyInfo,
}

} // verus!
