use vstd::prelude::*;

verus! {

/// Errors of the swapper over an Orca pool.
#[derive(Clone, Copy, Debug, PartialEq, Eq, Structural)]
pub enum ErrorCode {
    /// Invalid bentobox account.
    InvalidBentoBoxAccount,
    /// There are not enough remaining accounts to make a Orca swap.
    NotEnoughRemainingAccounts,
    /// Invalid pool host fee account.
    InvalidPoolHostFeeAccount,
}

} // verus!
