use vstd::prelude::*;

verus! {

/// Errors of the swapper over a Raydium pool.
#[derive(Clone, Copy, Debug, PartialEq, Eq, Structural)]
pub enum ErrorCode {
    /// There are not enough remaining accounts to make a Raydium swap.
    NotEnoughRemainingAccounts,
}

} // verus!
