use vstd::prelude::*;

verus! {

/// Errors every swapper shares.
#[derive(Clone, Copy, Debug, PartialEq, Eq, Structural)]
pub enum ErrorCode {
    /// Invalid token source account or token source program account.
    InvalidTokenSourceOwner,
    /// Invalid token destination account or token destination program account.
    InvalidTokenDestinationOwner,
}

} // verus!
