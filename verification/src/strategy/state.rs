use crate::common::pubkey::Pubkey;
use vstd::prelude::*;

verus! {

/// What every strategy records about itself for the vault to read.
#[derive(Clone, Copy, Debug, PartialEq, Eq)]
pub struct BaseStrategyInfo {
    /// Token for which the strategy is built.
    pub strategy_token: Pubkey,
    /// Set once the vault has left the strategy; never cleared. From then on
    /// the vault no longer harvests from it or withdraws through it.
    pub exited: bool,
    /// Ceiling on the vault's total amount above which a harvest is skipped.
    pub max_bentobox_balance: u64,
}

impl BaseStrategyInfo {
    /// Bytes the record takes when stored.
    pub const SIZE: usize = 41;
}

/// What a strategy's harvest reports: the gain, or the loss below zero,
/// against the balance it was called with.
#[derive(Clone, Copy, Debug, PartialEq, Eq, Structural)]
pub struct ResultAmount {
    pub amount: i64,
}

impl ResultAmount {
    /// Bytes the record takes when stored.
    pub const SIZE: usize = 8;
}

/// Who may run a safe harvest.
#[derive(Clone, Copy, Debug, PartialEq, Eq)]
pub struct ExecutorInfo {
    pub is_executor: bool,
    pub user: Pubkey,
}

impl ExecutorInfo {
    /// Bytes the record takes when stored.
    pub const SIZE: usize = 33;
}

} // verus!
