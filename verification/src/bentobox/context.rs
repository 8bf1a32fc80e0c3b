use crate::bentobox::state::{Balance, BentoBox, StrategyData, Total};
use crate::common::pubkey::Pubkey;
use crate::common::token::{Mint, TokenAccount};
use crate::strategy::state::ExecutorInfo;
use vstd::prelude::*;

verus! {

/// The accounts of a conversion between amount and shares.
#[derive(Clone, Copy, Debug, PartialEq, Eq)]
pub struct Conversion {
    /// The asset's mint.
    pub mint: Pubkey,
    /// The asset's ledger.
    pub total_data: Total,
}

/// The accounts of a deposit.
#[derive(Clone, Copy, Debug, PartialEq, Eq)]
pub struct Deposit {
    /// Token account the tokens come from.
    pub from: TokenAccount,
    /// The vault's token account for the asset.
    pub bentobox_vault: TokenAccount,
    /// Shares of the holder the deposit is for.
    pub balance: Balance,
    /// The asset's ledger.
    pub total_data: Total,
    /// Who asks for the deposit.
    pub authority: Pubkey,
    /// The vault.
    pub bentobox_account: BentoBox,
    /// The vault's address.
    pub bentobox_key: Pubkey,
    /// The asset's strategy record.
    pub strategy_data: StrategyData,
    /// The asset's mint.
    pub mint: Mint,
}

/// The accounts of a withdrawal.
#[derive(Clone, Copy, Debug, PartialEq, Eq)]
pub struct Withdraw {
    /// The vault's token account for the asset.
    pub bentobox_vault: TokenAccount,
    /// Token account the tokens go to.
    pub to: TokenAccount,
    /// Shares of the holder the tokens are taken from.
    pub balance: Balance,
    /// The asset's ledger.
    pub total_data: Total,
    /// Who asks for the withdrawal.
    pub authority: Pubkey,
    /// The vault's authority address.
    pub vault_authority: Pubkey,
    /// The vault.
    pub bentobox_account: BentoBox,
    /// The vault's address.
    pub bentobox_key: Pubkey,
}

/// The accounts of a move of shares between two holders.
#[derive(Clone, Copy, Debug, PartialEq, Eq)]
pub struct TransferInternal {
    /// Shares of the holder who gives.
    pub balance_from: Balance,
    /// Shares of the holder who receives.
    pub balance_to: Balance,
    /// Who asks for the move.
    pub authority: Pubkey,
    /// The vault's address.
    pub bentobox_key: Pubkey,
}

/// The accounts of a flash loan, as they stand once the loan has been paid
/// back.
#[derive(Clone, Copy, Debug, PartialEq, Eq)]
pub struct FlashLoan {
    /// Token account the loan was taken from, as it stood before the loan.
    pub source_liquidity: TokenAccount,
    /// Token account the loan was paid into.
    pub destination_liquidity: TokenAccount,
    /// Token account that receives the lender's fee.
    pub flash_loan_fee_receiver: TokenAccount,
    /// The vault's token account for the asset, which receives the host's
    /// part of the fee.
    pub host_fee_receiver: TokenAccount,
    /// The asset's ledger.
    pub total_data: Total,
    /// The asset's strategy record.
    pub strategy_data: StrategyData,
}

/// The accounts of a change of an asset's target percentage.
#[derive(Clone, Copy, Debug, PartialEq, Eq)]
pub struct SetStrategyTargetPercentage {
    pub strategy_data: StrategyData,
    pub bentobox_account: BentoBox,
}

/// The accounts of a change of an asset's strategy.
#[derive(Clone, Copy, Debug, PartialEq, Eq)]
pub struct SetStrategy {
    /// Address of the strategy to queue or to activate.
    pub strategy_account: Pubkey,
    /// The vault.
    pub bentobox_account: BentoBox,
    /// The asset's strategy record.
    pub strategy_data: StrategyData,
    /// The asset's ledger.
    pub total_data: Total,
}

/// The accounts of a harvest.
#[derive(Clone, Copy, Debug, PartialEq, Eq)]
pub struct Harvest {
    /// Address of the strategy to harvest.
    pub strategy_account: Pubkey,
    /// The asset's strategy record.
    pub strategy_data: StrategyData,
    /// The asset's ledger.
    pub total_data: Total,
}

/// The accounts of a safe harvest.
#[derive(Clone, Copy, Debug, PartialEq, Eq)]
pub struct SafeHarvest {
    /// Address of the strategy to harvest.
    pub strategy_account: Pubkey,
    /// The asset's strategy record.
    pub strategy_data: StrategyData,
    /// The asset's ledger.
    pub total_data: Total,
    /// Who asks for the harvest.
    pub authority: Pubkey,
    /// The strategy's record of the caller as an executor.
    pub executor_info: ExecutorInfo,
}

impl SafeHarvest {
    /// Whether the caller is the executor the record names, and the record
    /// is switched on.
    pub open spec fn spec_only_executors(&self) -> bool {
        self.executor_info.user == self.authority && self.executor_info.is_executor
    }
}

} // verus!
