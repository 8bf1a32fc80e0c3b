use crate::bentobox::state::{AccountInfo, Balance, BentoBox, StrategyData, Total as BentoboxTotal};
use crate::cauldron::state::{Cauldron, DataFeed, LiquidatorAccount, Total, UserBalance};
use crate::common::pubkey::Pubkey;
use crate::common::token::{Mint, TokenAccount};
use vstd::prelude::*;

verus! {

/// The accounts through which a market has shares moved in its vault on
/// behalf of someone else: the record that whitelists the market, the
/// holder's approval of it, and the market's own account.
#[derive(Clone, Copy, Debug, PartialEq, Eq)]
pub struct MasterContractAccounts {
    pub master_contract_whitelisted: AccountInfo,
    pub master_contract_approved: AccountInfo,
    pub cauldron_account: AccountInfo,
}

/// The accounts of an accrual.
#[derive(Clone, Copy, Debug, PartialEq, Eq)]
pub struct Accrue {
    pub cauldron_account: Cauldron,
    pub total_data: Total,
}

/// The accounts of a borrow.
#[derive(Clone, Copy, Debug, PartialEq, Eq)]
pub struct Borrow {
    /// Holder of the vault balance the loan is paid from, who also signs for
    /// it.
    pub from: Pubkey,
    /// The vault's ledger of the token lent.
    pub bentobox_total_data: BentoboxTotal,
    /// Vault balance the loan is paid into.
    pub to_bentobox_balance: Balance,
    /// The borrower's position.
    pub user_balance: UserBalance,
    /// The market's ledger.
    pub total_data: Total,
    pub cauldron_account: Cauldron,
    /// The market's vault balance of the token lent.
    pub cauldron_bentobox_balance: Balance,
    /// Address of the vault.
    pub bentobox_account: Pubkey,
    pub bentobox_program: Pubkey,
    /// Mint of the token lent.
    pub magic_internet_money_mint: Pubkey,
    /// Mint of the collateral.
    pub collateral: Pubkey,
    /// The vault's ledger of the collateral, by which the borrower's
    /// collateral is valued.
    pub bentobox_collateral_total_data: BentoboxTotal,
    pub switchboard_data_feed: DataFeed,
}

/// The accounts of a repayment.
#[derive(Clone, Copy, Debug, PartialEq, Eq)]
pub struct Repay {
    pub total_data: Total,
    /// The vault's ledger of the token lent.
    pub bentobox_total_data: BentoboxTotal,
    /// Position of the borrower whose debt is paid.
    pub user_balance: UserBalance,
    pub cauldron_account: Cauldron,
    pub cauldron_bentobox_balance: Balance,
    pub bentobox_account: Pubkey,
    pub bentobox_program: Pubkey,
    /// Vault balance the payment comes from.
    pub from_bentobox_balance: Balance,
    pub magic_internet_money_mint: Pubkey,
    pub cauldron_authority: Pubkey,
    pub authority: Pubkey,
    /// The vault's authority address, from whose balance a skimmed payment
    /// comes.
    pub bentobox_authority: Pubkey,
    pub master_contract: MasterContractAccounts,
}

/// What a caller hands in besides, who adds collateral out of a vault
/// balance of their own.
#[derive(Clone, Copy, Debug, PartialEq, Eq)]
pub struct AddCollateralRemaining {
    /// Mint of the collateral.
    pub collateral: Pubkey,
    /// The caller's vault balance of the collateral.
    pub authority_bentobox_balance: Balance,
    pub bentobox_program: Pubkey,
    pub bentobox_account: Pubkey,
    pub master_contract_whitelisted: AccountInfo,
    pub master_contract_approved: AccountInfo,
}

/// The accounts of an addition of collateral.
#[derive(Clone, Copy, Debug, PartialEq, Eq)]
pub struct AddCollateral {
    pub user_balance: UserBalance,
    pub cauldron_account: Cauldron,
    /// The market's own account, as the vault sees it.
    pub cauldron_account_info: AccountInfo,
    pub total_data: Total,
    /// The market's vault balance of the collateral.
    pub cauldron_bentobox_balance: Balance,
    pub cauldron_authority: Pubkey,
    pub authority: Pubkey,
    /// Present where the caller handed in the further accounts in full.
    pub remaining: Option<AddCollateralRemaining>,
}

/// The accounts of a removal of collateral.
#[derive(Clone, Copy, Debug, PartialEq, Eq)]
pub struct RemoveCollateral {
    pub user_balance: UserBalance,
    pub cauldron_account: Cauldron,
    pub total_data: Total,
    /// Mint of the collateral.
    pub collateral: Pubkey,
    pub cauldron_bentobox_balance: Balance,
    pub to_bentobox_balance: Balance,
    pub bentobox_account: Pubkey,
    pub bentobox_program: Pubkey,
    pub cauldron_authority: Pubkey,
    /// The vault's ledger of the collateral.
    pub bentobox_total_data: BentoboxTotal,
    pub switchboard_data_feed: DataFeed,
    pub master_contract: MasterContractAccounts,
}

/// The accounts of a withdrawal of fees.
#[derive(Clone, Copy, Debug, PartialEq, Eq)]
pub struct WithdrawFees {
    pub cauldron_account: Cauldron,
    pub total_data: Total,
    pub bentobox_account: Pubkey,
    pub bentobox_program: Pubkey,
    /// The vault's ledger of the token lent.
    pub bentobox_total_data: BentoboxTotal,
    pub magic_internet_money: Pubkey,
    pub cauldron_authority: Pubkey,
    pub cauldron_bentobox_balance: Balance,
    pub fee_to_bentobox_balance: Balance,
}

/// The accounts of a withdrawal from the vault on the market's behalf.
#[derive(Clone, Copy, Debug, PartialEq, Eq)]
pub struct VaultWithdraw {
    /// Token account the tokens go to.
    pub to_vault: TokenAccount,
    /// The vault's token account.
    pub bentobox_vault: TokenAccount,
    /// Vault balance the tokens are taken from.
    pub bentobox_from_balance: Balance,
    /// The vault's ledger of the token.
    pub bentobox_total_data: BentoboxTotal,
    /// The vault.
    pub bentobox: BentoBox,
    pub bentobox_account: Pubkey,
    pub bentobox_program: Pubkey,
    /// The vault's authority address.
    pub bentobox_vault_authority: Pubkey,
}

/// The accounts of a deposit into the vault on the market's behalf.
#[derive(Clone, Copy, Debug, PartialEq, Eq)]
pub struct VaultDeposit {
    /// Token account the tokens come from.
    pub from: TokenAccount,
    /// The vault's token account.
    pub bentobox_vault: TokenAccount,
    /// Vault balance the shares go to.
    pub bentobox_to_balance: Balance,
    /// The vault's ledger of the token.
    pub bentobox_total_data: BentoboxTotal,
    /// The vault.
    pub bentobox: BentoBox,
    pub bentobox_account: Pubkey,
    pub bentobox_program: Pubkey,
    pub mint: Mint,
    pub strategy_data: StrategyData,
}

/// The accounts of a deposit into the vault through the market.
#[derive(Clone, Copy, Debug, PartialEq, Eq)]
pub struct BentoDeposit {
    pub cauldron_account: Cauldron,
    pub cauldron_authority: Pubkey,
    pub vault: VaultDeposit,
    pub master_contract: MasterContractAccounts,
}

/// The accounts of a withdrawal from the vault through the market.
#[derive(Clone, Copy, Debug, PartialEq, Eq)]
pub struct BentoWithdraw {
    pub cauldron_account: Cauldron,
    pub cauldron_authority: Pubkey,
    pub authority: Pubkey,
    pub vault: VaultWithdraw,
    pub master_contract: MasterContractAccounts,
}

/// The accounts of a move of shares in the vault through the market.
#[derive(Clone, Copy, Debug, PartialEq, Eq)]
pub struct BentoTransfer {
    pub cauldron_account: Cauldron,
    pub cauldron_authority: Pubkey,
    pub authority: Pubkey,
    pub from_bentobox_balance: Balance,
    pub to_bentobox_balance: Balance,
    pub bentobox_account: Pubkey,
    pub bentobox_program: Pubkey,
    pub master_contract: MasterContractAccounts,
}

/// The accounts of a reduction of the supply of the token lent.
#[derive(Clone, Copy, Debug, PartialEq, Eq)]
pub struct ReduceSupply {
    pub cauldron_account: Cauldron,
    pub cauldron_authority: Pubkey,
    pub authority: Pubkey,
    pub vault: VaultWithdraw,
}

/// The accounts that every liquidation works on.
#[derive(Clone, Copy, Debug, PartialEq, Eq)]
pub struct LiquidateAccounts {
    pub cauldron_account: Cauldron,
    pub total_data: Total,
    /// Position of the borrower who is liquidated.
    pub user_balance: UserBalance,
    pub switchboard_data_feed: DataFeed,
    /// Mint of the collateral.
    pub collateral: Pubkey,
    /// Mint of the token lent.
    pub magic_internet_money_mint: Pubkey,
    /// The vault's ledger of the collateral.
    pub bentobox_collateral_total_data: BentoboxTotal,
    /// The vault's ledger of the token lent.
    pub bentobox_mim_total_data: BentoboxTotal,
    pub bentobox_account: Pubkey,
    pub bentobox_program: Pubkey,
}

/// The accounts of a liquidation paid for at once.
#[derive(Clone, Copy, Debug, PartialEq, Eq)]
pub struct Liquidate {
    pub position: LiquidateAccounts,
    /// The market's vault balance of the collateral.
    pub cauldron_collateral_bentobox_balance: Balance,
    /// The liquidator's vault balance of the collateral.
    pub authority_collateral_bentobox_balance: Balance,
    /// The liquidator's vault balance of the token lent.
    pub authority_mim_bentobox_balance: Balance,
    /// The market's vault balance of the token lent.
    pub cauldron_mim_bentobox_balance: Balance,
    pub cauldron_authority: Pubkey,
    pub authority: Pubkey,
    pub master_contract: MasterContractAccounts,
}

/// The accounts of the first step of a liquidation through a swap.
#[derive(Clone, Copy, Debug, PartialEq, Eq)]
pub struct BeginLiquidate {
    pub position: LiquidateAccounts,
    /// The market's token account of the collateral, from which the swap is
    /// made.
    pub cauldron_source_vault: TokenAccount,
    /// The vault's token account of the collateral.
    pub bentobox_collateral_vault: TokenAccount,
    pub cauldron_collateral_bentobox_balance: Balance,
    /// The vault.
    pub bentobox: BentoBox,
    pub bentobox_vault_authority: Pubkey,
    pub cauldron_authority: Pubkey,
    pub authority: Pubkey,
    pub liquidator_account: LiquidatorAccount,
}

/// The accounts of the second step of a liquidation through a swap.
#[derive(Clone, Copy, Debug, PartialEq, Eq)]
pub struct LiquidateSwap {
    pub cauldron_account: Cauldron,
    pub authority: Pubkey,
    pub liquidator_account: LiquidatorAccount,
}

/// The accounts of the last step of a liquidation through a swap.
#[derive(Clone, Copy, Debug, PartialEq, Eq)]
pub struct CompleteLiquidate {
    pub cauldron_account: Cauldron,
    pub cauldron_authority: Pubkey,
    pub authority: Pubkey,
    pub liquidator_account: LiquidatorAccount,
    /// The market's token account of the token lent, which holds what the
    /// swap brought in.
    pub cauldron_mim_vault: TokenAccount,
    /// The vault's token account of the token lent.
    pub bentobox_mim_vault: TokenAccount,
    pub cauldron_mim_bentobox_balance: Balance,
    pub authority_mim_bentobox_balance: Balance,
    pub bentobox_mim_total_data: BentoboxTotal,
    /// The vault.
    pub bentobox: BentoBox,
    pub bentobox_account: Pubkey,
    pub bentobox_program: Pubkey,
    pub magic_internet_money_mint: Mint,
    pub mim_strategy_data: StrategyData,
}

} // verus!
