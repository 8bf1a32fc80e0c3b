use crate::common::errors::ErrorCode;
use crate::common::pubkey::Pubkey;
use crate::common::rebase::Rebase;
use crate::common::token::TokenAccount;
use vstd::prelude::*;

verus! {

/// Settings of one vault.
#[derive(Clone, Copy, Debug, PartialEq, Eq, Structural)]
pub struct Constants {
    /// Fewest shares an asset may have handed out, unless it has none.
    pub minimum_share_balance: u64,
    /// Largest share of an asset, in percent, that a strategy may be given.
    pub max_target_percentage: u64,
}

impl Constants {
    /// Bytes the record takes when stored.
    pub const SIZE: usize = 24;
}

/// One vault.
#[derive(Clone, Copy, Debug, PartialEq, Eq)]
pub struct BentoBox {
    /// Owner of the vault.
    pub authority: Pubkey,
    /// Who may claim ownership next, if anyone.
    pub pending_authority: Option<Pubkey>,
    /// Seconds a queued strategy waits before it may be activated.
    pub strategy_delay: u64,
    pub constants: Constants,
}

/// Whether a master contract may be approved by holders at all.
#[derive(Clone, Copy, Debug, PartialEq, Eq)]
pub struct MasterContractWhitelisted {
    pub master_contract_account: Pubkey,
    pub whitelisted: bool,
}

/// One holder's approval of one master contract.
#[derive(Clone, Copy, Debug, PartialEq, Eq)]
pub struct MasterContractApproved {
    pub master_contract_whitelisted: Pubkey,
    pub approved: bool,
}

/// Seed of the address of a holder's approval of a master contract: the
/// bytes of `approvedmastercontractkey`.
pub const APPROVED_MASTER_CONTRACT_PART: [u8; 25] = [97, 112, 112, 114, 111, 118, 101, 100, 109, 97, 115, 116, 101, 114, 99, 111, 110, 116, 114, 97, 99, 116, 107, 101, 121];

/// How many further accounts a caller hands in who acts for a holder.
pub const REMAINING_ACCOUNTS_COUNT_FOR_ALLOWED: usize = 3;

/// What an account holds, as far as the vault tells kinds apart.
#[derive(Clone, Copy, Debug, PartialEq, Eq)]
pub enum AccountData {
    MasterContractWhitelisted(MasterContractWhitelisted),
    MasterContractApproved(MasterContractApproved),
    Other,
}

/// What the vault reads of an account that a caller hands in.
#[derive(Clone, Copy, Debug, PartialEq, Eq)]
pub struct AccountInfo {
    /// The account's own address.
    pub key: Pubkey,
    /// The program the account belongs to.
    pub owner: Pubkey,
    /// What it holds.
    pub data: AccountData,
}

/// What the vault reads of a lender's fee schedule.
#[derive(Clone, Copy, Debug, PartialEq, Eq, Structural)]
pub struct ReserveFees {
    /// Fee on a borrow, in parts of 10^18.
    pub borrow_fee_wad: u64,
    /// Fee on a flash loan, in parts of 10^18.
    pub flash_loan_fee_wad: u64,
    /// The host's part of a fee, in percent.
    pub host_fee_percentage: u8,
}

/// What the vault reads of a lender's reserve.
#[derive(Clone, Copy, Debug, PartialEq, Eq, Structural)]
pub struct Reserve {
    /// Tokens the reserve has to lend.
    pub available_amount: u64,
    pub fees: ReserveFees,
}

/// The ledger of one asset in the vault.
#[derive(Clone, Copy, Debug, PartialEq, Eq)]
pub struct Total {
    /// The asset's mint.
    pub mint_address: Pubkey,
    /// Shares handed out, and the amount of tokens they stand for.
    pub amount: Rebase,
    /// The vault's token account for the asset.
    pub token_account: Pubkey,
}

/// One holder's shares of one asset.
#[derive(Clone, Copy, Debug, PartialEq, Eq, Structural)]
pub struct Balance {
    pub amount: u64,
}

/// What a deposit or a withdrawal moved.
#[derive(Clone, Copy, Debug, PartialEq, Eq, Structural)]
pub struct AmountShareOut {
    pub amount_out: u64,
    pub share_out: u64,
}

/// The vault's record of one asset's strategy.
#[derive(Clone, Copy, Debug, PartialEq, Eq)]
pub struct StrategyData {
    /// When the pending strategy may be activated; zero while none is queued.
    pub strategy_start_date: u64,
    /// Share of the asset, in percent, that the strategy should hold.
    pub target_percentage: u64,
    /// What the vault believes the strategy holds.
    pub balance: u64,
    pub pending_strategy: Pubkey,
    pub active_strategy: Pubkey,
}

/// The amounts of an asset's ledger as the vault stores them.
#[derive(Clone, Copy, Debug, PartialEq, Eq, Structural)]
pub struct BentoboxRebase {
    pub base: u128,
    pub elastic: u128,
}

impl From<Rebase> for BentoboxRebase {
    fn from(rebase: Rebase) -> (r: BentoboxRebase) {
        BentoboxRebase { base: rebase.base, elastic: rebase.elastic }
    }
}

impl vstd::std_specs::convert::FromSpecImpl<Rebase> for BentoboxRebase {
    open spec fn obeys_from_spec() -> bool {
        true
    }

    open spec fn from_spec(rebase: Rebase) -> BentoboxRebase {
        BentoboxRebase { base: rebase.base, elastic: rebase.elastic }
    }
}

impl From<BentoboxRebase> for Rebase {
    fn from(stored: BentoboxRebase) -> (r: Rebase) {
        Rebase { base: stored.base, elastic: stored.elastic }
    }
}

impl vstd::std_specs::convert::FromSpecImpl<BentoboxRebase> for Rebase {
    open spec fn obeys_from_spec() -> bool {
        true
    }

    open spec fn from_spec(stored: BentoboxRebase) -> Rebase {
        Rebase { base: stored.base, elastic: stored.elastic }
    }
}

/// What the vault's token account and the strategy hold together, as far as
/// the vault knows.
pub open spec fn spec_token_balance_of(vault_amount: u64, strategy_balance: u64) -> Result<
    u128,
    ErrorCode,
> {
    if vault_amount + strategy_balance > u64::MAX {
        Err(ErrorCode::WrongIntegerAddition)
    } else {
        Ok((vault_amount + strategy_balance) as u128)
    }
}

/// Tokens of the asset that the vault's own account holds, plus what the
/// vault believes its strategy holds.
pub fn token_balance_of(bentobox_vault: &TokenAccount, strategy_data: &StrategyData) -> (r: Result<
    u128,
    ErrorCode,
>)
    ensures
        r == spec_token_balance_of(bentobox_vault.amount, strategy_data.balance),
{
    match bentobox_vault.amount.checked_add(strategy_data.balance) {
        Some(v) => Ok(v as u128),
        None => Err(ErrorCode::WrongIntegerAddition),
    }
}

} // verus!
