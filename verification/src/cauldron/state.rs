use crate::common::pubkey::Pubkey;
use crate::common::rebase::Rebase;
use vstd::prelude::*;

verus! {

/// Seconds that have to pass between two changes of the interest rate.
pub const THREE_DAYS: u64 = 259200;

/// How many further accounts a caller hands in who adds collateral out of
/// the vault balance of their own.
pub const ADD_COLLATERAL_REMAINING_ACCOUNTS_COUNT: usize = 6;

/// Caps on borrowing.
#[derive(Clone, Copy, Debug, PartialEq, Eq, Structural)]
pub struct BorrowCap {
    /// Most that may be owed in total.
    pub total: u64,
    /// Largest part of the debt that one borrower may hold.
    pub borrow_part_per_address: u64,
}

/// Settings of a lending market.
#[derive(Clone, Copy, Debug, PartialEq, Eq, Structural)]
pub struct Constants {
    pub collaterization_rate: u64,
    pub collaterization_rate_precision: u64,
    pub liquidation_multiplier: u64,
    pub liquidation_multiplier_precision: u64,
    pub distribution_part: u64,
    pub distribution_precision: u64,
    pub borrow_opening_fee: u64,
    pub borrow_opening_fee_precision: u64,
    pub one_percent_rate: u64,
    /// Slots after which a price counts as stale.
    pub stale_after_slots_elapsed: u64,
    /// Seconds in which only the liquidator who began a liquidation may go
    /// on with it.
    pub complete_liquidation_duration: u64,
}

/// How interest accrues.
#[derive(Clone, Copy, Debug, PartialEq, Eq, Structural)]
pub struct AccrueInfo {
    /// When interest was last accrued; only moves forward.
    pub last_accrued: u64,
    /// Fees earned and not yet withdrawn.
    pub fees_earned: u128,
    /// Interest per second, in parts of 10^18.
    pub interest_per_second: u64,
}

/// One lending market.
#[derive(Clone, Copy, Debug, PartialEq, Eq)]
pub struct Cauldron {
    /// Owner of the market.
    pub authority: Pubkey,
    /// The price feed.
    pub switchboard_data_feed: Pubkey,
    pub constants: Constants,
    pub borrow_limit: BorrowCap,
    /// The vault the market keeps its funds in.
    pub bentobox: Pubkey,
    pub bentobox_program: Pubkey,
    /// Mint of the collateral.
    pub collateral: Pubkey,
    /// Mint of the token lent.
    pub magic_internet_money: Pubkey,
    pub accrue_info: AccrueInfo,
    /// When the interest rate was last changed.
    pub last_interest_update: u64,
    /// Who may withdraw the fees.
    pub fee_to: Pubkey,
}

/// One borrower's position.
#[derive(Clone, Copy, Debug, PartialEq, Eq, Structural)]
pub struct UserBalance {
    /// Collateral, in shares of the vault.
    pub collateral_share: u64,
    /// Part of the market's debt.
    pub borrow_part: u64,
}

/// The amounts of a market's debt as the market stores them.
#[derive(Clone, Copy, Debug, PartialEq, Eq, Structural)]
pub struct CauldronRebase {
    pub base: u128,
    pub elastic: u128,
}

impl From<Rebase> for CauldronRebase {
    fn from(rebase: Rebase) -> (r: CauldronRebase) {
        CauldronRebase { base: rebase.base, elastic: rebase.elastic }
    }
}

impl vstd::std_specs::convert::FromSpecImpl<Rebase> for CauldronRebase {
    open spec fn obeys_from_spec() -> bool {
        true
    }

    open spec fn from_spec(rebase: Rebase) -> CauldronRebase {
        CauldronRebase { base: rebase.base, elastic: rebase.elastic }
    }
}

impl From<CauldronRebase> for Rebase {
    fn from(stored: CauldronRebase) -> (r: Rebase) {
        Rebase { base: stored.base, elastic: stored.elastic }
    }
}

impl vstd::std_specs::convert::FromSpecImpl<CauldronRebase> for Rebase {
    open spec fn obeys_from_spec() -> bool {
        true
    }

    open spec fn from_spec(stored: CauldronRebase) -> Rebase {
        Rebase { base: stored.base, elastic: stored.elastic }
    }
}

/// The market's ledger.
#[derive(Clone, Copy, Debug, PartialEq, Eq, Structural)]
pub struct Total {
    /// Collateral supplied, in shares of the vault.
    pub collateral_share: u64,
    /// `base` is the sum of all borrowers' parts, `elastic` what is owed in
    /// total, interest included.
    pub borrow: Rebase,
}

/// A liquidation through a swap, between its first and its last step.
#[derive(Clone, Copy, Debug, PartialEq, Eq)]
pub struct LiquidatorAccount {
    /// Who began the liquidation, or went on with it last.
    pub origin_liquidator: Pubkey,
    /// Collateral taken from the borrower, to be swapped.
    pub collateral_share: u64,
    /// What the swap has to bring in at least.
    pub borrow_amount: u64,
    /// The same in shares of the vault.
    pub borrow_share: u64,
    /// What the swap brought in.
    pub real_amount: u64,
    /// Until when only `origin_liquidator` may go on.
    pub timestamp: u64,
}

impl LiquidatorAccount {
    /// A record that has been spent: closing it leaves nothing but zeros.
    pub open spec fn spec_closed() -> LiquidatorAccount {
        LiquidatorAccount {
            origin_liquidator: Pubkey::spec_default(),
            collateral_share: 0,
            borrow_amount: 0,
            borrow_share: 0,
            real_amount: 0,
            timestamp: 0,
        }
    }

    /// A spent record.
    pub fn closed() -> (r: LiquidatorAccount)
        ensures
            r == LiquidatorAccount::spec_closed(),
    {
        LiquidatorAccount {
            origin_liquidator: Pubkey::default(),
            collateral_share: 0,
            borrow_amount: 0,
            borrow_share: 0,
            real_amount: 0,
            timestamp: 0,
        }
    }
}

/// A price: `mantissa / 10^scale`.
#[derive(Clone, Copy, Debug, PartialEq, Eq, Structural)]
pub struct SwitchboardDecimal {
    pub mantissa: i128,
    pub scale: u32,
}

/// What the market reads of a price feed.
#[derive(Clone, Copy, Debug, PartialEq, Eq)]
pub struct DataFeed {
    /// The feed's own address.
    pub key: Pubkey,
    /// The program the feed belongs to.
    pub owner: Pubkey,
    /// Slot in which the latest confirmed round opened.
    pub round_open_slot: u64,
    /// Result of the latest confirmed round.
    pub result: SwitchboardDecimal,
}

} // verus!
