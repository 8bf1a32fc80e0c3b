use crate::common::token::TokenAccount;
use crate::common::pubkey::Pubkey;
use crate::error::Error;
use crate::strategy::state::BaseStrategyInfo;
use crate::strategy_mock::error::ErrorCode;
use vstd::prelude::*;

verus! {

/// The strategy's own record: who owns it and which accounts belong to it.
#[derive(Clone, Copy, Debug, PartialEq, Eq)]
pub struct StrategyMock {
    pub authority: Pubkey,
    /// Address of the shared strategy record.
    pub base_strategy_info: Pubkey,
    pub bentobox_program: Pubkey,
    /// The vault the strategy serves.
    pub bentobox_account: Pubkey,
    /// The pool's token account, in which the strategy invests.
    pub mock_pool: Pubkey,
    pub strategy_authority_bump: u8,
}

/// Whether the accounts handed to an operation are the strategy's own: the
/// shared record, the vault and the pool have to be the ones the strategy was
/// set up with, and the strategy's token account has to hold the strategy's
/// token. The first mismatch, in that order, is the error.
pub open spec fn spec_check_basis_accounts(
    strategy_account: StrategyMock,
    base_strategy_info_key: Pubkey,
    base_strategy_info: BaseStrategyInfo,
    strategy_vault: TokenAccount,
    bentobox_account: Pubkey,
    pool_vault: Pubkey,
) -> Result<(), Error> {
    if strategy_account.base_strategy_info != base_strategy_info_key {
        Err(Error::StrategyMock(ErrorCode::InvalidBaseStrategyInfoAccount))
    } else if strategy_account.bentobox_account != bentobox_account {
        Err(Error::StrategyMock(ErrorCode::InvalidBentoBoxAccount))
    } else if strategy_account.mock_pool != pool_vault {
        Err(Error::StrategyMock(ErrorCode::InvalidPoolAccount))
    } else if base_strategy_info.strategy_token != strategy_vault.mint {
        Err(Error::StrategyMock(ErrorCode::InvalidStrategyVaultAccount))
    } else {
        Ok(())
    }
}

/// Checks that the accounts handed to an operation are the strategy's own.
pub fn check_basis_accounts(
    strategy_account: &StrategyMock,
    base_strategy_info_key: &Pubkey,
    base_strategy_info: &BaseStrategyInfo,
    strategy_vault: &TokenAccount,
    bentobox_account: &Pubkey,
    pool_vault: &Pubkey,
) -> (r: Result<(), Error>)
    ensures
        r == spec_check_basis_accounts(
            *strategy_account,
            *base_strategy_info_key,
            *base_strategy_info,
            *strategy_vault,
            *bentobox_account,
            *pool_vault,
        ),
{
    if strategy_account.base_strategy_info != *base_strategy_info_key {
        return Err(Error::StrategyMock(ErrorCode::InvalidBaseStrategyInfoAccount));
    }
    if strategy_account.bentobox_account != *bentobox_account {
        return Err(Error::StrategyMock(ErrorCode::InvalidBentoBoxAccount));
    }
    if strategy_account.mock_pool != *pool_vault {
        return Err(Error::StrategyMock(ErrorCode::InvalidPoolAccount));
    }
    if base_strategy_info.strategy_token != strategy_vault.mint {
        return Err(Error::StrategyMock(ErrorCode::InvalidStrategyVaultAccount));
    }
    Ok(())
}

} // verus!
