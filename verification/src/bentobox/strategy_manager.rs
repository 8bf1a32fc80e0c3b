use crate::bentobox::context::{Harvest, SafeHarvest, SetStrategy, SetStrategyTargetPercentage};
use crate::bentobox::error::ErrorCode;
use crate::bentobox::state::StrategyData;
use crate::bentobox::utils::{
    base_exit, base_safe_harvest, harvest_internal, spec_base_exit, spec_base_safe_harvest,
    spec_harvest_internal, with_elastic,
};
use crate::common::errors::ErrorCode as CommonErrorCode;
use crate::common::pubkey::Pubkey;
use crate::error::Error;
use crate::strategy::strategy_interface::Strategy;
use vstd::prelude::*;

verus! {

/// A fresh strategy record: no strategy queued, none active.
pub open spec fn spec_create_strategy_data() -> StrategyData {
    StrategyData {
        strategy_start_date: 0,
        target_percentage: 0,
        balance: 0,
        pending_strategy: Pubkey::spec_default(),
        active_strategy: Pubkey::spec_default(),
    }
}

/// Makes the strategy record of an asset.
pub fn create_strategy_data() -> (r: StrategyData)
    ensures
        r == spec_create_strategy_data(),
{
    StrategyData {
        strategy_start_date: 0,
        target_percentage: 0,
        balance: 0,
        pending_strategy: Pubkey::default(),
        active_strategy: Pubkey::default(),
    }
}

/// Sets the share of the asset that its strategy should hold, which may not
/// exceed the vault's maximum. On an error the accounts are left as they
/// were.
pub fn set_strategy_target_percentage(
    accounts: &mut SetStrategyTargetPercentage,
    target_percentage: u64,
) -> (r: Result<(), Error>)
    ensures
        target_percentage <= old(accounts).bentobox_account.constants.max_target_percentage ==> r
            is Ok && *final(accounts) == (SetStrategyTargetPercentage {
            strategy_data: StrategyData { target_percentage, ..old(accounts).strategy_data },
            ..*old(accounts)
        }),
        target_percentage > old(accounts).bentobox_account.constants.max_target_percentage ==> r
            == Err::<(), Error>(Error::Bentobox(ErrorCode::StrategyTargetPercentageTooHigh))
            && *final(accounts) == *old(accounts),
{
    if target_percentage > accounts.bentobox_account.constants.max_target_percentage {
        return Err(Error::Bentobox(ErrorCode::StrategyTargetPercentageTooHigh));
    }
    accounts.strategy_data.target_percentage = target_percentage;
    Ok(())
}

/// The ledger's amount once what an exit gained or lost is booked.
pub open spec fn spec_fold_exit(elastic: u128, balance_change: i64) -> Result<u128, CommonErrorCode> {
    if balance_change > 0 {
        if elastic + balance_change > u128::MAX {
            Err(CommonErrorCode::WrongIntegerAddition)
        } else {
            Ok((elastic + balance_change) as u128)
        }
    } else if elastic < -balance_change {
        Err(CommonErrorCode::WrongIntegerSubtraction)
    } else {
        Ok((elastic + balance_change) as u128)
    }
}

/// Books what an exit gained or lost.
pub fn fold_exit(elastic: u128, balance_change: i64) -> (r: Result<u128, CommonErrorCode>)
    ensures
        r == spec_fold_exit(elastic, balance_change),
{
    if balance_change > 0 {
        match elastic.checked_add(balance_change as u128) {
            Some(v) => Ok(v),
            None => Err(CommonErrorCode::WrongIntegerAddition),
        }
    } else {
        let sub: u128 = (-(balance_change as i128)) as u128;
        match elastic.checked_sub(sub) {
            Some(v) => Ok(v),
            None => Err(CommonErrorCode::WrongIntegerSubtraction),
        }
    }
}

/// The stage a strategy record is in.
#[derive(Clone, Copy, Debug, PartialEq, Eq)]
pub enum StrategyState {
    /// No strategy is active and none is queued.
    NoStrategy,
    /// A strategy is queued and becomes ready at the given time; another may
    /// still be active.
    Pending { target: Pubkey, ready_at: u64 },
    /// A strategy is active and none is queued.
    Active { target: Pubkey },
}

/// The stage that a strategy record is in.
pub open spec fn spec_strategy_state(strategy_data: StrategyData) -> StrategyState {
    if strategy_data.strategy_start_date != 0 {
        StrategyState::Pending {
            target: strategy_data.pending_strategy,
            ready_at: strategy_data.strategy_start_date,
        }
    } else if strategy_data.active_strategy != Pubkey::spec_default() {
        StrategyState::Active { target: strategy_data.active_strategy }
    } else {
        StrategyState::NoStrategy
    }
}

/// Tells the stage that a strategy record is in.
pub fn strategy_state(strategy_data: &StrategyData) -> (r: StrategyState)
    ensures
        r == spec_strategy_state(*strategy_data),
{
    if strategy_data.strategy_start_date != 0 {
        StrategyState::Pending {
            target: strategy_data.pending_strategy,
            ready_at: strategy_data.strategy_start_date,
        }
    } else if !strategy_data.active_strategy.is_default() {
        StrategyState::Active { target: strategy_data.active_strategy }
    } else {
        StrategyState::NoStrategy
    }
}

/// The strategy and the accounts after [`set_strategy`].
///
/// While nothing is queued, or another strategy than the one named is, the
/// named strategy is queued and becomes ready after the vault's delay. Naming
/// the queued strategy again activates it, once the time is at or past its
/// start date: the strategy active until then, if there is one, is exited and
/// what that gained or lost is booked to the ledger, and the new strategy
/// starts with nothing invested.
pub open spec fn spec_set_strategy<S: Strategy>(accounts: SetStrategy, strategy: S, now: u64) -> (
    S,
    Result<SetStrategy, Error>,
) {
    let data = accounts.strategy_data;
    if data.strategy_start_date == 0 || data.pending_strategy != accounts.strategy_account {
        if now + accounts.bentobox_account.strategy_delay > u64::MAX {
            (strategy, Err(Error::Common(CommonErrorCode::WrongIntegerAddition)))
        } else {
            (
                strategy,
                Ok(
                    SetStrategy {
                        strategy_data: StrategyData {
                            pending_strategy: accounts.strategy_account,
                            strategy_start_date: (now
                                + accounts.bentobox_account.strategy_delay) as u64,
                            ..data
                        },
                        ..accounts
                    },
                ),
            )
        }
    } else if now < data.strategy_start_date {
        (strategy, Err(Error::Bentobox(ErrorCode::TooEarlyStrategyStartData)))
    } else {
        let activated = StrategyData {
            active_strategy: data.pending_strategy,
            strategy_start_date: 0,
            balance: 0,
            pending_strategy: Pubkey::spec_default(),
            ..data
        };
        if data.active_strategy != Pubkey::spec_default() {
            let (s1, r1) = spec_base_exit(strategy, data.balance);
            match r1 {
                Err(e) => (s1, Err(e)),
                Ok(balance_change) => match spec_fold_exit(
                    accounts.total_data.amount.elastic,
                    balance_change,
                ) {
                    Err(e) => (s1, Err(Error::Common(e))),
                    Ok(elastic) => (
                        s1,
                        Ok(
                            SetStrategy {
                                strategy_data: activated,
                                total_data: with_elastic(accounts.total_data, elastic),
                                ..accounts
                            },
                        ),
                    ),
                },
            }
        } else {
            (strategy, Ok(SetStrategy { strategy_data: activated, ..accounts }))
        }
    }
}

/// Queues the strategy that the accounts name, or activates it where it is
/// queued already and its start date has come. `strategy` is the strategy
/// active so far, which is exited on activation; it is not called where none
/// is active. `now` is the time in seconds. On an error the accounts are left
/// as they were.
pub fn set_strategy<S: Strategy>(accounts: &mut SetStrategy, strategy: &mut S, now: u64) -> (r:
    Result<(), Error>)
    ensures
        *final(strategy) == spec_set_strategy(*old(accounts), *old(strategy), now).0,
        match r {
            Ok(_) => spec_set_strategy(*old(accounts), *old(strategy), now).1 == Ok::<
                SetStrategy,
                Error,
            >(*final(accounts)),
            Err(e) => spec_set_strategy(*old(accounts), *old(strategy), now).1 == Err::<
                SetStrategy,
                Error,
            >(e) && *final(accounts) == *old(accounts),
        },
{
    if accounts.strategy_data.strategy_start_date == 0 || accounts.strategy_data.pending_strategy
        != accounts.strategy_account {
        let start = match now.checked_add(accounts.bentobox_account.strategy_delay) {
            Some(v) => v,
            None => {
                return Err(Error::Common(CommonErrorCode::WrongIntegerAddition));
            },
        };
        accounts.strategy_data.pending_strategy = accounts.strategy_account;
        accounts.strategy_data.strategy_start_date = start;
    } else {
        if now < accounts.strategy_data.strategy_start_date {
            return Err(Error::Bentobox(ErrorCode::TooEarlyStrategyStartData));
        }
        if !accounts.strategy_data.active_strategy.is_default() {
            let balance_change = match base_exit(strategy, accounts.strategy_data.balance) {
                Ok(c) => c,
                Err(e) => {
                    return Err(e);
                },
            };
            let elastic = match fold_exit(accounts.total_data.amount.elastic, balance_change) {
                Ok(v) => v,
                Err(e) => {
                    return Err(Error::Common(e));
                },
            };
            accounts.total_data.amount.elastic = elastic;
        }
        accounts.strategy_data.active_strategy = accounts.strategy_data.pending_strategy;
        accounts.strategy_data.strategy_start_date = 0;
        accounts.strategy_data.balance = 0;
        accounts.strategy_data.pending_strategy = Pubkey::default();
    }
    Ok(())
}

/// Whether the accounts of a harvest name the asset's active strategy.
pub open spec fn spec_active_strategy_checks(
    strategy_data: StrategyData,
    strategy_account: Pubkey,
) -> Result<(), Error> {
    if strategy_data.active_strategy == Pubkey::spec_default() {
        Err(Error::Bentobox(ErrorCode::StrategyNotSet))
    } else if strategy_data.active_strategy != strategy_account {
        Err(Error::Bentobox(ErrorCode::InvalidStrategyAccount))
    } else {
        Ok(())
    }
}

fn active_strategy_checks(strategy_data: &StrategyData, strategy_account: &Pubkey) -> (r: Result<
    (),
    Error,
>)
    ensures
        r == spec_active_strategy_checks(*strategy_data, *strategy_account),
{
    if strategy_data.active_strategy.is_default() {
        return Err(Error::Bentobox(ErrorCode::StrategyNotSet));
    }
    if strategy_data.active_strategy != *strategy_account {
        return Err(Error::Bentobox(ErrorCode::InvalidStrategyAccount));
    }
    Ok(())
}

/// The strategy and the accounts after [`harvest`].
pub open spec fn spec_harvest<S: Strategy>(
    accounts: Harvest,
    strategy: S,
    balance: bool,
    max_change_amount: u64,
) -> (S, Result<Harvest, Error>) {
    match spec_active_strategy_checks(accounts.strategy_data, accounts.strategy_account) {
        Err(e) => (strategy, Err(e)),
        Ok(_) => {
            let (s1, r1) = spec_harvest_internal(
                strategy,
                accounts.total_data,
                accounts.strategy_data,
                balance,
                max_change_amount,
            );
            match r1 {
                Err(e) => (s1, Err(e)),
                Ok((total_data, strategy_data)) => (
                    s1,
                    Ok(Harvest { total_data, strategy_data, ..accounts }),
                ),
            }
        },
    }
}

/// Harvests the asset's active strategy and, if `balance` is set, moves it
/// towards its target share. On an error the accounts are left as they were.
pub fn harvest<S: Strategy>(
    accounts: &mut Harvest,
    strategy: &mut S,
    balance: bool,
    max_change_amount: u64,
) -> (r: Result<(), Error>)
    ensures
        *final(strategy) == spec_harvest(*old(accounts), *old(strategy), balance, max_change_amount).0,
        match r {
            Ok(_) => spec_harvest(*old(accounts), *old(strategy), balance, max_change_amount).1
                == Ok::<Harvest, Error>(*final(accounts)),
            Err(e) => spec_harvest(*old(accounts), *old(strategy), balance, max_change_amount).1
                == Err::<Harvest, Error>(e) && *final(accounts) == *old(accounts),
        },
{
    match active_strategy_checks(&accounts.strategy_data, &accounts.strategy_account) {
        Ok(_) => {},
        Err(e) => {
            return Err(e);
        },
    }
    let mut total_data = accounts.total_data;
    let mut strategy_data = accounts.strategy_data;
    match harvest_internal(
        balance,
        max_change_amount,
        strategy,
        &mut total_data,
        &mut strategy_data,
    ) {
        Ok(_) => {
            accounts.total_data = total_data;
            accounts.strategy_data = strategy_data;
            Ok(())
        },
        Err(e) => Err(e),
    }
}

impl SafeHarvest {
    /// Lets only the executor pass that the strategy has on record for the
    /// caller.
    pub fn only_executors(&self) -> (r: Result<(), Error>)
        ensures
            self.spec_only_executors() ==> r is Ok,
            !self.spec_only_executors() ==> r == Err::<(), Error>(
                Error::Bentobox(ErrorCode::UnauthorizedSafeHarvest),
            ),
    {
        if self.executor_info.user == self.authority && self.executor_info.is_executor {
            return Ok(());
        }
        Err(Error::Bentobox(ErrorCode::UnauthorizedSafeHarvest))
    }
}

/// The strategy and the accounts after [`safe_harvest`].
///
/// Only an executor of the strategy may ask. The strategy's ceiling is set
/// first, rewards claimed before that if asked for, and then the strategy is
/// harvested as by [`harvest`]: with the vault's total above the ceiling the
/// harvest finds nothing and is no error.
pub open spec fn spec_safe_harvest<S: Strategy>(
    accounts: SafeHarvest,
    strategy: S,
    max_balance: u64,
    rebalance: bool,
    max_change_amount: u64,
    harvest_rewards: bool,
) -> (S, Result<SafeHarvest, Error>) {
    match spec_active_strategy_checks(accounts.strategy_data, accounts.strategy_account) {
        Err(e) => (strategy, Err(e)),
        Ok(_) => if !accounts.spec_only_executors() {
            (strategy, Err(Error::Bentobox(ErrorCode::UnauthorizedSafeHarvest)))
        } else {
            let (s1, r1) = spec_base_safe_harvest(strategy, max_balance, harvest_rewards);
            match r1 {
                Err(e) => (s1, Err(e)),
                Ok(_) => {
                    let (s2, r2) = spec_harvest_internal(
                        s1,
                        accounts.total_data,
                        accounts.strategy_data,
                        rebalance,
                        max_change_amount,
                    );
                    match r2 {
                        Err(e) => (s2, Err(e)),
                        Ok((total_data, strategy_data)) => (
                            s2,
                            Ok(SafeHarvest { total_data, strategy_data, ..accounts }),
                        ),
                    }
                },
            }
        },
    }
}

/// Harvests under a ceiling: sets the most the vault may hold in total for
/// the strategy to be harvested at all, then harvests. On an error the
/// accounts are left as they were.
pub fn safe_harvest<S: Strategy>(
    accounts: &mut SafeHarvest,
    strategy: &mut S,
    max_balance: u64,
    rebalance: bool,
    max_change_amount: u64,
    harvest_rewards: bool,
) -> (r: Result<(), Error>)
    ensures
        *final(strategy) == spec_safe_harvest(
            *old(accounts),
            *old(strategy),
            max_balance,
            rebalance,
            max_change_amount,
            harvest_rewards,
        ).0,
        match r {
            Ok(_) => spec_safe_harvest(
                *old(accounts),
                *old(strategy),
                max_balance,
                rebalance,
                max_change_amount,
                harvest_rewards,
            ).1 == Ok::<SafeHarvest, Error>(*final(accounts)),
            Err(e) => spec_safe_harvest(
                *old(accounts),
                *old(strategy),
                max_balance,
                rebalance,
                max_change_amount,
                harvest_rewards,
            ).1 == Err::<SafeHarvest, Error>(e) && *final(accounts) == *old(accounts),
        },
{
    match active_strategy_checks(&accounts.strategy_data, &accounts.strategy_account) {
        Ok(_) => {},
        Err(e) => {
            return Err(e);
        },
    }
    match accounts.only_executors() {
        Ok(_) => {},
        Err(e) => {
            return Err(e);
        },
    }
    match base_safe_harvest(strategy, max_balance, harvest_rewards) {
        Ok(_) => {},
        Err(e) => {
            return Err(e);
        },
    }
    let mut total_data = accounts.total_data;
    let mut strategy_data = accounts.strategy_data;
    match harvest_internal(
        rebalance,
        max_change_amount,
        strategy,
        &mut total_data,
        &mut strategy_data,
    ) {
        Ok(_) => {
            accounts.total_data = total_data;
            accounts.strategy_data = strategy_data;
            Ok(())
        },
        Err(e) => Err(e),
    }
}

} // verus!
