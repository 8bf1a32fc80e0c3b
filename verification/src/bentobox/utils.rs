use crate::bentobox::error::ErrorCode;
use crate::bentobox::state::{
    AccountData, AccountInfo, MasterContractApproved, MasterContractWhitelisted, StrategyData, Total,
    APPROVED_MASTER_CONTRACT_PART, REMAINING_ACCOUNTS_COUNT_FOR_ALLOWED,
};
use crate::common::constants::{BENTOBOX_SEED_PART, CAULDRON_SEED_PART};
use crate::common::pubkey::{is_program_address, spec_is_program_address, Pubkey};
use crate::common::errors::ErrorCode as CommonErrorCode;
use crate::common::rebase::Rebase;
use crate::error::Error;
use crate::strategy::state::BaseStrategyInfo;
use crate::strategy::strategy_interface::Strategy;
use vstd::prelude::*;

verus! {

/// A strategy that has been exited is no longer harvested or withdrawn from.
pub open spec fn spec_is_strategy_active(base_strategy_info: BaseStrategyInfo) -> Result<
    (),
    Error,
> {
    if base_strategy_info.exited {
        Err(Error::Bentobox(ErrorCode::StrategyIsExited))
    } else {
        Ok(())
    }
}

/// Refuses a strategy that has been exited.
pub fn is_strategy_active(base_strategy_info: &BaseStrategyInfo) -> (r: Result<(), Error>)
    ensures
        r == spec_is_strategy_active(*base_strategy_info),
{
    if base_strategy_info.exited {
        return Err(Error::Bentobox(ErrorCode::StrategyIsExited));
    }
    Ok(())
}

/// What is done with the tokens found in a strategy's token account after a
/// harvest, and the gain or loss that the vault books.
#[derive(Clone, Copy, Debug, PartialEq, Eq, Structural)]
pub struct Settlement {
    /// Gain, or loss below zero, against the balance the vault believed in.
    pub delta: i64,
    /// Tokens sent on to the vault.
    pub to_bentobox: u64,
    /// Tokens invested again.
    pub to_reinvest: u64,
}

/// How a harvest is settled.
///
/// `amount` is what the strategy reports, `contract_balance` what its token
/// account is found to hold afterwards; tokens may sit there that the report
/// does not know of. With no loss reported everything found goes to the vault
/// as gain. A reported loss is first made up from what is found: what exceeds
/// the loss goes to the vault as gain and the rest is invested again. In
/// every case the two amounts together are all that was found. A balance
/// that does not fit a signed 64-bit number is refused.
pub open spec fn spec_harvest_settlement(amount: i64, contract_balance: u64) -> Result<
    Settlement,
    CommonErrorCode,
> {
    if contract_balance > i64::MAX {
        Err(CommonErrorCode::TryIntoConversionError)
    } else if amount >= 0 {
        Ok(Settlement { delta: contract_balance as i64, to_bentobox: contract_balance, to_reinvest: 0 })
    } else if contract_balance > 0 {
        if amount + contract_balance > 0 {
            Ok(
                Settlement {
                    delta: (amount + contract_balance) as i64,
                    to_bentobox: (amount + contract_balance) as u64,
                    to_reinvest: (-amount) as u64,
                },
            )
        } else {
            Ok(
                Settlement {
                    delta: (amount + contract_balance) as i64,
                    to_bentobox: 0,
                    to_reinvest: contract_balance,
                },
            )
        }
    } else {
        Ok(Settlement { delta: amount, to_bentobox: 0, to_reinvest: 0 })
    }
}

/// Decides how a harvest is settled.
pub fn harvest_settlement(amount: i64, contract_balance: u64) -> (r: Result<
    Settlement,
    CommonErrorCode,
>)
    ensures
        r == spec_harvest_settlement(amount, contract_balance),
        r matches Ok(s) ==> s.to_bentobox + s.to_reinvest == contract_balance,
{
    if contract_balance > i64::MAX as u64 {
        return Err(CommonErrorCode::TryIntoConversionError);
    }
    if amount >= 0 {
        Ok(Settlement { delta: contract_balance as i64, to_bentobox: contract_balance, to_reinvest: 0 })
    } else if contract_balance > 0 {
        let diff: i64 = amount + contract_balance as i64;
        if diff > 0 {
            Ok(
                Settlement {
                    delta: diff,
                    to_bentobox: diff as u64,
                    to_reinvest: (-(amount as i128)) as u64,
                },
            )
        } else {
            Ok(Settlement { delta: diff, to_bentobox: 0, to_reinvest: contract_balance })
        }
    } else {
        Ok(Settlement { delta: amount, to_bentobox: 0, to_reinvest: 0 })
    }
}

/// The strategy after a settlement has been carried out: first the transfer
/// to the vault, then the reinvestment, each only where its amount is above
/// zero.
pub open spec fn spec_settle<S: Strategy>(strategy: S, settlement: Settlement) -> (S, Result<
    (),
    Error,
>) {
    let (s1, r1) = if settlement.to_bentobox > 0 {
        strategy.spec_transfer(settlement.to_bentobox)
    } else {
        (strategy, Ok(()))
    };
    match r1 {
        Err(e) => (s1, Err(e)),
        Ok(_) => if settlement.to_reinvest > 0 {
            s1.spec_skim(settlement.to_reinvest)
        } else {
            (s1, Ok(()))
        },
    }
}

fn settle<S: Strategy>(strategy: &mut S, settlement: &Settlement) -> (r: Result<(), Error>)
    ensures
        (*final(strategy), r) == spec_settle(*old(strategy), *settlement),
{
    if settlement.to_bentobox > 0 {
        match strategy.transfer(settlement.to_bentobox) {
            Ok(_) => {},
            Err(e) => {
                return Err(e);
            },
        }
    }
    if settlement.to_reinvest > 0 {
        strategy.skim(settlement.to_reinvest)
    } else {
        Ok(())
    }
}

/// The shared record of a strategy that is still active: the record has to
/// be readable, and the strategy may not have been exited.
pub open spec fn spec_active<S: Strategy>(strategy: S) -> Result<BaseStrategyInfo, Error> {
    match strategy.spec_info() {
        Err(e) => Err(e),
        Ok(info) => match spec_is_strategy_active(info) {
            Err(e) => Err(e),
            Ok(_) => Ok(info),
        },
    }
}

fn active<S: Strategy>(strategy: &S) -> (r: Result<BaseStrategyInfo, Error>)
    ensures
        r == spec_active(*strategy),
{
    let info = match strategy.info() {
        Ok(v) => v,
        Err(e) => {
            return Err(e);
        },
    };
    match is_strategy_active(&info) {
        Ok(_) => Ok(info),
        Err(e) => Err(e),
    }
}

/// The strategy after [`base_skim`]: an exited strategy is refused,
/// another is asked to invest.
pub open spec fn spec_base_skim<S: Strategy>(strategy: S, amount: u64) -> (S, Result<(), Error>) {
    match spec_active(strategy) {
        Err(e) => (strategy, Err(e)),
        Ok(_) => strategy.spec_skim(amount),
    }
}

/// Has the strategy invest `amount` tokens that sit in its token account.
pub fn base_skim<S: Strategy>(strategy: &mut S, amount: u64) -> (r: Result<(), Error>)
    ensures
        (*final(strategy), r) == spec_base_skim(*old(strategy), amount),
{
    match active(strategy) {
        Ok(_) => {},
        Err(e) => {
            return Err(e);
        },
    }
    strategy.skim(amount)
}

/// The strategy after [`base_harvest`], and what it returns.
///
/// An exited strategy is refused. The strategy is only asked to harvest while
/// the vault's total is no more than the strategy's ceiling and the vault
/// believes something is invested; otherwise nothing happens and the result is
/// zero. After the strategy's own harvest the token account is read again and
/// the harvest settled as [`spec_harvest_settlement`] says.
pub open spec fn spec_base_harvest<S: Strategy>(strategy: S, balance: u64, total_elastic: u128) -> (
    S,
    Result<i64, Error>,
) {
    match spec_active(strategy) {
        Err(e) => (strategy, Err(e)),
        Ok(info) => if total_elastic <= info.max_bentobox_balance && balance > 0 {
            let (s1, r1) = strategy.spec_harvest(balance);
            match r1 {
                Err(e) => (s1, Err(e)),
                Ok(amount) => match s1.spec_vault_amount() {
                    Err(e) => (s1, Err(e)),
                    Ok(found) => match spec_harvest_settlement(amount, found) {
                        Err(e) => (s1, Err(Error::Common(e))),
                        Ok(settlement) => {
                            let (s2, r2) = spec_settle(s1, settlement);
                            match r2 {
                                Err(e) => (s2, Err(e)),
                                Ok(_) => (s2, Ok(settlement.delta)),
                            }
                        },
                    },
                },
            }
        } else {
            (strategy, Ok(0i64))
        },
    }
}

/// Harvests the strategy and hands the gain to the vault. Returns the gain,
/// or the loss below zero, against `balance`.
pub fn base_harvest<S: Strategy>(strategy: &mut S, balance: u64, total_elastic: u128) -> (r: Result<
    i64,
    Error,
>)
    ensures
        (*final(strategy), r) == spec_base_harvest(*old(strategy), balance, total_elastic),
{
    let info = match active(strategy) {
        Ok(v) => v,
        Err(e) => {
            return Err(e);
        },
    };
    if total_elastic <= info.max_bentobox_balance as u128 && balance > 0 {
        let amount = match strategy.harvest(balance) {
            Ok(a) => a,
            Err(e) => {
                return Err(e);
            },
        };
        let contract_balance = match strategy.vault_amount() {
            Ok(v) => v,
            Err(e) => {
                return Err(e);
            },
        };
        let settlement = match harvest_settlement(amount, contract_balance) {
            Ok(s) => s,
            Err(e) => {
                return Err(Error::Common(e));
            },
        };
        match settle(strategy, &settlement) {
            Ok(_) => Ok(settlement.delta),
            Err(e) => Err(e),
        }
    } else {
        Ok(0)
    }
}

/// The strategy after [`base_withdraw`], and what it returns: what the
/// strategy's token account holds once the strategy has withdrawn, all of
/// which goes to the vault.
pub open spec fn spec_base_withdraw<S: Strategy>(strategy: S, amount: u64) -> (
    S,
    Result<u64, Error>,
) {
    match spec_active(strategy) {
        Err(e) => (strategy, Err(e)),
        Ok(_) => {
            let (s1, r1) = strategy.spec_withdraw(amount);
            match r1 {
                Err(e) => (s1, Err(e)),
                Ok(_) => match s1.spec_vault_amount() {
                    Err(e) => (s1, Err(e)),
                    Ok(actual) => {
                        let (s2, r2) = s1.spec_transfer(actual);
                        match r2 {
                            Err(e) => (s2, Err(e)),
                            Ok(_) => (s2, Ok(actual)),
                        }
                    },
                },
            }
        },
    }
}

/// Asks the strategy for `amount` tokens and hands the vault what arrives.
/// Returns what arrived, which may differ from what was asked.
pub fn base_withdraw<S: Strategy>(strategy: &mut S, amount: u64) -> (r: Result<u64, Error>)
    ensures
        (*final(strategy), r) == spec_base_withdraw(*old(strategy), amount),
{
    match active(strategy) {
        Ok(_) => {},
        Err(e) => {
            return Err(e);
        },
    }
    match strategy.withdraw(amount) {
        Ok(_) => {},
        Err(e) => {
            return Err(e);
        },
    }
    let actual_amount = match strategy.vault_amount() {
        Ok(v) => v,
        Err(e) => {
            return Err(e);
        },
    };
    match strategy.transfer(actual_amount) {
        Ok(_) => Ok(actual_amount),
        Err(e) => Err(e),
    }
}

/// What an exit gained, or lost below zero, against `balance`: what was
/// found in the strategy's token account less what the vault believed
/// invested.
pub open spec fn spec_exit_delta(actual_balance: u64, balance: u64) -> Result<i64, CommonErrorCode> {
    if actual_balance - balance > i64::MAX || actual_balance - balance < i64::MIN {
        Err(CommonErrorCode::WrongIntegerSubtraction)
    } else {
        Ok((actual_balance - balance) as i64)
    }
}

/// Computes what an exit gained or lost.
pub fn exit_delta(actual_balance: u64, balance: u64) -> (r: Result<i64, CommonErrorCode>)
    ensures
        r == spec_exit_delta(actual_balance, balance),
{
    let delta: i128 = actual_balance as i128 - balance as i128;
    if delta > i64::MAX as i128 || delta < i64::MIN as i128 {
        Err(CommonErrorCode::WrongIntegerSubtraction)
    } else {
        Ok(delta as i64)
    }
}

/// The strategy after [`base_exit`], and what it returns.
pub open spec fn spec_base_exit<S: Strategy>(strategy: S, balance: u64) -> (S, Result<i64, Error>) {
    let (s1, r1) = strategy.spec_exit();
    match r1 {
        Err(e) => (s1, Err(e)),
        Ok(_) => match s1.spec_vault_amount() {
            Err(e) => (s1, Err(e)),
            Ok(actual) => match spec_exit_delta(actual, balance) {
                Err(e) => (s1, Err(Error::Common(e))),
                Ok(delta) => {
                    let (s2, r2) = s1.spec_transfer(actual);
                    match r2 {
                        Err(e) => (s2, Err(e)),
                        Ok(_) => (s2, Ok(delta)),
                    }
                },
            },
        },
    }
}

/// Has the strategy pull everything back and hands it all to the vault.
/// Returns the gain, or the loss below zero, against `balance`. The strategy
/// may have been exited before.
pub fn base_exit<S: Strategy>(strategy: &mut S, balance: u64) -> (r: Result<i64, Error>)
    ensures
        (*final(strategy), r) == spec_base_exit(*old(strategy), balance),
{
    match strategy.exit() {
        Ok(_) => {},
        Err(e) => {
            return Err(e);
        },
    }
    let actual_balance = match strategy.vault_amount() {
        Ok(v) => v,
        Err(e) => {
            return Err(e);
        },
    };
    let amount_added = match exit_delta(actual_balance, balance) {
        Ok(d) => d,
        Err(e) => {
            return Err(Error::Common(e));
        },
    };
    match strategy.transfer(actual_balance) {
        Ok(_) => Ok(amount_added),
        Err(e) => Err(e),
    }
}

/// The strategy after [`base_safe_harvest`], and what it returns.
pub open spec fn spec_base_safe_harvest<S: Strategy>(
    strategy: S,
    max_balance: u64,
    harvest_rewards: bool,
) -> (S, Result<(), Error>) {
    let (s1, r1) = if harvest_rewards {
        strategy.spec_harvest_rewards()
    } else {
        (strategy, Ok(()))
    };
    match r1 {
        Err(e) => (s1, Err(e)),
        Ok(_) => s1.spec_safe_harvest(max_balance),
    }
}

/// Claims rewards if asked to, then sets the strategy's ceiling.
pub fn base_safe_harvest<S: Strategy>(strategy: &mut S, max_balance: u64, harvest_rewards: bool) -> (r:
    Result<(), Error>)
    ensures
        (*final(strategy), r) == spec_base_safe_harvest(
            *old(strategy),
            max_balance,
            harvest_rewards,
        ),
{
    if harvest_rewards {
        match strategy.harvest_rewards() {
            Ok(_) => {},
            Err(e) => {
                return Err(e);
            },
        }
    }
    strategy.safe_harvest(max_balance)
}

/// The vault's total amount and believed strategy balance after a gain or
/// loss has been booked: a gain raises the total, a loss lowers both the
/// total and the balance.
pub open spec fn spec_apply_balance_change(elastic: u128, balance: u64, change: i64) -> Result<
    (u128, u64),
    CommonErrorCode,
> {
    if change > 0 {
        if elastic + change > u128::MAX {
            Err(CommonErrorCode::WrongIntegerAddition)
        } else {
            Ok(((elastic + change) as u128, balance))
        }
    } else if change < 0 {
        if elastic < -change || balance < -change {
            Err(CommonErrorCode::WrongIntegerSubtraction)
        } else {
            Ok(((elastic + change) as u128, (balance + change) as u64))
        }
    } else {
        Ok((elastic, balance))
    }
}

/// Books a gain or loss.
pub fn apply_balance_change(elastic: u128, balance: u64, change: i64) -> (r: Result<
    (u128, u64),
    CommonErrorCode,
>)
    ensures
        r == spec_apply_balance_change(elastic, balance, change),
{
    if change > 0 {
        match elastic.checked_add(change as u128) {
            Some(v) => Ok((v, balance)),
            None => Err(CommonErrorCode::WrongIntegerAddition),
        }
    } else if change < 0 {
        let sub: u64 = (-(change as i128)) as u64;
        let new_elastic = match elastic.checked_sub(sub as u128) {
            Some(v) => v,
            None => {
                return Err(CommonErrorCode::WrongIntegerSubtraction);
            },
        };
        match balance.checked_sub(sub) {
            Some(v) => Ok((new_elastic, v)),
            None => Err(CommonErrorCode::WrongIntegerSubtraction),
        }
    } else {
        Ok((elastic, balance))
    }
}

/// What rebalancing does.
#[derive(Clone, Copy, Debug, PartialEq, Eq, Structural)]
pub enum Rebalance {
    /// The strategy holds its target.
    Keep,
    /// Send this many tokens to the strategy.
    Invest(u64),
    /// Ask this many tokens back from the strategy.
    Divest(u64),
}

/// `amount`, or `max_change_amount` where that is not zero and smaller.
pub open spec fn spec_capped(amount: nat, max_change_amount: u64) -> nat {
    if max_change_amount != 0 && amount > max_change_amount {
        max_change_amount as nat
    } else {
        amount
    }
}

/// What rebalancing does, given the vault's total amount, the target share
/// in percent, the balance believed invested and the cap on one move. The
/// target balance is the share of the total, rounded down.
pub open spec fn spec_rebalance(
    elastic: u128,
    target_percentage: u64,
    balance: u64,
    max_change_amount: u64,
) -> Result<Rebalance, CommonErrorCode> {
    if elastic * target_percentage > u128::MAX {
        Err(CommonErrorCode::WrongIntegerMultiplication)
    } else {
        let target = (elastic * target_percentage) / 100;
        if balance < target {
            let amount = spec_capped((target - balance) as nat, max_change_amount);
            if amount > u64::MAX {
                Err(CommonErrorCode::TryIntoConversionError)
            } else {
                Ok(Rebalance::Invest(amount as u64))
            }
        } else if balance > target {
            Ok(Rebalance::Divest(spec_capped((balance - target) as nat, max_change_amount) as u64))
        } else {
            Ok(Rebalance::Keep)
        }
    }
}

/// Decides what rebalancing does.
pub fn rebalance(elastic: u128, target_percentage: u64, balance: u64, max_change_amount: u64) -> (r:
    Result<Rebalance, CommonErrorCode>)
    ensures
        r == spec_rebalance(elastic, target_percentage, balance, max_change_amount),
        r matches Ok(Rebalance::Invest(a)) ==> a > 0,
        r matches Ok(Rebalance::Divest(a)) ==> 0 < a <= balance,
{
    let target_balance = match elastic.checked_mul(target_percentage as u128) {
        Some(value) => value / 100,
        None => {
            return Err(CommonErrorCode::WrongIntegerMultiplication);
        },
    };
    let strategy_data_balance: u128 = balance as u128;
    if strategy_data_balance < target_balance {
        let mut amount_out = target_balance - strategy_data_balance;
        if max_change_amount != 0 && amount_out > max_change_amount as u128 {
            amount_out = max_change_amount as u128;
        }
        if amount_out > u64::MAX as u128 {
            Err(CommonErrorCode::TryIntoConversionError)
        } else {
            Ok(Rebalance::Invest(amount_out as u64))
        }
    } else if strategy_data_balance > target_balance {
        let mut amount_in = strategy_data_balance - target_balance;
        if max_change_amount != 0 && amount_in > max_change_amount as u128 {
            amount_in = max_change_amount as u128;
        }
        Ok(Rebalance::Divest(amount_in as u64))
    } else {
        Ok(Rebalance::Keep)
    }
}

/// The asset's ledger with another total amount.
pub open spec fn with_elastic(total: Total, elastic: u128) -> Total {
    Total { amount: Rebase { base: total.amount.base, elastic }, ..total }
}

/// The strategy record with another believed balance.
pub open spec fn with_balance(strategy_data: StrategyData, balance: u64) -> StrategyData {
    StrategyData { balance, ..strategy_data }
}

/// The strategy after a rebalancing move, and the balance the vault then
/// believes invested.
///
/// To invest, the tokens go from the vault's token account to the
/// strategy's, which then invests them. To divest, the strategy is asked for
/// the tokens and the balance comes down by what arrived, not by what was
/// asked.
pub open spec fn spec_carry_out<S: Strategy>(strategy: S, plan: Rebalance, balance: u64) -> (
    S,
    Result<u64, Error>,
) {
    match plan {
        Rebalance::Keep => (strategy, Ok(balance)),
        Rebalance::Invest(amount) => {
            let (s1, r1) = strategy.spec_receive(amount);
            match r1 {
                Err(e) => (s1, Err(e)),
                Ok(_) => if balance + amount > u64::MAX {
                    (s1, Err(Error::Common(CommonErrorCode::WrongIntegerAddition)))
                } else {
                    let (s2, r2) = spec_base_skim(s1, amount);
                    match r2 {
                        Err(e) => (s2, Err(e)),
                        Ok(_) => (s2, Ok((balance + amount) as u64)),
                    }
                },
            }
        },
        Rebalance::Divest(amount) => {
            let (s1, r1) = spec_base_withdraw(strategy, amount);
            match r1 {
                Err(e) => (s1, Err(e)),
                Ok(actual) => if balance < actual {
                    (s1, Err(Error::Common(CommonErrorCode::WrongIntegerSubtraction)))
                } else {
                    (s1, Ok((balance - actual) as u64))
                },
            }
        },
    }
}

fn carry_out<S: Strategy>(strategy: &mut S, plan: Rebalance, balance: u64) -> (r: Result<u64, Error>)
    ensures
        (*final(strategy), r) == spec_carry_out(*old(strategy), plan, balance),
{
    match plan {
        Rebalance::Keep => Ok(balance),
        Rebalance::Invest(amount) => {
            match strategy.receive(amount) {
                Ok(_) => {},
                Err(e) => {
                    return Err(e);
                },
            }
            let new_balance = match balance.checked_add(amount) {
                Some(v) => v,
                None => {
                    return Err(Error::Common(CommonErrorCode::WrongIntegerAddition));
                },
            };
            match base_skim(strategy, amount) {
                Ok(_) => Ok(new_balance),
                Err(e) => Err(e),
            }
        },
        Rebalance::Divest(amount) => {
            let actual_amount_in = match base_withdraw(strategy, amount) {
                Ok(v) => v,
                Err(e) => {
                    return Err(e);
                },
            };
            match balance.checked_sub(actual_amount_in) {
                Some(v) => Ok(v),
                None => Err(Error::Common(CommonErrorCode::WrongIntegerSubtraction)),
            }
        },
    }
}

/// The strategy after [`harvest_internal`], and on success the asset's
/// ledger and strategy record.
///
/// The strategy is harvested against the believed balance. With nothing
/// gained or lost and no rebalancing asked, nothing changes. Otherwise the
/// gain or loss is booked, and if rebalancing is asked the strategy is moved
/// towards its target share of the new total.
pub open spec fn spec_harvest_internal<S: Strategy>(
    strategy: S,
    total_data: Total,
    strategy_data: StrategyData,
    balance: bool,
    max_change_amount: u64,
) -> (S, Result<(Total, StrategyData), Error>) {
    let (s1, r1) = spec_base_harvest(strategy, strategy_data.balance, total_data.amount.elastic);
    match r1 {
        Err(e) => (s1, Err(e)),
        Ok(change) => if change == 0 && !balance {
            (s1, Ok((total_data, strategy_data)))
        } else {
            match spec_apply_balance_change(
                total_data.amount.elastic,
                strategy_data.balance,
                change,
            ) {
                Err(e) => (s1, Err(Error::Common(e))),
                Ok((elastic, believed)) => if !balance {
                    (
                        s1,
                        Ok((with_elastic(total_data, elastic), with_balance(strategy_data, believed))),
                    )
                } else {
                    match spec_rebalance(
                        elastic,
                        strategy_data.target_percentage,
                        believed,
                        max_change_amount,
                    ) {
                        Err(e) => (s1, Err(Error::Common(e))),
                        Ok(plan) => {
                            let (s2, r2) = spec_carry_out(s1, plan, believed);
                            match r2 {
                                Err(e) => (s2, Err(e)),
                                Ok(invested) => (
                                    s2,
                                    Ok(
                                        (
                                            with_elastic(total_data, elastic),
                                            with_balance(strategy_data, invested),
                                        ),
                                    ),
                                ),
                            }
                        },
                    }
                },
            }
        },
    }
}

/// Harvests the asset's strategy, books the gain or loss, and rebalances if
/// `balance` is set, moving at most `max_change_amount` tokens unless that is
/// zero. On an error the ledger and the strategy record are left as they
/// were.
#[verifier::rlimit(40)]
pub fn harvest_internal<S: Strategy>(
    balance: bool,
    max_change_amount: u64,
    strategy: &mut S,
    total_data: &mut Total,
    strategy_data: &mut StrategyData,
) -> (r: Result<(), Error>)
    ensures
        *final(strategy) == spec_harvest_internal(
            *old(strategy),
            *old(total_data),
            *old(strategy_data),
            balance,
            max_change_amount,
        ).0,
        match r {
            Ok(_) => spec_harvest_internal(
                *old(strategy),
                *old(total_data),
                *old(strategy_data),
                balance,
                max_change_amount,
            ).1 == Ok::<(Total, StrategyData), Error>((*final(total_data), *final(strategy_data))),
            Err(e) => spec_harvest_internal(
                *old(strategy),
                *old(total_data),
                *old(strategy_data),
                balance,
                max_change_amount,
            ).1 == Err::<(Total, StrategyData), Error>(e) && *final(total_data) == *old(total_data)
                && *final(strategy_data) == *old(strategy_data),
        },
{
    let balance_change = match base_harvest(
        strategy,
        strategy_data.balance,
        total_data.amount.elastic,
    ) {
        Ok(c) => c,
        Err(e) => {
            return Err(e);
        },
    };
    if balance_change == 0 && !balance {
        return Ok(());
    }
    let (elastic, believed) = match apply_balance_change(
        total_data.amount.elastic,
        strategy_data.balance,
        balance_change,
    ) {
        Ok(v) => v,
        Err(e) => {
            return Err(Error::Common(e));
        },
    };
    let mut invested = believed;
    if balance {
        let plan = match rebalance(
            elastic,
            strategy_data.target_percentage,
            believed,
            max_change_amount,
        ) {
            Ok(p) => p,
            Err(e) => {
                return Err(Error::Common(e));
            },
        };
        invested = match carry_out(strategy, plan, believed) {
                Ok(v) => v,
                Err(e) => {
                    return Err(e);
                },
            };
    }
    total_data.amount.elastic = elastic;
    strategy_data.balance = invested;
    Ok(())
}

/// The record of a whitelisted master contract that an account holds, if
/// the account belongs to the vault program and holds one.
pub open spec fn spec_as_whitelisted(account: AccountInfo, program_id: Pubkey) -> Option<
    MasterContractWhitelisted,
> {
    match account.data {
        AccountData::MasterContractWhitelisted(w) => if account.owner == program_id {
            Some(w)
        } else {
            None
        },
        _ => None,
    }
}

/// The approval record that an account holds, if the account belongs to the
/// vault program and holds one.
pub open spec fn spec_as_approved(account: AccountInfo, program_id: Pubkey) -> Option<
    MasterContractApproved,
> {
    match account.data {
        AccountData::MasterContractApproved(a) => if account.owner == program_id {
            Some(a)
        } else {
            None
        },
        _ => None,
    }
}

/// Reads the record of a whitelisted master contract off an account.
pub fn as_whitelisted(account: &AccountInfo, program_id: &Pubkey) -> (r: Option<
    MasterContractWhitelisted,
>)
    ensures
        r == spec_as_whitelisted(*account, *program_id),
{
    match account.data {
        AccountData::MasterContractWhitelisted(w) => if account.owner == *program_id {
            Some(w)
        } else {
            None
        },
        _ => None,
    }
}

/// Reads a holder's approval record off an account.
pub fn as_approved(account: &AccountInfo, program_id: &Pubkey) -> (r: Option<MasterContractApproved>)
    ensures
        r == spec_as_approved(*account, *program_id),
{
    match account.data {
        AccountData::MasterContractApproved(a) => if account.owner == *program_id {
            Some(a)
        } else {
            None
        },
        _ => None,
    }
}

/// Whether a master contract may act for a holder, given the three accounts
/// it hands in: the record that whitelists the master contract, the holder's
/// approval of it, and the master contract's own account.
///
/// The master contract's account has to be the one the whitelist record
/// names; the caller has to be the authority address derived for that
/// account under its program; and the approval has to point at the whitelist
/// record, sit at the address derived for this vault, master contract and
/// holder, and be switched on.
pub open spec fn spec_master_contract_allowed(
    from_owner: Pubkey,
    authority: Pubkey,
    bentobox_account: Pubkey,
    remaining_accounts: Seq<AccountInfo>,
    bentobox_program_id: Pubkey,
) -> Result<(), Error> {
    if remaining_accounts.len() == 0 {
        Err(Error::Bentobox(ErrorCode::AllowedRemainingAccountsAreEmpty))
    } else if remaining_accounts.len() != REMAINING_ACCOUNTS_COUNT_FOR_ALLOWED {
        Err(Error::Bentobox(ErrorCode::InvalidRemainingAccountsCount))
    } else {
        match spec_as_whitelisted(remaining_accounts[0], bentobox_program_id) {
            None => Err(Error::Bentobox(ErrorCode::MasterContractWhitelistedAccountInvalid)),
            Some(whitelisted) => match spec_as_approved(remaining_accounts[1], bentobox_program_id) {
                None => Err(Error::Bentobox(ErrorCode::MasterContractApprovedAccountInvalid)),
                Some(approved) => {
                    let master_contract = remaining_accounts[2];
                    if master_contract.key != whitelisted.master_contract_account {
                        Err(Error::Bentobox(ErrorCode::InvalidCauldronAccount))
                    } else if !spec_is_program_address(
                        authority,
                        CAULDRON_SEED_PART@,
                        seq![master_contract.key],
                        master_contract.owner,
                    ) {
                        Err(Error::Bentobox(ErrorCode::CauldronSignMismatch))
                    } else if !(approved.master_contract_whitelisted == remaining_accounts[0].key
                        && spec_is_program_address(
                        remaining_accounts[1].key,
                        APPROVED_MASTER_CONTRACT_PART@,
                        seq![bentobox_account, whitelisted.master_contract_account, from_owner],
                        bentobox_program_id,
                    ) && approved.approved) {
                        Err(Error::Bentobox(ErrorCode::MasterContractNotApproved))
                    } else {
                        Ok(())
                    }
                },
            },
        }
    }
}

/// Whether `authority` may use the funds of `from_owner`: always where it is
/// the holder itself or the vault's own authority address, and otherwise
/// where it is a master contract that the holder has approved.
pub open spec fn spec_allowed(
    from_owner: Pubkey,
    authority: Pubkey,
    bentobox_account: Pubkey,
    remaining_accounts: Seq<AccountInfo>,
    bentobox_program_id: Pubkey,
) -> Result<(), Error> {
    if from_owner == authority || spec_is_program_address(
        authority,
        BENTOBOX_SEED_PART@,
        seq![bentobox_account],
        bentobox_program_id,
    ) {
        Ok(())
    } else {
        spec_master_contract_allowed(
            from_owner,
            authority,
            bentobox_account,
            remaining_accounts,
            bentobox_program_id,
        )
    }
}

/// Checks that `authority` may use the funds of `from_owner`.
#[verifier::rlimit(40)]
pub fn allowed(
    from_owner: &Pubkey,
    authority: &Pubkey,
    bentobox_account: &Pubkey,
    remaining_accounts: &Vec<AccountInfo>,
    bentobox_program_id: &Pubkey,
) -> (r: Result<(), Error>)
    ensures
        r == spec_allowed(
            *from_owner,
            *authority,
            *bentobox_account,
            remaining_accounts@,
            *bentobox_program_id,
        ),
{
    let mut vault_keys: Vec<Pubkey> = Vec::new();
    vault_keys.push(*bentobox_account);
    assert(vault_keys@ =~= seq![*bentobox_account]);
    let is_vault_authority = is_program_address(
        authority,
        BENTOBOX_SEED_PART.as_slice(),
        &vault_keys,
        bentobox_program_id,
    );
    if *from_owner != *authority && !is_vault_authority {
        if remaining_accounts.len() == 0 {
            return Err(Error::Bentobox(ErrorCode::AllowedRemainingAccountsAreEmpty));
        }
        if remaining_accounts.len() != REMAINING_ACCOUNTS_COUNT_FOR_ALLOWED {
            return Err(Error::Bentobox(ErrorCode::InvalidRemainingAccountsCount));
        }
        let whitelisted_account = match as_whitelisted(&remaining_accounts[0], bentobox_program_id) {
            Some(account) => account,
            None => {
                return Err(Error::Bentobox(ErrorCode::MasterContractWhitelistedAccountInvalid));
            },
        };
        let approved_account = match as_approved(&remaining_accounts[1], bentobox_program_id) {
            Some(account) => account,
            None => {
                return Err(Error::Bentobox(ErrorCode::MasterContractApprovedAccountInvalid));
            },
        };
        let master_contract_account = remaining_accounts[2];
        if master_contract_account.key != whitelisted_account.master_contract_account {
            return Err(Error::Bentobox(ErrorCode::InvalidCauldronAccount));
        }
        let mut master_keys: Vec<Pubkey> = Vec::new();
        master_keys.push(master_contract_account.key);
        assert(master_keys@ =~= seq![master_contract_account.key]);
        if !is_program_address(
            authority,
            CAULDRON_SEED_PART.as_slice(),
            &master_keys,
            &master_contract_account.owner,
        ) {
            return Err(Error::Bentobox(ErrorCode::CauldronSignMismatch));
        }
        let mut approval_keys: Vec<Pubkey> = Vec::new();
        approval_keys.push(*bentobox_account);
        approval_keys.push(whitelisted_account.master_contract_account);
        approval_keys.push(*from_owner);
        assert(approval_keys@ =~= seq![
            *bentobox_account,
            whitelisted_account.master_contract_account,
            *from_owner,
        ]);
        let at_derived_address = is_program_address(
            &remaining_accounts[1].key,
            APPROVED_MASTER_CONTRACT_PART.as_slice(),
            &approval_keys,
            bentobox_program_id,
        );
        if !(approved_account.master_contract_whitelisted == remaining_accounts[0].key
            && at_derived_address && approved_account.approved) {
            return Err(Error::Bentobox(ErrorCode::MasterContractNotApproved));
        }
    }
    Ok(())
}

} // verus!
