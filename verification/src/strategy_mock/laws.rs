use crate::bentobox::laws::{at_rest, lemma_harvest_again_finds_nothing};
use crate::bentobox::state::{StrategyData, Total};
use crate::bentobox::utils::{
    spec_apply_balance_change, spec_base_harvest, spec_carry_out, spec_harvest_internal,
    spec_harvest_settlement, spec_rebalance, spec_settle, Rebalance,
};
use crate::error::Error;
use crate::strategy::strategy_interface::Strategy;
use crate::strategy_mock::program::MockStrategy;
use vstd::prelude::*;

verus! {

/// The strategy and the vault agree: the strategy's accounts are its own, it
/// has not been exited, its token account is empty, and the pool holds what
/// the vault believes invested.
pub open spec fn reconciled(strategy: MockStrategy, believed: u64) -> bool {
    &&& strategy.spec_check() is Ok
    &&& !strategy.base_strategy_info.exited
    &&& strategy.strategy_vault.amount == 0
    &&& strategy.pool_vault.amount == believed
}

/// A harvest that reaches the pool leaves strategy and vault in agreement,
/// once its gain or loss is booked.
#[verifier::rlimit(40)]
pub proof fn lemma_harvest_reconciles(strategy: MockStrategy, balance: u64, total_elastic: u128)
    requires
        total_elastic <= strategy.base_strategy_info.max_bentobox_balance,
        balance > 0,
        spec_base_harvest(strategy, balance, total_elastic).1 is Ok,
        spec_apply_balance_change(
            total_elastic,
            balance,
            spec_base_harvest(strategy, balance, total_elastic).1.unwrap(),
        ) is Ok,
    ensures
        reconciled(
            spec_base_harvest(strategy, balance, total_elastic).0,
            spec_apply_balance_change(
                total_elastic,
                balance,
                spec_base_harvest(strategy, balance, total_elastic).1.unwrap(),
            ).unwrap().1,
        ),
{
    let (s1, r1) = strategy.spec_harvest(balance);
    let amount = r1.unwrap();
    let settlement = spec_harvest_settlement(amount, s1.spec_vault_amount().unwrap()).unwrap();
    let (s2, r2) = spec_settle(s1, settlement);
    assert(r2 is Ok);
    assert(s1.spec_check() is Ok);
    if settlement.to_bentobox > 0 {
        let (s, r) = s1.spec_transfer(settlement.to_bentobox);
        assert(r is Ok);
        assert(s.spec_check() is Ok);
    }
}

/// A rebalancing move keeps strategy and vault in agreement.
#[verifier::rlimit(40)]
pub proof fn lemma_carry_out_keeps_reconciled(strategy: MockStrategy, plan: Rebalance, believed: u64)
    requires
        reconciled(strategy, believed),
        spec_carry_out(strategy, plan, believed).1 is Ok,
    ensures
        reconciled(
            spec_carry_out(strategy, plan, believed).0,
            spec_carry_out(strategy, plan, believed).1.unwrap(),
        ),
{
    match plan {
        Rebalance::Keep => {},
        Rebalance::Invest(amount) => {
            let (s1, r1) = strategy.spec_receive(amount);
            assert(r1 is Ok);
            assert(s1.spec_check() is Ok);
        },
        Rebalance::Divest(amount) => {
            let (s1, r1) = strategy.spec_withdraw(amount);
            assert(r1 is Ok);
            assert(s1.spec_check() is Ok);
            let (s2, r2) = s1.spec_transfer(s1.spec_vault_amount().unwrap());
            assert(r2 is Ok);
            assert(s2.spec_check() is Ok);
        },
    }
}

/// Harvest reconciliation for the pool-backed strategy. After a harvest
/// that reached the strategy and went through, with or without rebalancing,
/// a second harvest at once finds neither gain nor loss and leaves the
/// strategy as it is.
#[verifier::rlimit(40)]
pub proof fn lemma_second_harvest_is_zero(
    strategy: MockStrategy,
    total_data: Total,
    strategy_data: StrategyData,
    balance: bool,
    max_change_amount: u64,
)
    requires
        total_data.amount.elastic <= strategy.base_strategy_info.max_bentobox_balance,
        strategy_data.balance > 0,
        spec_harvest_internal(strategy, total_data, strategy_data, balance, max_change_amount).1
            is Ok,
    ensures
        ({
            let (after, r) = spec_harvest_internal(
                strategy,
                total_data,
                strategy_data,
                balance,
                max_change_amount,
            );
            let (total_after, data_after) = r.unwrap();
            spec_base_harvest(after, data_after.balance, total_after.amount.elastic) == (
                after,
                Ok::<i64, Error>(0i64),
            )
        }),
{
    lemma_harvest_leaves_at_rest(strategy, total_data, strategy_data, balance, max_change_amount);
    lemma_harvest_again_finds_nothing(
        strategy,
        total_data,
        strategy_data,
        balance,
        max_change_amount,
        0,
    );
}

/// The exited mark is a latch: no operation of the strategy clears it.
#[verifier::rlimit(40)]
pub proof fn lemma_exited_is_kept(strategy: MockStrategy, amount: u64)
    requires
        strategy.base_strategy_info.exited,
    ensures
        strategy.spec_receive(amount).0.base_strategy_info.exited,
        strategy.spec_skim(amount).0.base_strategy_info.exited,
        strategy.spec_harvest(amount).0.base_strategy_info.exited,
        strategy.spec_withdraw(amount).0.base_strategy_info.exited,
        strategy.spec_exit().0.base_strategy_info.exited,
        strategy.spec_harvest_rewards().0.base_strategy_info.exited,
        strategy.spec_safe_harvest(amount).0.base_strategy_info.exited,
        strategy.spec_transfer(amount).0.base_strategy_info.exited,
{
}

/// Where the pool-backed strategy and the vault agree, the strategy is at
/// rest.
pub proof fn lemma_reconciled_is_at_rest(strategy: MockStrategy, believed: u64)
    requires
        reconciled(strategy, believed),
    ensures
        at_rest(strategy, believed),
{
}

/// The pool-backed strategy is at rest after every harvest that reached it
/// and went through, with or without rebalancing.
#[verifier::rlimit(40)]
pub proof fn lemma_harvest_leaves_at_rest(
    strategy: MockStrategy,
    total_data: Total,
    strategy_data: StrategyData,
    balance: bool,
    max_change_amount: u64,
)
    requires
        total_data.amount.elastic <= strategy.base_strategy_info.max_bentobox_balance,
        strategy_data.balance > 0,
        spec_harvest_internal(strategy, total_data, strategy_data, balance, max_change_amount).1
            is Ok,
    ensures
        at_rest(
            spec_harvest_internal(strategy, total_data, strategy_data, balance, max_change_amount).0,
            spec_harvest_internal(
                strategy,
                total_data,
                strategy_data,
                balance,
                max_change_amount,
            ).1.unwrap().1.balance,
        ),
{
    let (s1, r1) = spec_base_harvest(strategy, strategy_data.balance, total_data.amount.elastic);
    let change = r1.unwrap();
    let (after, r) = spec_harvest_internal(
        strategy,
        total_data,
        strategy_data,
        balance,
        max_change_amount,
    );
    let (total_after, data_after) = r.unwrap();
    if change == 0 && !balance {
        assert(spec_apply_balance_change(
            total_data.amount.elastic,
            strategy_data.balance,
            change,
        ) is Ok);
        lemma_harvest_reconciles(strategy, strategy_data.balance, total_data.amount.elastic);
        lemma_reconciled_is_at_rest(s1, strategy_data.balance);
    } else {
        let (elastic, believed) = spec_apply_balance_change(
            total_data.amount.elastic,
            strategy_data.balance,
            change,
        ).unwrap();
        lemma_harvest_reconciles(strategy, strategy_data.balance, total_data.amount.elastic);
        if !balance {
            lemma_reconciled_is_at_rest(s1, believed);
        } else {
            let plan = spec_rebalance(
                elastic,
                strategy_data.target_percentage,
                believed,
                max_change_amount,
            ).unwrap();
            lemma_carry_out_keeps_reconciled(s1, plan, believed);
            lemma_reconciled_is_at_rest(after, data_after.balance);
        }
    }
}

} // verus!
