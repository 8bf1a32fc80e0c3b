use bento_cauldron::bentobox::context::{Harvest, SafeHarvest, SetStrategy, SetStrategyTargetPercentage};
use bento_cauldron::bentobox::error::ErrorCode;
use bento_cauldron::bentobox::state::{BentoBox, Constants, StrategyData, Total};
use bento_cauldron::bentobox::strategy_manager::{
    create_strategy_data, fold_exit, harvest, safe_harvest, set_strategy,
    set_strategy_target_percentage, strategy_state, StrategyState,
};
use bento_cauldron::bentobox::utils::{
    apply_balance_change, base_exit, base_harvest, base_safe_harvest, base_skim, base_withdraw,
    exit_delta, harvest_internal, harvest_settlement, is_strategy_active, rebalance, Rebalance,
    Settlement,
};
use bento_cauldron::common::errors::ErrorCode as CommonErrorCode;
use bento_cauldron::common::pubkey::Pubkey;
use bento_cauldron::common::rebase::Rebase;
use bento_cauldron::common::token::TokenAccount;
use bento_cauldron::error::{Error, TokenError};
use bento_cauldron::strategy::errors::ErrorCode as StrategyErrorCode;
use bento_cauldron::strategy::state::{BaseStrategyInfo, ExecutorInfo};
use bento_cauldron::strategy::strategy_interface::Strategy;
use bento_cauldron::strategy_mock::error::ErrorCode as MockErrorCode;
use bento_cauldron::strategy_mock::program::{
    base_after_exit, initialize, set_strategy_executor, transfer_internal, MockStrategy,
};
use bento_cauldron::strategy_mock::state::check_basis_accounts;

fn hkey(n: u8) -> Pubkey {
    Pubkey { bytes: [n; 32] }
}

const MINT: u8 = 60;
const VAULT: u8 = 61;
const STRATEGY: u8 = 62;

fn tokens(k: u8, amount: u64) -> TokenAccount {
    TokenAccount { key: hkey(k), mint: hkey(MINT), owner: hkey(k + 100), amount }
}

/// A strategy whose ceiling lets a vault of up to a million be harvested.
fn strategy(pool: u64, own: u64, vault: u64) -> MockStrategy {
    MockStrategy {
        strategy_account: initialize(hkey(1), hkey(2), hkey(VAULT), hkey(3), hkey(4), 254),
        base_strategy_info_key: hkey(2),
        base_strategy_info: BaseStrategyInfo {
            strategy_token: hkey(MINT),
            exited: false,
            max_bentobox_balance: 1_000_000,
        },
        bentobox_account: hkey(VAULT),
        strategy_vault: tokens(5, own),
        pool_vault: tokens(4, pool),
        bentobox_vault: tokens(6, vault),
    }
}

fn total(elastic: u128) -> Total {
    Total {
        mint_address: hkey(MINT),
        amount: Rebase { base: 1_000, elastic },
        token_account: hkey(6),
    }
}

fn data(balance: u64, target_percentage: u64) -> StrategyData {
    StrategyData {
        balance,
        target_percentage,
        active_strategy: hkey(STRATEGY),
        ..create_strategy_data()
    }
}

#[test]
fn settlement_of_a_gain_sends_everything_to_the_vault() {
    assert_eq!(
        harvest_settlement(25, 40),
        Ok(Settlement { delta: 40, to_bentobox: 40, to_reinvest: 0 })
    );
    assert_eq!(harvest_settlement(0, 0), Ok(Settlement { delta: 0, to_bentobox: 0, to_reinvest: 0 }));
}

#[test]
fn settlement_of_a_loss_is_made_up_from_what_is_found() {
    // more found than lost: the rest is gain
    assert_eq!(
        harvest_settlement(-30, 50),
        Ok(Settlement { delta: 20, to_bentobox: 20, to_reinvest: 30 })
    );
    // less found than lost: all is invested again
    assert_eq!(
        harvest_settlement(-30, 10),
        Ok(Settlement { delta: -20, to_bentobox: 0, to_reinvest: 10 })
    );
    assert_eq!(
        harvest_settlement(-30, 30),
        Ok(Settlement { delta: 0, to_bentobox: 0, to_reinvest: 30 })
    );
    // nothing found
    assert_eq!(
        harvest_settlement(-700, 0),
        Ok(Settlement { delta: -700, to_bentobox: 0, to_reinvest: 0 })
    );
    assert_eq!(
        harvest_settlement(i64::MIN, 0),
        Ok(Settlement { delta: i64::MIN, to_bentobox: 0, to_reinvest: 0 })
    );
    assert_eq!(
        harvest_settlement(1, 1 << 63),
        Err(CommonErrorCode::TryIntoConversionError)
    );
}

#[test]
fn balance_change_is_booked() {
    assert_eq!(apply_balance_change(1000, 500, 0), Ok((1000, 500)));
    assert_eq!(apply_balance_change(1000, 500, 70), Ok((1070, 500)));
    assert_eq!(apply_balance_change(1000, 500, -70), Ok((930, 430)));
    assert_eq!(apply_balance_change(1000, 500, -500), Ok((500, 0)));
    assert_eq!(
        apply_balance_change(1000, 500, -700),
        Err(CommonErrorCode::WrongIntegerSubtraction)
    );
    assert_eq!(
        apply_balance_change(600, 5000, -700),
        Err(CommonErrorCode::WrongIntegerSubtraction)
    );
    assert_eq!(
        apply_balance_change(u128::MAX, 0, 1),
        Err(CommonErrorCode::WrongIntegerAddition)
    );
    assert_eq!(
        apply_balance_change(1 << 64, u64::MAX, i64::MIN),
        Ok(((1 << 64) - (1 << 63), u64::MAX - (1 << 63)))
    );
}

#[test]
fn rebalance_aims_at_the_target_share() {
    // 30% of 1000 is 300
    assert_eq!(rebalance(1000, 30, 100, 0), Ok(Rebalance::Invest(200)));
    assert_eq!(rebalance(1000, 30, 100, 50), Ok(Rebalance::Invest(50)));
    assert_eq!(rebalance(1000, 30, 100, 200), Ok(Rebalance::Invest(200)));
    assert_eq!(rebalance(1000, 30, 300, 0), Ok(Rebalance::Keep));
    assert_eq!(rebalance(1000, 30, 450, 0), Ok(Rebalance::Divest(150)));
    assert_eq!(rebalance(1000, 30, 450, 100), Ok(Rebalance::Divest(100)));
    // the target is rounded down: 33% of 10 is 3
    assert_eq!(rebalance(10, 33, 3, 0), Ok(Rebalance::Keep));
    assert_eq!(rebalance(0, 50, 7, 0), Ok(Rebalance::Divest(7)));
    assert_eq!(rebalance(u128::MAX, 2, 0, 0), Err(CommonErrorCode::WrongIntegerMultiplication));
    assert_eq!(
        rebalance(1 << 100, 100, 0, 0),
        Err(CommonErrorCode::TryIntoConversionError)
    );
    assert_eq!(rebalance(1 << 100, 100, 0, 9), Ok(Rebalance::Invest(9)));
}

#[test]
fn harvest_with_loss_beyond_strategy_balance() {
    // the vault believes 500 invested, the pool was drained past that
    let mut t = total(10_000);
    let mut d = data(500, 0);
    let mut s = ScriptedLoss { reported: -700, unreadable: false };
    let before = (t, d);
    assert_eq!(
        harvest_internal(false, 0, &mut s, &mut t, &mut d),
        Err(Error::Common(CommonErrorCode::WrongIntegerSubtraction))
    );
    assert_eq!((t, d), before);
    // with 700 or more believed invested the loss is booked on both sides
    let mut d = data(900, 0);
    harvest_internal(false, 0, &mut s, &mut t, &mut d).unwrap();
    assert_eq!(t.amount.elastic, 9_300);
    assert_eq!(d.balance, 200);
    // a strategy whose record cannot be read is not harvested
    s.unreadable = true;
    assert_eq!(harvest_internal(false, 0, &mut s, &mut t, &mut d), Err(Error::Program(7)));
    assert_eq!(d.balance, 200);
}

/// A strategy that reports a fixed loss and holds no tokens of its own.
struct ScriptedLoss {
    reported: i64,
    unreadable: bool,
}

impl Strategy for ScriptedLoss {
    fn spec_info(&self) -> Result<BaseStrategyInfo, Error> {
        unreachable!()
    }
    fn spec_vault_amount(&self) -> Result<u64, Error> {
        unreachable!()
    }
    fn spec_receive(&self, _: u64) -> (Self, Result<(), Error>) {
        unreachable!()
    }
    fn spec_skim(&self, _: u64) -> (Self, Result<(), Error>) {
        unreachable!()
    }
    fn spec_harvest(&self, _: u64) -> (Self, Result<i64, Error>) {
        unreachable!()
    }
    fn spec_withdraw(&self, _: u64) -> (Self, Result<(), Error>) {
        unreachable!()
    }
    fn spec_exit(&self) -> (Self, Result<(), Error>) {
        unreachable!()
    }
    fn spec_harvest_rewards(&self) -> (Self, Result<(), Error>) {
        unreachable!()
    }
    fn spec_safe_harvest(&self, _: u64) -> (Self, Result<(), Error>) {
        unreachable!()
    }
    fn spec_transfer(&self, _: u64) -> (Self, Result<(), Error>) {
        unreachable!()
    }
    fn info(&self) -> Result<BaseStrategyInfo, Error> {
        if self.unreadable {
            return Err(Error::Program(7));
        }
        Ok(BaseStrategyInfo { strategy_token: hkey(MINT), exited: false, max_bentobox_balance: u64::MAX })
    }
    fn vault_amount(&self) -> Result<u64, Error> {
        Ok(0)
    }
    fn receive(&mut self, _amount: u64) -> Result<(), Error> {
        Ok(())
    }
    fn skim(&mut self, _amount: u64) -> Result<(), Error> {
        Ok(())
    }
    fn harvest(&mut self, _balance: u64) -> Result<i64, Error> {
        Ok(self.reported)
    }
    fn withdraw(&mut self, _amount: u64) -> Result<(), Error> {
        Ok(())
    }
    fn exit(&mut self) -> Result<(), Error> {
        Ok(())
    }
    fn harvest_rewards(&mut self) -> Result<(), Error> {
        Ok(())
    }
    fn safe_harvest(&mut self, _max_balance: u64) -> Result<(), Error> {
        Ok(())
    }
    fn transfer(&mut self, _amount: u64) -> Result<(), Error> {
        Ok(())
    }
}

#[test]
fn harvest_books_a_gain_from_the_pool() {
    // the pool grew from 500 to 560
    let mut s = strategy(560, 0, 9_500);
    let mut t = total(10_000);
    let mut d = data(500, 0);
    harvest_internal(false, 0, &mut s, &mut t, &mut d).unwrap();
    assert_eq!(t.amount.elastic, 10_060);
    assert_eq!(d.balance, 500);
    assert_eq!(s.pool_vault.amount, 500);
    assert_eq!(s.strategy_vault.amount, 0);
    assert_eq!(s.bentobox_vault.amount, 9_560);
}

#[test]
fn harvest_counts_tokens_the_report_does_not_know_of() {
    // no gain in the pool, but 25 tokens sit in the strategy's account
    let mut s = strategy(500, 25, 9_500);
    assert_eq!(base_harvest(&mut s, 500, 10_000), Ok(25));
    assert_eq!(s.bentobox_vault.amount, 9_525);
    // a loss of 40 in the pool, 25 found: 15 lost, the 25 go back into the pool
    let mut s = strategy(460, 25, 9_500);
    assert_eq!(base_harvest(&mut s, 500, 10_000), Ok(-15));
    assert_eq!((s.pool_vault.amount, s.strategy_vault.amount), (485, 0));
    // a loss of 10 in the pool, 25 found: 15 gained, 10 go back into the pool
    let mut s = strategy(490, 25, 9_500);
    assert_eq!(base_harvest(&mut s, 500, 10_000), Ok(15));
    assert_eq!((s.pool_vault.amount, s.strategy_vault.amount), (500, 0));
    assert_eq!(s.bentobox_vault.amount, 9_515);
}

#[test]
fn harvest_twice_finds_nothing_the_second_time() {
    for (pool, own, rebalance_too) in
        [(560u64, 0u64, false), (430, 0, false), (460, 25, true), (500, 0, true), (900, 7, true)]
    {
        let mut s = strategy(pool, own, 9_500);
        let mut t = total(10_000);
        let mut d = data(500, 10);
        harvest_internal(rebalance_too, 0, &mut s, &mut t, &mut d).unwrap();
        assert_eq!(s.pool_vault.amount, d.balance);
        let settled = (s, t, d);
        assert_eq!(base_harvest(&mut s, d.balance, t.amount.elastic), Ok(0));
        harvest_internal(false, 0, &mut s, &mut t, &mut d).unwrap();
        assert_eq!((s, t, d), settled);
    }
}

#[test]
fn harvest_is_skipped_above_the_ceiling_or_with_nothing_invested() {
    let mut s = strategy(560, 0, 9_500);
    let before = s;
    assert_eq!(base_harvest(&mut s, 500, 1_000_001), Ok(0));
    assert_eq!(base_harvest(&mut s, 0, 10_000), Ok(0));
    assert_eq!(s, before);
    assert_eq!(base_harvest(&mut s, 500, 1_000_000), Ok(60));
}

#[test]
fn exited_strategy_is_not_harvested_or_withdrawn_from() {
    let mut s = strategy(560, 0, 9_500);
    s.base_strategy_info.exited = true;
    let exited = Err(Error::Bentobox(ErrorCode::StrategyIsExited));
    assert_eq!(is_strategy_active(&s.base_strategy_info), exited);
    assert_eq!(base_harvest(&mut s, 500, 10_000), Err(Error::Bentobox(ErrorCode::StrategyIsExited)));
    assert_eq!(base_withdraw(&mut s, 5), Err(Error::Bentobox(ErrorCode::StrategyIsExited)));
    assert_eq!(base_skim(&mut s, 0), Err(Error::Bentobox(ErrorCode::StrategyIsExited)));
    let mut t = total(10_000);
    let mut d = data(500, 10);
    assert_eq!(
        harvest_internal(true, 0, &mut s, &mut t, &mut d),
        Err(Error::Bentobox(ErrorCode::StrategyIsExited))
    );
    // exit may be called again
    assert_eq!(base_exit(&mut s, 500), Ok(60));
    assert_eq!(base_exit(&mut s, 0), Ok(0));
}

#[test]
fn rebalancing_invests_the_shortfall() {
    let mut s = strategy(500, 0, 9_500);
    let mut t = total(10_000);
    let mut d = data(500, 20);
    // 20% of 10_000 is 2_000
    harvest_internal(true, 0, &mut s, &mut t, &mut d).unwrap();
    assert_eq!(d.balance, 2_000);
    assert_eq!(s.pool_vault.amount, 2_000);
    assert_eq!(s.bentobox_vault.amount, 8_000);
    assert_eq!(t.amount.elastic, 10_000);
    // capped
    let mut s = strategy(500, 0, 9_500);
    let mut d = data(500, 20);
    harvest_internal(true, 300, &mut s, &mut t, &mut d).unwrap();
    assert_eq!((d.balance, s.pool_vault.amount, s.bentobox_vault.amount), (800, 800, 9_200));
    // the vault cannot send what it does not hold
    let mut s = strategy(500, 0, 100);
    let mut d = data(500, 20);
    assert_eq!(
        harvest_internal(true, 0, &mut s, &mut t, &mut d),
        Err(Error::Token(TokenError::InsufficientFunds))
    );
    assert_eq!(d.balance, 500);
}

#[test]
fn rebalancing_divests_the_excess() {
    let mut s = strategy(3_000, 0, 7_000);
    let mut t = total(10_000);
    let mut d = data(3_000, 20);
    harvest_internal(true, 0, &mut s, &mut t, &mut d).unwrap();
    assert_eq!((d.balance, s.pool_vault.amount, s.bentobox_vault.amount), (2_000, 2_000, 8_000));
    // with a gain first: the target is taken of the new total
    let mut s = strategy(3_100, 0, 7_000);
    let mut t = total(10_000);
    let mut d = data(3_000, 20);
    harvest_internal(true, 0, &mut s, &mut t, &mut d).unwrap();
    assert_eq!(t.amount.elastic, 10_100);
    assert_eq!((d.balance, s.pool_vault.amount, s.bentobox_vault.amount), (2_020, 2_020, 8_080));
}

#[test]
fn divesting_goes_by_what_arrives() {
    // 5 tokens sit in the strategy's account while the harvest is skipped;
    // asked for 100, the vault gets 105 and books 105
    let mut s = strategy(3_000, 5, 7_000);
    s.base_strategy_info.max_bentobox_balance = 0;
    let mut t = total(10_000);
    let mut d = data(3_000, 29);
    harvest_internal(true, 0, &mut s, &mut t, &mut d).unwrap();
    assert_eq!(d.balance, 2_895);
    assert_eq!(s.bentobox_vault.amount, 7_105);
    assert_eq!(t.amount.elastic, 10_000);
    assert_eq!(base_withdraw(&mut s, 10), Ok(10));
}

#[test]
fn mock_strategy_moves_tokens() {
    let mut s = strategy(100, 40, 7);
    base_skim(&mut s, 30).unwrap();
    assert_eq!((s.pool_vault.amount, s.strategy_vault.amount), (130, 10));
    assert_eq!(base_skim(&mut s, 11), Err(Error::Token(TokenError::InsufficientFunds)));
    s.receive(7).unwrap();
    assert_eq!((s.bentobox_vault.amount, s.strategy_vault.amount), (0, 17));
    s.transfer(17).unwrap();
    assert_eq!((s.bentobox_vault.amount, s.strategy_vault.amount), (17, 0));
    s.withdraw(130).unwrap();
    assert_eq!(s.withdraw(1), Err(Error::Token(TokenError::InsufficientFunds)));
    assert_eq!(s.harvest(u64::MAX), Err(Error::Common(CommonErrorCode::WrongIntegerSubtraction)));
    assert_eq!(s.harvest(10), Ok(-10));
    assert_eq!(s.harvest_rewards(), Ok(()));
    let mut a = tokens(1, 5);
    let mut b = tokens(2, u64::MAX - 1);
    assert_eq!(transfer_internal(&mut a, &mut b, 2), Err(Error::Token(TokenError::Overflow)));
    assert_eq!(transfer_internal(&mut a, &mut b, 1), Ok(()));
    assert_eq!((a.amount, b.amount), (4, u64::MAX));
}

#[test]
fn mock_strategy_checks_its_accounts() {
    let s = strategy(100, 0, 0);
    let check = |s: &MockStrategy| {
        check_basis_accounts(
            &s.strategy_account,
            &s.base_strategy_info_key,
            &s.base_strategy_info,
            &s.strategy_vault,
            &s.bentobox_account,
            &s.pool_vault.key,
        )
    };
    assert_eq!(check(&s), Ok(()));
    let mut x = s;
    x.base_strategy_info_key = hkey(9);
    assert_eq!(check(&x), Err(Error::StrategyMock(MockErrorCode::InvalidBaseStrategyInfoAccount)));
    let mut x = s;
    x.bentobox_account = hkey(9);
    assert_eq!(check(&x), Err(Error::StrategyMock(MockErrorCode::InvalidBentoBoxAccount)));
    let mut x = s;
    x.pool_vault.key = hkey(9);
    assert_eq!(check(&x), Err(Error::StrategyMock(MockErrorCode::InvalidPoolAccount)));
    assert_eq!(x.skim(0), Err(Error::StrategyMock(MockErrorCode::InvalidPoolAccount)));
    assert_eq!(x.exit(), Err(Error::StrategyMock(MockErrorCode::InvalidPoolAccount)));
    let mut x = s;
    x.strategy_vault.mint = hkey(9);
    assert_eq!(check(&x), Err(Error::StrategyMock(MockErrorCode::InvalidStrategyVaultAccount)));
}

#[test]
fn safe_harvest_sets_the_ceiling() {
    let mut s = strategy(0, 0, 0);
    base_safe_harvest(&mut s, 5_000, true).unwrap();
    assert_eq!(s.base_strategy_info.max_bentobox_balance, 5_000);
    // zero leaves the ceiling as it is
    base_safe_harvest(&mut s, 0, false).unwrap();
    assert_eq!(s.base_strategy_info.max_bentobox_balance, 5_000);
}

fn safe_accounts() -> SafeHarvest {
    SafeHarvest {
        strategy_account: hkey(STRATEGY),
        strategy_data: data(500, 0),
        total_data: total(10_000),
        authority: hkey(70),
        executor_info: ExecutorInfo { is_executor: true, user: hkey(70) },
    }
}

#[test]
fn safe_harvest_is_for_executors() {
    let mut s = strategy(560, 0, 9_500);
    let mut a = safe_accounts();
    a.executor_info.user = hkey(71);
    assert_eq!(
        safe_harvest(&mut a, &mut s, 20_000, false, 0, false),
        Err(Error::Bentobox(ErrorCode::UnauthorizedSafeHarvest))
    );
    let mut a = safe_accounts();
    set_strategy_executor(&mut a.executor_info, false);
    assert_eq!(a.only_executors(), Err(Error::Bentobox(ErrorCode::UnauthorizedSafeHarvest)));
    set_strategy_executor(&mut a.executor_info, true);
    assert_eq!(a.only_executors(), Ok(()));
    safe_harvest(&mut a, &mut s, 20_000, false, 0, false).unwrap();
    assert_eq!(a.total_data.amount.elastic, 10_060);
}

#[test]
fn safe_harvest_above_the_ceiling_is_no_error() {
    let mut s = strategy(560, 0, 9_500);
    let mut a = safe_accounts();
    let before = a;
    // the vault holds 10_000 in total, the ceiling is set to 9_999
    safe_harvest(&mut a, &mut s, 9_999, false, 0, true).unwrap();
    assert_eq!(a, before);
    assert_eq!(s.pool_vault.amount, 560);
}

#[test]
fn harvest_wants_the_active_strategy() {
    let mut s = strategy(560, 0, 9_500);
    let mut a =
        Harvest { strategy_account: hkey(STRATEGY), strategy_data: data(500, 0), total_data: total(10_000) };
    a.strategy_data.active_strategy = Pubkey::default();
    assert_eq!(harvest(&mut a, &mut s, false, 0), Err(Error::Bentobox(ErrorCode::StrategyNotSet)));
    a.strategy_data.active_strategy = hkey(9);
    assert_eq!(
        harvest(&mut a, &mut s, false, 0),
        Err(Error::Bentobox(ErrorCode::InvalidStrategyAccount))
    );
    a.strategy_data.active_strategy = hkey(STRATEGY);
    harvest(&mut a, &mut s, false, 0).unwrap();
    assert_eq!(a.total_data.amount.elastic, 10_060);
}

fn vault_record(delay: u64) -> BentoBox {
    BentoBox {
        authority: hkey(1),
        pending_authority: None,
        strategy_delay: delay,
        constants: Constants { minimum_share_balance: 1000, max_target_percentage: 95 },
    }
}

#[test]
fn strategy_is_queued_then_activated() {
    let mut s = strategy(0, 0, 0);
    let mut a = SetStrategy {
        strategy_account: hkey(STRATEGY),
        bentobox_account: vault_record(3_600),
        strategy_data: create_strategy_data(),
        total_data: total(10_000),
    };
    assert_eq!(strategy_state(&a.strategy_data), StrategyState::NoStrategy);
    set_strategy(&mut a, &mut s, 1_000).unwrap();
    assert_eq!(
        strategy_state(&a.strategy_data),
        StrategyState::Pending { target: hkey(STRATEGY), ready_at: 4_600 }
    );
    assert!(a.strategy_data.active_strategy.is_default());
    // too early
    let before = a;
    assert_eq!(
        set_strategy(&mut a, &mut s, 4_599),
        Err(Error::Bentobox(ErrorCode::TooEarlyStrategyStartData))
    );
    assert_eq!(a, before);
    // another target restarts the wait
    a.strategy_account = hkey(63);
    set_strategy(&mut a, &mut s, 2_000).unwrap();
    assert_eq!(
        strategy_state(&a.strategy_data),
        StrategyState::Pending { target: hkey(63), ready_at: 5_600 }
    );
    // at the start date the strategy becomes active
    set_strategy(&mut a, &mut s, 5_600).unwrap();
    assert_eq!(strategy_state(&a.strategy_data), StrategyState::Active { target: hkey(63) });
    assert_eq!(a.strategy_data.balance, 0);
    assert!(a.strategy_data.pending_strategy.is_default());
    assert_eq!(a.total_data.amount.elastic, 10_000);
    assert!(!s.base_strategy_info.exited);
}

#[test]
fn replacing_a_strategy_exits_the_old_one() {
    // the old strategy holds 520 where the vault believes 500
    let mut s = strategy(520, 0, 9_500);
    let mut a = SetStrategy {
        strategy_account: hkey(64),
        bentobox_account: vault_record(0),
        strategy_data: data(500, 10),
        total_data: total(10_000),
    };
    set_strategy(&mut a, &mut s, 100).unwrap();
    assert_eq!(a.strategy_data.strategy_start_date, 100);
    set_strategy(&mut a, &mut s, 100).unwrap();
    assert_eq!(a.strategy_data.active_strategy, hkey(64));
    assert_eq!(a.strategy_data.balance, 0);
    assert_eq!(a.strategy_data.target_percentage, 10);
    assert_eq!(a.total_data.amount.elastic, 10_020);
    assert!(s.base_strategy_info.exited);
    assert_eq!((s.pool_vault.amount, s.strategy_vault.amount, s.bentobox_vault.amount), (0, 0, 10_020));
}

#[test]
fn exit_books_a_loss() {
    assert_eq!(exit_delta(520, 500), Ok(20));
    assert_eq!(exit_delta(300, 500), Ok(-200));
    assert_eq!(exit_delta(u64::MAX, 0), Err(CommonErrorCode::WrongIntegerSubtraction));
    assert_eq!(fold_exit(10_000, 20), Ok(10_020));
    assert_eq!(fold_exit(10_000, -200), Ok(9_800));
    assert_eq!(fold_exit(10_000, 0), Ok(10_000));
    assert_eq!(fold_exit(100, -200), Err(CommonErrorCode::WrongIntegerSubtraction));
    assert_eq!(fold_exit(u128::MAX, 1), Err(CommonErrorCode::WrongIntegerAddition));
    let mut s = strategy(300, 0, 9_500);
    let mut a = SetStrategy {
        strategy_account: hkey(64),
        bentobox_account: vault_record(0),
        strategy_data: StrategyData {
            pending_strategy: hkey(64),
            strategy_start_date: 50,
            ..data(500, 10)
        },
        total_data: total(10_000),
    };
    set_strategy(&mut a, &mut s, 50).unwrap();
    assert_eq!(a.total_data.amount.elastic, 9_800);
}

#[test]
fn start_date_that_does_not_fit_is_refused() {
    let mut s = strategy(0, 0, 0);
    let mut a = SetStrategy {
        strategy_account: hkey(STRATEGY),
        bentobox_account: vault_record(u64::MAX),
        strategy_data: create_strategy_data(),
        total_data: total(10_000),
    };
    assert_eq!(
        set_strategy(&mut a, &mut s, 1),
        Err(Error::Common(CommonErrorCode::WrongIntegerAddition))
    );
}

#[test]
fn target_percentage_is_capped() {
    let mut a = SetStrategyTargetPercentage {
        strategy_data: create_strategy_data(),
        bentobox_account: vault_record(0),
    };
    set_strategy_target_percentage(&mut a, 95).unwrap();
    assert_eq!(a.strategy_data.target_percentage, 95);
    assert_eq!(
        set_strategy_target_percentage(&mut a, 96),
        Err(Error::Bentobox(ErrorCode::StrategyTargetPercentageTooHigh))
    );
    assert_eq!(a.strategy_data.target_percentage, 95);
}

#[test]
fn after_exit_needs_accounts() {
    assert_eq!(
        base_after_exit(vec![], "rescue", &vec![], hkey(1)),
        Err(Error::Strategy(StrategyErrorCode::EmptyAccountsListForAfterExit))
    );
}
