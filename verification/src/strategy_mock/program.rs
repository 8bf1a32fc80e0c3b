use crate::common::token::{move_tokens, spec_move_tokens, with_amount, TokenAccount};
use crate::common::errors::ErrorCode as CommonErrorCode;
use crate::common::pubkey::Pubkey;
use crate::error::Error;
use crate::common::utils::{
    build_instruction, concat, sha256, spec_preimage, AccountMeta, Instruction,
};
use crate::strategy::errors::ErrorCode as StrategyErrorCode;
use crate::strategy::state::{BaseStrategyInfo, ExecutorInfo};
use crate::strategy::strategy_interface::Strategy;
use crate::strategy_mock::state::{check_basis_accounts, spec_check_basis_accounts, StrategyMock};
use vstd::prelude::*;

verus! {

/// Moves `amount` tokens from one of the strategy's token accounts to
/// another. On an error neither account changes.
pub fn transfer_internal(from_vault: &mut TokenAccount, to_vault: &mut TokenAccount, amount: u64) -> (r:
    Result<(), Error>)
    ensures
        match spec_move_tokens(old(from_vault).amount, old(to_vault).amount, amount) {
            Ok((left, arrived)) => r is Ok && *final(from_vault) == with_amount(
                *old(from_vault),
                left,
            ) && *final(to_vault) == with_amount(*old(to_vault), arrived),
            Err(e) => r == Err::<(), Error>(e) && *final(from_vault) == *old(from_vault)
                && *final(to_vault) == *old(to_vault),
        },
{
    move_tokens(from_vault, to_vault, amount)
}

/// A strategy that invests in a single pool, together with the token
/// accounts it works on.
#[derive(Clone, Copy, Debug, PartialEq, Eq)]
pub struct MockStrategy {
    /// The strategy's own record.
    pub strategy_account: StrategyMock,
    /// Address of the shared record.
    pub base_strategy_info_key: Pubkey,
    /// The shared record.
    pub base_strategy_info: BaseStrategyInfo,
    /// The vault on whose behalf the strategy is called.
    pub bentobox_account: Pubkey,
    /// The strategy's own token account.
    pub strategy_vault: TokenAccount,
    /// The pool's token account.
    pub pool_vault: TokenAccount,
    /// The vault's token account.
    pub bentobox_vault: TokenAccount,
}

impl MockStrategy {
    /// Whether the accounts are the strategy's own.
    pub open spec fn spec_check(&self) -> Result<(), Error> {
        spec_check_basis_accounts(
            self.strategy_account,
            self.base_strategy_info_key,
            self.base_strategy_info,
            self.strategy_vault,
            self.bentobox_account,
            self.pool_vault.key,
        )
    }

    fn check(&self) -> (r: Result<(), Error>)
        ensures
            r == self.spec_check(),
    {
        check_basis_accounts(
            &self.strategy_account,
            &self.base_strategy_info_key,
            &self.base_strategy_info,
            &self.strategy_vault,
            &self.bentobox_account,
            &self.pool_vault.key,
        )
    }

    /// The strategy with other amounts in its own and the pool's account.
    pub open spec fn with_amounts(&self, strategy_vault: u64, pool_vault: u64) -> MockStrategy {
        MockStrategy {
            strategy_vault: TokenAccount { amount: strategy_vault, ..self.strategy_vault },
            pool_vault: TokenAccount { amount: pool_vault, ..self.pool_vault },
            ..*self
        }
    }

    /// The strategy after `amount` tokens have moved from the pool to its own
    /// token account.
    pub open spec fn spec_from_pool(&self, amount: u64) -> (MockStrategy, Result<(), Error>) {
        match spec_move_tokens(self.pool_vault.amount, self.strategy_vault.amount, amount) {
            Err(e) => (*self, Err(e)),
            Ok((pool, own)) => (self.with_amounts(own, pool), Ok(())),
        }
    }

    fn from_pool(&mut self, amount: u64) -> (r: Result<(), Error>)
        ensures
            (*final(self), r) == old(self).spec_from_pool(amount),
    {
        let mut pool = self.pool_vault;
        let mut own = self.strategy_vault;
        match transfer_internal(&mut pool, &mut own, amount) {
            Ok(_) => {
                self.pool_vault = pool;
                self.strategy_vault = own;
                Ok(())
            },
            Err(e) => Err(e),
        }
    }

    /// What the pool gained, or lost below zero, against `balance`.
    pub open spec fn spec_pool_delta(pool_amount: u64, balance: u64) -> Result<i64, Error> {
        if pool_amount - balance > i64::MAX || pool_amount - balance < i64::MIN {
            Err(Error::Common(CommonErrorCode::WrongIntegerSubtraction))
        } else {
            Ok((pool_amount - balance) as i64)
        }
    }
}

impl Strategy for MockStrategy {
    open spec fn spec_info(&self) -> Result<BaseStrategyInfo, Error> {
        Ok(self.base_strategy_info)
    }

    open spec fn spec_vault_amount(&self) -> Result<u64, Error> {
        Ok(self.strategy_vault.amount)
    }

    /// Tokens move from the vault's token account to the strategy's.
    open spec fn spec_receive(&self, amount: u64) -> (Self, Result<(), Error>) {
        match spec_move_tokens(self.bentobox_vault.amount, self.strategy_vault.amount, amount) {
            Err(e) => (*self, Err(e)),
            Ok((vault, own)) => (
                MockStrategy {
                    bentobox_vault: TokenAccount { amount: vault, ..self.bentobox_vault },
                    strategy_vault: TokenAccount { amount: own, ..self.strategy_vault },
                    ..*self
                },
                Ok(()),
            ),
        }
    }

    /// Tokens move from the strategy's token account into the pool.
    open spec fn spec_skim(&self, amount: u64) -> (Self, Result<(), Error>) {
        match self.spec_check() {
            Err(e) => (*self, Err(e)),
            Ok(_) => match spec_move_tokens(
                self.strategy_vault.amount,
                self.pool_vault.amount,
                amount,
            ) {
                Err(e) => (*self, Err(e)),
                Ok((own, pool)) => (self.with_amounts(own, pool), Ok(())),
            },
        }
    }

    /// The report is what the pool holds less `balance`; a gain is paid out
    /// of the pool into the strategy's token account.
    open spec fn spec_harvest(&self, balance: u64) -> (Self, Result<i64, Error>) {
        match self.spec_check() {
            Err(e) => (*self, Err(e)),
            Ok(_) => match MockStrategy::spec_pool_delta(self.pool_vault.amount, balance) {
                Err(e) => (*self, Err(e)),
                Ok(delta) => if delta > 0 {
                    let (s, r) = self.spec_from_pool(delta as u64);
                    match r {
                        Err(e) => (s, Err(e)),
                        Ok(_) => (s, Ok(delta)),
                    }
                } else {
                    (*self, Ok(delta))
                },
            },
        }
    }

    /// Tokens move from the pool to the strategy's token account.
    open spec fn spec_withdraw(&self, amount: u64) -> (Self, Result<(), Error>) {
        match self.spec_check() {
            Err(e) => (*self, Err(e)),
            Ok(_) => self.spec_from_pool(amount),
        }
    }

    /// The exited mark is set, and all the pool holds moves to the
    /// strategy's token account; where that fails nothing changes.
    open spec fn spec_exit(&self) -> (Self, Result<(), Error>) {
        match self.spec_check() {
            Err(e) => (*self, Err(e)),
            Ok(_) => {
                let marked = MockStrategy {
                    base_strategy_info: BaseStrategyInfo { exited: true, ..self.base_strategy_info },
                    ..*self
                };
                let (s, r) = marked.spec_from_pool(self.pool_vault.amount);
                match r {
                    Err(e) => (*self, Err(e)),
                    Ok(_) => (s, Ok(())),
                }
            },
        }
    }

    open spec fn spec_harvest_rewards(&self) -> (Self, Result<(), Error>) {
        (*self, self.spec_check())
    }

    /// The ceiling is set to `max_balance`, unless that is zero.
    open spec fn spec_safe_harvest(&self, max_balance: u64) -> (Self, Result<(), Error>) {
        match self.spec_check() {
            Err(e) => (*self, Err(e)),
            Ok(_) => if max_balance > 0 {
                (
                    MockStrategy {
                        base_strategy_info: BaseStrategyInfo {
                            max_bentobox_balance: max_balance,
                            ..self.base_strategy_info
                        },
                        ..*self
                    },
                    Ok(()),
                )
            } else {
                (*self, Ok(()))
            },
        }
    }

    /// Tokens move from the strategy's token account to the vault's.
    open spec fn spec_transfer(&self, amount: u64) -> (Self, Result<(), Error>) {
        match spec_move_tokens(self.strategy_vault.amount, self.bentobox_vault.amount, amount) {
            Err(e) => (*self, Err(e)),
            Ok((own, vault)) => (
                MockStrategy {
                    strategy_vault: TokenAccount { amount: own, ..self.strategy_vault },
                    bentobox_vault: TokenAccount { amount: vault, ..self.bentobox_vault },
                    ..*self
                },
                Ok(()),
            ),
        }
    }

    fn info(&self) -> (r: Result<BaseStrategyInfo, Error>) {
        Ok(self.base_strategy_info)
    }

    fn vault_amount(&self) -> (r: Result<u64, Error>) {
        Ok(self.strategy_vault.amount)
    }

    fn receive(&mut self, amount: u64) -> (r: Result<(), Error>) {
        let mut vault = self.bentobox_vault;
        let mut own = self.strategy_vault;
        match transfer_internal(&mut vault, &mut own, amount) {
            Ok(_) => {
                self.bentobox_vault = vault;
                self.strategy_vault = own;
                Ok(())
            },
            Err(e) => Err(e),
        }
    }

    fn skim(&mut self, amount: u64) -> (r: Result<(), Error>) {
        match self.check() {
            Ok(_) => {},
            Err(e) => {
                return Err(e);
            },
        }
        let mut own = self.strategy_vault;
        let mut pool = self.pool_vault;
        match transfer_internal(&mut own, &mut pool, amount) {
            Ok(_) => {
                self.strategy_vault = own;
                self.pool_vault = pool;
                Ok(())
            },
            Err(e) => Err(e),
        }
    }

    fn harvest(&mut self, balance: u64) -> (r: Result<i64, Error>) {
        match self.check() {
            Ok(_) => {},
            Err(e) => {
                return Err(e);
            },
        }
        let delta: i128 = self.pool_vault.amount as i128 - balance as i128;
        if delta > i64::MAX as i128 || delta < i64::MIN as i128 {
            return Err(Error::Common(CommonErrorCode::WrongIntegerSubtraction));
        }
        if delta > 0 {
            match self.from_pool(delta as u64) {
                Ok(_) => {},
                Err(e) => {
                    return Err(e);
                },
            }
        }
        Ok(delta as i64)
    }

    fn withdraw(&mut self, amount: u64) -> (r: Result<(), Error>) {
        match self.check() {
            Ok(_) => {},
            Err(e) => {
                return Err(e);
            },
        }
        self.from_pool(amount)
    }

    fn exit(&mut self) -> (r: Result<(), Error>) {
        match self.check() {
            Ok(_) => {},
            Err(e) => {
                return Err(e);
            },
        }
        let mut marked = *self;
        marked.base_strategy_info.exited = true;
        let amount = marked.pool_vault.amount;
        match marked.from_pool(amount) {
            Ok(_) => {
                *self = marked;
                Ok(())
            },
            Err(e) => Err(e),
        }
    }

    fn harvest_rewards(&mut self) -> (r: Result<(), Error>) {
        self.check()
    }

    fn safe_harvest(&mut self, max_balance: u64) -> (r: Result<(), Error>) {
        match self.check() {
            Ok(_) => {},
            Err(e) => {
                return Err(e);
            },
        }
        if max_balance > 0 {
            self.base_strategy_info.max_bentobox_balance = max_balance;
        }
        Ok(())
    }

    fn transfer(&mut self, amount: u64) -> (r: Result<(), Error>) {
        let mut own = self.strategy_vault;
        let mut vault = self.bentobox_vault;
        match transfer_internal(&mut own, &mut vault, amount) {
            Ok(_) => {
                self.strategy_vault = own;
                self.bentobox_vault = vault;
                Ok(())
            },
            Err(e) => Err(e),
        }
    }
}

/// Makes the strategy's own record.
pub fn initialize(
    authority: Pubkey,
    base_strategy_info: Pubkey,
    bentobox_account: Pubkey,
    bentobox_program: Pubkey,
    mock_pool: Pubkey,
    strategy_authority_bump: u8,
) -> (r: StrategyMock)
    ensures
        r == (StrategyMock {
            authority,
            base_strategy_info,
            bentobox_program,
            bentobox_account,
            mock_pool,
            strategy_authority_bump,
        }),
{
    StrategyMock {
        authority,
        base_strategy_info,
        bentobox_program,
        bentobox_account,
        mock_pool,
        strategy_authority_bump,
    }
}

/// Makes someone an executor of the strategy, or no longer one.
pub fn set_strategy_executor(executor_info: &mut ExecutorInfo, value: bool)
    ensures
        *final(executor_info) == (ExecutorInfo { is_executor: value, ..*old(executor_info) }),
{
    executor_info.is_executor = value;
}

/// The call by which the owner of an exited strategy has a program run the
/// handler `name` on the accounts given, of which there has to be one at
/// least: the handler is looked up in the namespace `global`.
pub fn base_after_exit(accounts: Vec<AccountMeta>, name: &str, args: &Vec<Vec<u8>>, program: Pubkey) -> (r:
    Result<Instruction, Error>)
    ensures
        accounts.len() == 0 ==> r == Err::<Instruction, Error>(
            Error::Strategy(StrategyErrorCode::EmptyAccountsListForAfterExit),
        ),
        accounts.len() > 0 ==> r is Ok && ({
            let instruction = r.unwrap();
            &&& instruction.program_id == program
            &&& instruction.accounts == accounts
            &&& instruction.data@ == sha256(spec_preimage("global", name)).subrange(0, 8) + concat(
                args@,
            )
        }),
{
    if accounts.len() == 0 {
        return Err(Error::Strategy(StrategyErrorCode::EmptyAccountsListForAfterExit));
    }
    Ok(build_instruction("global", name, args, program, accounts))
}

} // verus!
