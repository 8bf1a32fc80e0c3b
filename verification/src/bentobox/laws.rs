use crate::bentobox::context::{Deposit, TransferInternal, Withdraw};
use crate::bentobox::error::ErrorCode;
use crate::bentobox::instructions::{
    spec_deposit, spec_pay, spec_transfer, spec_withdraw, spec_withdraw_checks,
    spec_withdraw_commit,
};
use crate::bentobox::state::{AccountInfo, AmountShareOut, Balance, StrategyData, Total};
use crate::bentobox::utils::{
    spec_active, spec_base_harvest, spec_harvest_internal, spec_harvest_settlement, spec_settle,
};
use crate::strategy::strategy_interface::Strategy;
use crate::common::pubkey::Pubkey;
use crate::common::rebase::Rebase;
use crate::error::Error;
use vstd::prelude::*;

verus! {

/// One asset of the vault with all its holders: the asset's ledger, and the
/// shares of each holder.
pub struct Holders {
    pub total_data: Total,
    pub balances: Seq<Balance>,
}

/// The shares that the holders hold together.
pub open spec fn sum(balances: Seq<Balance>) -> nat
    decreases balances.len(),
{
    if balances.len() == 0 {
        0
    } else {
        sum(balances.drop_last()) + balances.last().amount as nat
    }
}

/// The holders hold together exactly the shares that the ledger counts.
pub open spec fn conserved(holders: Holders) -> bool {
    sum(holders.balances) == holders.total_data.amount.base
}

/// One operation on an asset: who it is for, and the accounts and
/// arguments it is called with. The asset's ledger and the holder's shares
/// are taken from the state it is applied to, not from the accounts.
pub enum Operation {
    Deposit {
        holder: int,
        program_id: Pubkey,
        accounts: Deposit,
        remaining_accounts: Seq<AccountInfo>,
        amount: u64,
        share: u64,
    },
    Withdraw {
        holder: int,
        program_id: Pubkey,
        accounts: Withdraw,
        remaining_accounts: Seq<AccountInfo>,
        from: Pubkey,
        amount: u64,
        share: u64,
    },
    Transfer {
        giver: int,
        receiver: int,
        program_id: Pubkey,
        accounts: TransferInternal,
        remaining_accounts: Seq<AccountInfo>,
        from: Pubkey,
        share: u64,
    },
}

/// The state after an operation. An operation that fails, or names a holder
/// that is not there, or moves shares from a holder to the same holder,
/// leaves the state as it is.
pub open spec fn apply(holders: Holders, operation: Operation) -> Holders {
    match operation {
        Operation::Deposit { holder, program_id, accounts, remaining_accounts, amount, share } => {
            if 0 <= holder < holders.balances.len() {
                match spec_deposit(
                    program_id,
                    Deposit {
                        total_data: holders.total_data,
                        balance: holders.balances[holder],
                        ..accounts
                    },
                    remaining_accounts,
                    amount,
                    share,
                ) {
                    Ok((after, _)) => Holders {
                        total_data: after.total_data,
                        balances: holders.balances.update(holder, after.balance),
                    },
                    Err(_) => holders,
                }
            } else {
                holders
            }
        },
        Operation::Withdraw {
            holder,
            program_id,
            accounts,
            remaining_accounts,
            from,
            amount,
            share,
        } => {
            if 0 <= holder < holders.balances.len() {
                match spec_withdraw(
                    program_id,
                    Withdraw {
                        total_data: holders.total_data,
                        balance: holders.balances[holder],
                        ..accounts
                    },
                    remaining_accounts,
                    from,
                    amount,
                    share,
                ) {
                    Ok((after, _)) => Holders {
                        total_data: after.total_data,
                        balances: holders.balances.update(holder, after.balance),
                    },
                    Err(_) => holders,
                }
            } else {
                holders
            }
        },
        Operation::Transfer {
            giver,
            receiver,
            program_id,
            accounts,
            remaining_accounts,
            from,
            share,
        } => {
            if 0 <= giver < holders.balances.len() && 0 <= receiver < holders.balances.len()
                && giver != receiver {
                match spec_transfer(
                    program_id,
                    TransferInternal {
                        balance_from: holders.balances[giver],
                        balance_to: holders.balances[receiver],
                        ..accounts
                    },
                    remaining_accounts,
                    from,
                    share,
                ) {
                    Ok(after) => Holders {
                        total_data: holders.total_data,
                        balances: holders.balances.update(giver, after.balance_from).update(
                            receiver,
                            after.balance_to,
                        ),
                    },
                    Err(_) => holders,
                }
            } else {
                holders
            }
        },
    }
}

/// The state after a sequence of operations, one after the other.
pub open spec fn run(holders: Holders, operations: Seq<Operation>) -> Holders
    decreases operations.len(),
{
    if operations.len() == 0 {
        holders
    } else {
        apply(run(holders, operations.drop_last()), operations.last())
    }
}

/// Replacing one holder's shares changes the sum by the difference.
#[verifier::rlimit(40)]
pub proof fn lemma_sum_update(balances: Seq<Balance>, holder: int, balance: Balance)
    requires
        0 <= holder < balances.len(),
    ensures
        sum(balances.update(holder, balance)) == sum(balances) - balances[holder].amount
            + balance.amount,
    decreases balances.len(),
{
    let updated = balances.update(holder, balance);
    if holder == balances.len() - 1 {
        assert(updated.drop_last() =~= balances.drop_last());
    } else {
        assert(updated.drop_last() =~= balances.drop_last().update(holder, balance));
        lemma_sum_update(balances.drop_last(), holder, balance);
    }
}

/// Holders who all hold nothing hold nothing together.
pub proof fn lemma_sum_of_nothing(holders: nat)
    ensures
        sum(Seq::new(holders, |i: int| Balance { amount: 0 })) == 0,
    decreases holders,
{
    let balances = Seq::new(holders, |i: int| Balance { amount: 0 });
    if holders > 0 {
        assert(balances.drop_last() =~= Seq::new((holders - 1) as nat, |i: int| Balance { amount: 0 }));
        lemma_sum_of_nothing((holders - 1) as nat);
    }
}

/// One operation keeps the shares conserved.
#[verifier::rlimit(40)]
pub proof fn lemma_apply_conserves(holders: Holders, operation: Operation)
    requires
        conserved(holders),
    ensures
        conserved(apply(holders, operation)),
{
    match operation {
        Operation::Deposit { holder, program_id, accounts, remaining_accounts, amount, share } => {
            if 0 <= holder < holders.balances.len() {
                let r = spec_deposit(
                    program_id,
                    Deposit {
                        total_data: holders.total_data,
                        balance: holders.balances[holder],
                        ..accounts
                    },
                    remaining_accounts,
                    amount,
                    share,
                );
                if r is Ok {
                    lemma_sum_update(holders.balances, holder, r.unwrap().0.balance);
                }
            }
        },
        Operation::Withdraw {
            holder,
            program_id,
            accounts,
            remaining_accounts,
            from,
            amount,
            share,
        } => {
            if 0 <= holder < holders.balances.len() {
                let r = spec_withdraw(
                    program_id,
                    Withdraw {
                        total_data: holders.total_data,
                        balance: holders.balances[holder],
                        ..accounts
                    },
                    remaining_accounts,
                    from,
                    amount,
                    share,
                );
                if r is Ok {
                    lemma_sum_update(holders.balances, holder, r.unwrap().0.balance);
                }
            }
        },
        Operation::Transfer {
            giver,
            receiver,
            program_id,
            accounts,
            remaining_accounts,
            from,
            share,
        } => {
            if 0 <= giver < holders.balances.len() && 0 <= receiver < holders.balances.len()
                && giver != receiver {
                let r = spec_transfer(
                    program_id,
                    TransferInternal {
                        balance_from: holders.balances[giver],
                        balance_to: holders.balances[receiver],
                        ..accounts
                    },
                    remaining_accounts,
                    from,
                    share,
                );
                if r is Ok {
                    let after = r.unwrap();
                    lemma_sum_update(holders.balances, giver, after.balance_from);
                    lemma_sum_update(
                        holders.balances.update(giver, after.balance_from),
                        receiver,
                        after.balance_to,
                    );
                }
            }
        },
    }
}

/// Conservation of shares. Whatever deposits, withdrawals and transfers are
/// made on an asset, in whatever order and with whatever arguments, the
/// holders hold together exactly the shares that the asset's ledger counts,
/// after every one of them, provided they did so at the start.
pub proof fn lemma_run_conserves(holders: Holders, operations: Seq<Operation>)
    requires
        conserved(holders),
    ensures
        conserved(run(holders, operations)),
    decreases operations.len(),
{
    if operations.len() > 0 {
        lemma_run_conserves(holders, operations.drop_last());
        lemma_apply_conserves(run(holders, operations.drop_last()), operations.last());
    }
}

/// Conservation of shares from an empty start: an asset that has handed out
/// no shares, with any number of holders who hold nothing, keeps its shares
/// conserved through every sequence of operations.
pub proof fn lemma_conserved_from_empty(
    mint_address: Pubkey,
    token_account: Pubkey,
    holders: nat,
    operations: Seq<Operation>,
)
    ensures
        conserved(
            run(
                Holders {
                    total_data: Total {
                        mint_address,
                        amount: Rebase { base: 0, elastic: 0 },
                        token_account,
                    },
                    balances: Seq::new(holders, |i: int| Balance { amount: 0 }),
                },
                operations,
            ),
        ),
{
    lemma_sum_of_nothing(holders);
    lemma_run_conserves(
        Holders {
            total_data: Total { mint_address, amount: Rebase { base: 0, elastic: 0 }, token_account },
            balances: Seq::new(holders, |i: int| Balance { amount: 0 }),
        },
        operations,
    );
}

/// The floor under an asset's shares. A withdrawal that the ledger can
/// cover is turned away where it would leave the asset with some shares but
/// fewer than the minimum; one that takes the last share goes through
/// wherever the holder has the shares and the tokens can be paid.
pub proof fn lemma_minimum_share_floor(accounts: Withdraw, amount_internal: u64, share_internal: u64)
    requires
        accounts.total_data.amount.elastic >= amount_internal,
        accounts.total_data.amount.base >= share_internal,
    ensures
        0 < accounts.total_data.amount.base - share_internal
            < accounts.bentobox_account.constants.minimum_share_balance ==> spec_withdraw_commit(
            accounts,
            amount_internal,
            share_internal,
        ) == Err::<Withdraw, Error>(Error::Bentobox(ErrorCode::WithdrawCannotEmpty)),
        accounts.total_data.amount.base == share_internal && accounts.balance.amount
            >= share_internal && spec_pay(accounts.bentobox_vault, accounts.to, amount_internal)
            is Ok ==> spec_withdraw_commit(accounts, amount_internal, share_internal) is Ok,
{
}

/// Emptying the pool. Whatever the floor under an asset's shares is, a
/// holder of all the shares may withdraw them all, wherever the accounts pass
/// the checks and the tokens can be paid: the withdrawal returns all the
/// ledger's amount and leaves the ledger empty.
#[verifier::rlimit(40)]
pub proof fn lemma_emptying_succeeds(
    program_id: Pubkey,
    accounts: Withdraw,
    remaining_accounts: Seq<AccountInfo>,
    from: Pubkey,
)
    requires
        0 < accounts.total_data.amount.base <= u64::MAX,
        accounts.total_data.amount.elastic <= u64::MAX,
        accounts.balance.amount == accounts.total_data.amount.base,
        spec_withdraw_checks(program_id, accounts, remaining_accounts, from, 0) is Ok,
        spec_pay(accounts.bentobox_vault, accounts.to, accounts.total_data.amount.elastic as u64)
            is Ok,
    ensures
        spec_withdraw(
            program_id,
            accounts,
            remaining_accounts,
            from,
            0,
            accounts.total_data.amount.base as u64,
        ) is Ok,
        spec_withdraw(
            program_id,
            accounts,
            remaining_accounts,
            from,
            0,
            accounts.total_data.amount.base as u64,
        ).unwrap().1 == (AmountShareOut {
            amount_out: accounts.total_data.amount.elastic as u64,
            share_out: accounts.total_data.amount.base as u64,
        }),
        spec_withdraw(
            program_id,
            accounts,
            remaining_accounts,
            from,
            0,
            accounts.total_data.amount.base as u64,
        ).unwrap().0.total_data.amount == (Rebase { base: 0, elastic: 0 }),
        spec_withdraw(
            program_id,
            accounts,
            remaining_accounts,
            from,
            0,
            accounts.total_data.amount.base as u64,
        ).unwrap().0.balance.amount == 0,
{
    let b = accounts.total_data.amount.base as nat;
    let e = accounts.total_data.amount.elastic as nat;
    assert(e * b <= 0xffff_ffff_ffff_ffff * 0xffff_ffff_ffff_ffff && (e * b) / b == e)
        by (nonlinear_arith)
        requires
            0 < b <= 0xffff_ffff_ffff_ffff,
            e <= 0xffff_ffff_ffff_ffff,
    ;
}

/// A strategy at rest against the balance the vault believes invested: it is
/// active, its token account is empty, and asked to harvest against that
/// balance it reports neither gain nor loss and stays as it is.
pub open spec fn at_rest<S: Strategy>(strategy: S, believed: u64) -> bool {
    &&& spec_active(strategy) is Ok
    &&& strategy.spec_vault_amount() == Ok::<u64, Error>(0)
    &&& strategy.spec_harvest(believed) == (strategy, Ok::<i64, Error>(0i64))
}

/// Harvest reconciliation, for every strategy. Where a harvest has gone
/// through and left the strategy at rest against the balance then believed
/// invested, as it does unless something has touched the strategy since, a
/// second harvest finds neither gain nor loss: nothing is booked, and
/// without rebalancing the strategy, the ledger and the strategy record are
/// left exactly as they were.
#[verifier::rlimit(40)]
pub proof fn lemma_harvest_again_finds_nothing<S: Strategy>(
    strategy: S,
    total_data: Total,
    strategy_data: StrategyData,
    balance: bool,
    max_change_amount: u64,
    max_change_again: u64,
)
    requires
        spec_harvest_internal(strategy, total_data, strategy_data, balance, max_change_amount).1
            is Ok,
        at_rest(
            spec_harvest_internal(strategy, total_data, strategy_data, balance, max_change_amount).0,
            spec_harvest_internal(
                strategy,
                total_data,
                strategy_data,
                balance,
                max_change_amount,
            ).1.unwrap().1.balance,
        ),
    ensures
        ({
            let (after, r) = spec_harvest_internal(
                strategy,
                total_data,
                strategy_data,
                balance,
                max_change_amount,
            );
            let (total_after, data_after) = r.unwrap();
            &&& spec_base_harvest(after, data_after.balance, total_after.amount.elastic) == (
                after,
                Ok::<i64, Error>(0i64),
            )
            &&& spec_harvest_internal(after, total_after, data_after, false, max_change_again) == (
                after,
                Ok::<(Total, StrategyData), Error>((total_after, data_after)),
            )
        }),
{
    let (after, r) = spec_harvest_internal(
        strategy,
        total_data,
        strategy_data,
        balance,
        max_change_amount,
    );
    let (total_after, data_after) = r.unwrap();
    let info = spec_active(after).unwrap();
    if total_after.amount.elastic <= info.max_bentobox_balance && data_after.balance > 0 {
        let settlement = spec_harvest_settlement(0i64, 0u64).unwrap();
        assert(spec_settle(after, settlement) == (after, Ok::<(), Error>(())));
    }
}

} // verus!
