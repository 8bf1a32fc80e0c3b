use crate::bentobox::context::{Conversion, Deposit, TransferInternal, Withdraw};
use crate::bentobox::error::ErrorCode;
use crate::bentobox::state::{
    spec_token_balance_of, token_balance_of, AccountInfo, AmountShareOut, Balance, Total,
};
use crate::bentobox::utils::{allowed, spec_allowed};
use crate::common::errors::ErrorCode as CommonErrorCode;
use crate::common::pubkey::Pubkey;
use crate::common::rebase::Rebase;
use crate::common::token::{move_tokens, spec_move_tokens, with_amount, TokenAccount};
use crate::error::Error;
use vstd::prelude::*;

verus! {

/// What [`to_share`] returns: the shares that `amount` tokens are worth, for
/// the asset the accounts name.
pub open spec fn spec_to_share(accounts: Conversion, amount: u64, round_up: bool) -> Result<
    u64,
    Error,
> {
    if accounts.total_data.mint_address != accounts.mint {
        Err(Error::Bentobox(ErrorCode::BentoBoxWrongToken))
    } else {
        Error::spec_lift(accounts.total_data.amount.spec_to_base(amount, round_up))
    }
}

/// Shares that `amount` tokens of the asset are worth.
pub fn to_share(accounts: &Conversion, amount: u64, round_up: bool) -> (r: Result<u64, Error>)
    ensures
        r == spec_to_share(*accounts, amount, round_up),
{
    if accounts.total_data.mint_address != accounts.mint {
        return Err(Error::Bentobox(ErrorCode::BentoBoxWrongToken));
    }
    Error::lift(accounts.total_data.amount.to_base(amount, round_up))
}

/// What [`to_amount`] returns: the tokens that `share` shares are worth.
pub open spec fn spec_to_amount(accounts: Conversion, share: u64, round_up: bool) -> Result<
    u64,
    Error,
> {
    if accounts.total_data.mint_address != accounts.mint {
        Err(Error::Bentobox(ErrorCode::BentoBoxWrongToken))
    } else {
        Error::spec_lift(accounts.total_data.amount.spec_to_elastic(share, round_up))
    }
}

/// Tokens that `share` shares of the asset are worth.
pub fn to_amount(accounts: &Conversion, share: u64, round_up: bool) -> (r: Result<u64, Error>)
    ensures
        r == spec_to_amount(*accounts, share, round_up),
{
    if accounts.total_data.mint_address != accounts.mint {
        return Err(Error::Bentobox(ErrorCode::BentoBoxWrongToken));
    }
    Error::lift(accounts.total_data.amount.to_elastic(share, round_up))
}

/// The amount and the shares of a deposit, or `None` where the deposit is
/// turned away without an error.
///
/// A deposit names shares or, with zero shares, an amount. An amount is worth
/// shares rounded down, and the deposit is turned away if it would leave the
/// asset with fewer shares than the minimum. Shares cost an amount rounded
/// up.
pub open spec fn spec_deposit_amounts(
    total: Rebase,
    minimum_share_balance: u64,
    amount: u64,
    share: u64,
) -> Result<Option<(u64, u64)>, CommonErrorCode> {
    if share == 0 {
        match total.spec_to_base(amount, false) {
            Err(e) => Err(e),
            Ok(s) => if total.base + s > u128::MAX {
                Err(CommonErrorCode::WrongIntegerAddition)
            } else if total.base + s < minimum_share_balance {
                Ok(None)
            } else {
                Ok(Some((amount, s)))
            },
        }
    } else {
        match total.spec_to_elastic(share, true) {
            Err(e) => Err(e),
            Ok(a) => Ok(Some((a, share))),
        }
    }
}

fn deposit_amounts(total: &Rebase, minimum_share_balance: u64, amount: u64, share: u64) -> (r:
    Result<Option<(u64, u64)>, CommonErrorCode>)
    ensures
        r == spec_deposit_amounts(*total, minimum_share_balance, amount, share),
{
    if share == 0 {
        let share_internal = match total.to_base(amount, false) {
            Ok(s) => s,
            Err(e) => {
                return Err(e);
            },
        };
        let total_base = match total.base.checked_add(share_internal as u128) {
            Some(v) => v,
            None => {
                return Err(CommonErrorCode::WrongIntegerAddition);
            },
        };
        if total_base < minimum_share_balance as u128 {
            return Ok(None);
        }
        Ok(Some((amount, share_internal)))
    } else {
        match total.to_elastic(share, true) {
            Ok(a) => Ok(Some((a, share))),
            Err(e) => Err(e),
        }
    }
}

/// What the accounts of a deposit have to meet before anything is computed:
/// the source holds the amount asked for, source, vault account and mint are
/// of one token, the vault account is the one the ledger names, the caller
/// may use the source's funds, and the asset has tokens at all.
pub open spec fn spec_deposit_checks(
    program_id: Pubkey,
    accounts: Deposit,
    remaining_accounts: Seq<AccountInfo>,
    amount: u64,
) -> Result<(), Error> {
    if accounts.from.amount < amount {
        Err(Error::Bentobox(ErrorCode::DepositAmountTooHigh))
    } else if !(accounts.from.mint == accounts.bentobox_vault.mint && accounts.bentobox_vault.mint
        == accounts.mint.key) {
        Err(Error::Common(CommonErrorCode::IncompatibleTokenAccounts))
    } else if accounts.total_data.token_account != accounts.bentobox_vault.key {
        Err(Error::Bentobox(ErrorCode::InvalidTotalTokenAccount))
    } else {
        match spec_allowed(
            accounts.from.owner,
            accounts.authority,
            accounts.bentobox_key,
            remaining_accounts,
            program_id,
        ) {
            Err(e) => Err(e),
            Ok(_) => if !(accounts.total_data.amount.elastic != 0 || accounts.mint.supply > 0
                || accounts.mint.is_native) {
                Err(Error::Bentobox(ErrorCode::BentoBoxNoTokens))
            } else {
                Ok(())
            },
        }
    }
}

fn deposit_checks(
    program_id: &Pubkey,
    accounts: &Deposit,
    remaining_accounts: &Vec<AccountInfo>,
    amount: u64,
) -> (r: Result<(), Error>)
    ensures
        r == spec_deposit_checks(*program_id, *accounts, remaining_accounts@, amount),
{
    if accounts.from.amount < amount {
        return Err(Error::Bentobox(ErrorCode::DepositAmountTooHigh));
    }
    if !(accounts.from.mint == accounts.bentobox_vault.mint && accounts.bentobox_vault.mint
        == accounts.mint.key) {
        return Err(Error::Common(CommonErrorCode::IncompatibleTokenAccounts));
    }
    if accounts.total_data.token_account != accounts.bentobox_vault.key {
        return Err(Error::Bentobox(ErrorCode::InvalidTotalTokenAccount));
    }
    match allowed(
        &accounts.from.owner,
        &accounts.authority,
        &accounts.bentobox_key,
        remaining_accounts,
        program_id,
    ) {
        Ok(_) => {},
        Err(e) => {
            return Err(e);
        },
    }
    if !(accounts.total_data.amount.elastic != 0 || accounts.mint.supply > 0
        || accounts.mint.is_native) {
        return Err(Error::Bentobox(ErrorCode::BentoBoxNoTokens));
    }
    Ok(())
}

/// The ledger with `elastic` and `base` in place of its amounts.
pub open spec fn with_amounts(total: Total, base: u128, elastic: u128) -> Total {
    Total { amount: Rebase { base, elastic }, ..total }
}

/// The two token accounts after `amount` tokens have gone from the first to
/// the second. Where both are one account it keeps what it holds, which has
/// to cover the amount.
pub open spec fn spec_pay(from: TokenAccount, to: TokenAccount, amount: u64) -> Result<
    (TokenAccount, TokenAccount),
    Error,
> {
    if from.key == to.key {
        match spec_move_tokens(from.amount, 0, amount) {
            Err(e) => Err(e),
            Ok(_) => Ok((from, to)),
        }
    } else {
        match spec_move_tokens(from.amount, to.amount, amount) {
            Err(e) => Err(e),
            Ok((left, arrived)) => Ok((with_amount(from, left), with_amount(to, arrived))),
        }
    }
}

fn pay(from: &mut TokenAccount, to: &mut TokenAccount, amount: u64) -> (r: Result<(), Error>)
    ensures
        match spec_pay(*old(from), *old(to), amount) {
            Ok((f, t)) => r is Ok && *final(from) == f && *final(to) == t,
            Err(e) => r == Err::<(), Error>(e) && *final(from) == *old(from) && *final(to) == *old(to),
        },
{
    if from.key == to.key {
        let mut source = *from;
        let mut nowhere = TokenAccount { amount: 0, ..*to };
        match move_tokens(&mut source, &mut nowhere, amount) {
            Ok(_) => Ok(()),
            Err(e) => Err(e),
        }
    } else {
        move_tokens(from, to, amount)
    }
}

/// The accounts after a deposit of `amount_internal` tokens for
/// `share_internal` shares, where `amount` is what the caller asked for.
///
/// The vault cannot be credited with more than it holds: what its token
/// account and its strategy hold together has to cover the ledger's amount,
/// and a deposit out of the vault's own token account may claim no more than
/// what is there beyond the ledger's amount. Ledger and holder gain the
/// shares, the ledger gains the amount, and the tokens move last.
pub open spec fn spec_deposit_commit(
    accounts: Deposit,
    amount: u64,
    amount_internal: u64,
    share_internal: u64,
) -> Result<Deposit, Error> {
    let total = accounts.total_data.amount;
    match spec_token_balance_of(accounts.bentobox_vault.amount, accounts.strategy_data.balance) {
        Err(e) => Err(Error::Common(e)),
        Ok(token_balance) => if token_balance < total.elastic {
            Err(Error::Common(CommonErrorCode::WrongIntegerSubtraction))
        } else if accounts.bentobox_vault.key == accounts.from.key && amount > token_balance
            - total.elastic {
            Err(Error::Bentobox(ErrorCode::DepositSkimTooMuch))
        } else if total.base + share_internal > u128::MAX || total.elastic + amount_internal
            > u128::MAX || accounts.balance.amount + share_internal > u64::MAX {
            Err(Error::Common(CommonErrorCode::WrongIntegerAddition))
        } else {
            match spec_pay(accounts.from, accounts.bentobox_vault, amount_internal) {
                Err(e) => Err(e),
                Ok((from, vault)) => Ok(
                    Deposit {
                        from,
                        bentobox_vault: vault,
                        balance: Balance { amount: (accounts.balance.amount + share_internal) as u64 },
                        total_data: with_amounts(
                            accounts.total_data,
                            (total.base + share_internal) as u128,
                            (total.elastic + amount_internal) as u128,
                        ),
                        ..accounts
                    },
                ),
            }
        },
    }
}

/// The accounts after [`deposit`], and what it returns.
pub open spec fn spec_deposit(
    program_id: Pubkey,
    accounts: Deposit,
    remaining_accounts: Seq<AccountInfo>,
    amount: u64,
    share: u64,
) -> Result<(Deposit, AmountShareOut), Error> {
    match spec_deposit_checks(program_id, accounts, remaining_accounts, amount) {
        Err(e) => Err(e),
        Ok(_) => match spec_deposit_amounts(
            accounts.total_data.amount,
            accounts.bentobox_account.constants.minimum_share_balance,
            amount,
            share,
        ) {
            Err(e) => Err(Error::Common(e)),
            Ok(None) => Ok((accounts, AmountShareOut { amount_out: 0, share_out: 0 })),
            Ok(Some((amount_internal, share_internal))) => match spec_deposit_commit(
                accounts,
                amount,
                amount_internal,
                share_internal,
            ) {
                Err(e) => Err(e),
                Ok(after) => Ok(
                    (after, AmountShareOut { amount_out: amount_internal, share_out: share_internal }),
                ),
            },
        },
    }
}

/// Deposits tokens for shares. `share`, where it is not zero, takes
/// precedence over `amount`. Returns what was moved, which is nothing where
/// the deposit would leave the asset under its minimum of shares. On an error
/// the accounts are left as they were.
#[verifier::rlimit(40)]
pub fn deposit(
    program_id: &Pubkey,
    accounts: &mut Deposit,
    remaining_accounts: &Vec<AccountInfo>,
    amount: u64,
    share: u64,
) -> (r: Result<AmountShareOut, Error>)
    ensures
        match r {
            Ok(out) => spec_deposit(*program_id, *old(accounts), remaining_accounts@, amount, share)
                == Ok::<(Deposit, AmountShareOut), Error>((*final(accounts), out)),
            Err(e) => spec_deposit(*program_id, *old(accounts), remaining_accounts@, amount, share)
                == Err::<(Deposit, AmountShareOut), Error>(e) && *final(accounts) == *old(accounts),
        },
        r matches Ok(out) ==> {
            &&& final(accounts).total_data.amount.base == old(accounts).total_data.amount.base
                + out.share_out
            &&& final(accounts).total_data.amount.elastic == old(accounts).total_data.amount.elastic
                + out.amount_out
            &&& final(accounts).balance.amount == old(accounts).balance.amount + out.share_out
        },
{
    match deposit_checks(program_id, accounts, remaining_accounts, amount) {
        Ok(_) => {},
        Err(e) => {
            return Err(e);
        },
    }
    let (amount_internal, share_internal) = match deposit_amounts(
        &accounts.total_data.amount,
        accounts.bentobox_account.constants.minimum_share_balance,
        amount,
        share,
    ) {
        Ok(Some(pair)) => pair,
        Ok(None) => {
            return Ok(AmountShareOut { amount_out: 0, share_out: 0 });
        },
        Err(e) => {
            return Err(Error::Common(e));
        },
    };
    let token_balance = match token_balance_of(&accounts.bentobox_vault, &accounts.strategy_data) {
        Ok(v) => v,
        Err(e) => {
            return Err(Error::Common(e));
        },
    };
    let skimmable_amount = match token_balance.checked_sub(accounts.total_data.amount.elastic) {
        Some(v) => v,
        None => {
            return Err(Error::Common(CommonErrorCode::WrongIntegerSubtraction));
        },
    };
    if accounts.bentobox_vault.key == accounts.from.key && amount as u128 > skimmable_amount {
        return Err(Error::Bentobox(ErrorCode::DepositSkimTooMuch));
    }
    let base = match accounts.total_data.amount.base.checked_add(share_internal as u128) {
        Some(v) => v,
        None => {
            return Err(Error::Common(CommonErrorCode::WrongIntegerAddition));
        },
    };
    let elastic = match accounts.total_data.amount.elastic.checked_add(amount_internal as u128) {
        Some(v) => v,
        None => {
            return Err(Error::Common(CommonErrorCode::WrongIntegerAddition));
        },
    };
    let held = match accounts.balance.amount.checked_add(share_internal) {
        Some(v) => v,
        None => {
            return Err(Error::Common(CommonErrorCode::WrongIntegerAddition));
        },
    };
    let mut from = accounts.from;
    let mut vault = accounts.bentobox_vault;
    match pay(&mut from, &mut vault, amount_internal) {
        Ok(_) => {},
        Err(e) => {
            return Err(e);
        },
    }
    accounts.from = from;
    accounts.bentobox_vault = vault;
    accounts.total_data.amount.base = base;
    accounts.total_data.amount.elastic = elastic;
    accounts.balance.amount = held;
    Ok(AmountShareOut { amount_out: amount_internal, share_out: share_internal })
}

/// The amount and the shares of a withdrawal: an amount costs shares rounded
/// up, shares are worth an amount rounded down.
pub open spec fn spec_withdraw_amounts(total: Rebase, amount: u64, share: u64) -> Result<
    (u64, u64),
    CommonErrorCode,
> {
    if share == 0 {
        match total.spec_to_base(amount, true) {
            Err(e) => Err(e),
            Ok(s) => Ok((amount, s)),
        }
    } else {
        match total.spec_to_elastic(share, false) {
            Err(e) => Err(e),
            Ok(a) => Ok((a, share)),
        }
    }
}

/// What the accounts of a withdrawal have to meet before anything is
/// computed.
pub open spec fn spec_withdraw_checks(
    program_id: Pubkey,
    accounts: Withdraw,
    remaining_accounts: Seq<AccountInfo>,
    from: Pubkey,
    amount: u64,
) -> Result<(), Error> {
    if accounts.bentobox_vault.amount < amount {
        Err(Error::Bentobox(ErrorCode::WithdrawAmountToHigh))
    } else if accounts.bentobox_vault.owner != accounts.vault_authority {
        Err(Error::Bentobox(ErrorCode::WithdrawTokenAccountInvalidAuthority))
    } else if accounts.bentobox_vault.mint != accounts.to.mint {
        Err(Error::Common(CommonErrorCode::IncompatibleTokenAccounts))
    } else if accounts.total_data.token_account != accounts.bentobox_vault.key {
        Err(Error::Bentobox(ErrorCode::InvalidTotalTokenAccount))
    } else {
        spec_allowed(from, accounts.authority, accounts.bentobox_key, remaining_accounts, program_id)
    }
}

fn withdraw_checks(
    program_id: &Pubkey,
    accounts: &Withdraw,
    remaining_accounts: &Vec<AccountInfo>,
    from: &Pubkey,
    amount: u64,
) -> (r: Result<(), Error>)
    ensures
        r == spec_withdraw_checks(*program_id, *accounts, remaining_accounts@, *from, amount),
{
    if accounts.bentobox_vault.amount < amount {
        return Err(Error::Bentobox(ErrorCode::WithdrawAmountToHigh));
    }
    if accounts.bentobox_vault.owner != accounts.vault_authority {
        return Err(Error::Bentobox(ErrorCode::WithdrawTokenAccountInvalidAuthority));
    }
    if accounts.bentobox_vault.mint != accounts.to.mint {
        return Err(Error::Common(CommonErrorCode::IncompatibleTokenAccounts));
    }
    if accounts.total_data.token_account != accounts.bentobox_vault.key {
        return Err(Error::Bentobox(ErrorCode::InvalidTotalTokenAccount));
    }
    allowed(from, &accounts.authority, &accounts.bentobox_key, remaining_accounts, program_id)
}

/// The accounts after a withdrawal of `amount_internal` tokens for
/// `share_internal` shares.
///
/// The ledger has to hold both. What is left of the shares has to be at
/// least the minimum, or nothing at all. The holder has to hold the shares,
/// and the tokens move last.
pub open spec fn spec_withdraw_commit(accounts: Withdraw, amount_internal: u64, share_internal: u64) -> Result<
    Withdraw,
    Error,
> {
    let total = accounts.total_data.amount;
    if total.elastic < amount_internal || total.base < share_internal {
        Err(Error::Common(CommonErrorCode::WrongIntegerSubtraction))
    } else if !(total.base - share_internal
        >= accounts.bentobox_account.constants.minimum_share_balance || total.base
        - share_internal == 0) {
        Err(Error::Bentobox(ErrorCode::WithdrawCannotEmpty))
    } else if accounts.balance.amount < share_internal {
        Err(Error::Common(CommonErrorCode::WrongIntegerSubtraction))
    } else {
        match spec_pay(accounts.bentobox_vault, accounts.to, amount_internal) {
            Err(e) => Err(e),
            Ok((vault, to)) => Ok(
                Withdraw {
                    bentobox_vault: vault,
                    to,
                    balance: Balance { amount: (accounts.balance.amount - share_internal) as u64 },
                    total_data: with_amounts(
                        accounts.total_data,
                        (total.base - share_internal) as u128,
                        (total.elastic - amount_internal) as u128,
                    ),
                    ..accounts
                },
            ),
        }
    }
}

/// The accounts after [`withdraw`], and what it returns.
pub open spec fn spec_withdraw(
    program_id: Pubkey,
    accounts: Withdraw,
    remaining_accounts: Seq<AccountInfo>,
    from: Pubkey,
    amount: u64,
    share: u64,
) -> Result<(Withdraw, AmountShareOut), Error> {
    match spec_withdraw_checks(program_id, accounts, remaining_accounts, from, amount) {
        Err(e) => Err(e),
        Ok(_) => match spec_withdraw_amounts(accounts.total_data.amount, amount, share) {
            Err(e) => Err(Error::Common(e)),
            Ok((amount_internal, share_internal)) => match spec_withdraw_commit(
                accounts,
                amount_internal,
                share_internal,
            ) {
                Err(e) => Err(e),
                Ok(after) => Ok(
                    (after, AmountShareOut { amount_out: amount_internal, share_out: share_internal }),
                ),
            },
        },
    }
}

/// Withdraws tokens against the shares of the holder `from`. `share`, where
/// it is not zero, takes precedence over `amount`. On an error the accounts
/// are left as they were.
#[verifier::rlimit(40)]
pub fn withdraw(
    program_id: &Pubkey,
    accounts: &mut Withdraw,
    remaining_accounts: &Vec<AccountInfo>,
    from: &Pubkey,
    amount: u64,
    share: u64,
) -> (r: Result<AmountShareOut, Error>)
    ensures
        match r {
            Ok(out) => spec_withdraw(
                *program_id,
                *old(accounts),
                remaining_accounts@,
                *from,
                amount,
                share,
            ) == Ok::<(Withdraw, AmountShareOut), Error>((*final(accounts), out)),
            Err(e) => spec_withdraw(
                *program_id,
                *old(accounts),
                remaining_accounts@,
                *from,
                amount,
                share,
            ) == Err::<(Withdraw, AmountShareOut), Error>(e) && *final(accounts) == *old(accounts),
        },
        r matches Ok(out) ==> {
            &&& final(accounts).total_data.amount.base + out.share_out == old(accounts).total_data.amount.base
            &&& final(accounts).total_data.amount.elastic + out.amount_out == old(accounts).total_data.amount.elastic
            &&& final(accounts).balance.amount + out.share_out == old(accounts).balance.amount
            &&& (final(accounts).total_data.amount.base == 0 || final(accounts).total_data.amount.base >= old(accounts).bentobox_account.constants.minimum_share_balance)
        },
{
    match withdraw_checks(program_id, accounts, remaining_accounts, from, amount) {
        Ok(_) => {},
        Err(e) => {
            return Err(e);
        },
    }
    let mut share_internal = share;
    let mut amount_internal = amount;
    if share_internal == 0 {
        share_internal = match accounts.total_data.amount.to_base(amount_internal, true) {
                Ok(s) => s,
                Err(e) => {
                    return Err(Error::Common(e));
                },
            };
    } else {
        amount_internal = match accounts.total_data.amount.to_elastic(share_internal, false) {
                Ok(a) => a,
                Err(e) => {
                    return Err(Error::Common(e));
                },
            };
    }
    let elastic = match accounts.total_data.amount.elastic.checked_sub(amount_internal as u128) {
        Some(v) => v,
        None => {
            return Err(Error::Common(CommonErrorCode::WrongIntegerSubtraction));
        },
    };
    let base = match accounts.total_data.amount.base.checked_sub(share_internal as u128) {
        Some(v) => v,
        None => {
            return Err(Error::Common(CommonErrorCode::WrongIntegerSubtraction));
        },
    };
    if !(base >= accounts.bentobox_account.constants.minimum_share_balance as u128 || base == 0) {
        return Err(Error::Bentobox(ErrorCode::WithdrawCannotEmpty));
    }
    let held = match accounts.balance.amount.checked_sub(share_internal) {
        Some(v) => v,
        None => {
            return Err(Error::Common(CommonErrorCode::WrongIntegerSubtraction));
        },
    };
    let mut vault = accounts.bentobox_vault;
    let mut to = accounts.to;
    match pay(&mut vault, &mut to, amount_internal) {
        Ok(_) => {},
        Err(e) => {
            return Err(e);
        },
    }
    accounts.bentobox_vault = vault;
    accounts.to = to;
    accounts.total_data.amount.elastic = elastic;
    accounts.total_data.amount.base = base;
    accounts.balance.amount = held;
    Ok(AmountShareOut { amount_out: amount_internal, share_out: share_internal })
}

/// The accounts after [`transfer`]: the giver holds the shares, the caller
/// may use the giver's funds, and the shares go from one holder to the other.
pub open spec fn spec_transfer(
    program_id: Pubkey,
    accounts: TransferInternal,
    remaining_accounts: Seq<AccountInfo>,
    from: Pubkey,
    share: u64,
) -> Result<TransferInternal, Error> {
    if accounts.balance_from.amount < share {
        Err(Error::Bentobox(ErrorCode::TransferAmountToHigh))
    } else {
        match spec_allowed(
            from,
            accounts.authority,
            accounts.bentobox_key,
            remaining_accounts,
            program_id,
        ) {
            Err(e) => Err(e),
            Ok(_) => if accounts.balance_to.amount + share > u64::MAX {
                Err(Error::Common(CommonErrorCode::WrongIntegerAddition))
            } else {
                Ok(
                    TransferInternal {
                        balance_from: Balance { amount: (accounts.balance_from.amount - share) as u64 },
                        balance_to: Balance { amount: (accounts.balance_to.amount + share) as u64 },
                        ..accounts
                    },
                )
            },
        }
    }
}

/// Moves `share` shares from the holder `from` to another holder. The
/// asset's ledger is not touched. On an error the accounts are left as they
/// were.
pub fn transfer(
    program_id: &Pubkey,
    accounts: &mut TransferInternal,
    remaining_accounts: &Vec<AccountInfo>,
    from: &Pubkey,
    share: u64,
) -> (r: Result<(), Error>)
    ensures
        match r {
            Ok(_) => spec_transfer(*program_id, *old(accounts), remaining_accounts@, *from, share)
                == Ok::<TransferInternal, Error>(*final(accounts)),
            Err(e) => spec_transfer(*program_id, *old(accounts), remaining_accounts@, *from, share)
                == Err::<TransferInternal, Error>(e) && *final(accounts) == *old(accounts),
        },
        r is Ok ==> final(accounts).balance_from.amount + final(accounts).balance_to.amount == old(accounts).balance_from.amount + old(accounts).balance_to.amount,
{
    if accounts.balance_from.amount < share {
        return Err(Error::Bentobox(ErrorCode::TransferAmountToHigh));
    }
    match allowed(from, &accounts.authority, &accounts.bentobox_key, remaining_accounts, program_id) {
        Ok(_) => {},
        Err(e) => {
            return Err(e);
        },
    }
    let received = match accounts.balance_to.amount.checked_add(share) {
        Some(v) => v,
        None => {
            return Err(Error::Common(CommonErrorCode::WrongIntegerAddition));
        },
    };
    accounts.balance_from.amount = accounts.balance_from.amount - share;
    accounts.balance_to.amount = received;
    Ok(())
}

} // verus!
