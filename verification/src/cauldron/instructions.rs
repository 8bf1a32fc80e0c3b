use crate::bentobox::context::Conversion;
use crate::bentobox::instructions::{spec_to_share, to_share};
use crate::bentobox::state::{AccountInfo, AmountShareOut};
use crate::cauldron::context::{
    Accrue, AddCollateral, AddCollateralRemaining, BentoDeposit, BentoTransfer, BentoWithdraw,
    Borrow, MasterContractAccounts, ReduceSupply, RemoveCollateral, Repay, WithdrawFees,
};
use crate::cauldron::operations;
use crate::cauldron::operations::{
    borrow_internal, create_bentobox_transfer_context, spec_bento_deposit, spec_bento_withdraw,
    spec_bentobox_transfer, spec_borrow_internal, spec_remove_collateral_internal,
    spec_repay_internal, spec_validate_whitelisted_account, validate_whitelisted_account,
};
use crate::cauldron::error::ErrorCode;
use crate::cauldron::state::{
    AccrueInfo, BorrowCap, Cauldron, Constants, DataFeed, Total, UserBalance, THREE_DAYS,
};
use crate::cauldron::utils::{
    accrue_internal, get_switchboard_price, solvent, spec_accrue, spec_get_switchboard_price,
    spec_solvent, spec_validate_switchboard_data_feed, validate_switchboard_data_feed,
};
use crate::common::errors::ErrorCode as CommonErrorCode;
use crate::common::pubkey::Pubkey;
use crate::error::Error;
use vstd::prelude::*;

verus! {

/// Whether the vault handed to a call is the market's own.
pub open spec fn spec_vault_checks(
    cauldron_account: Cauldron,
    bentobox_account: Pubkey,
    bentobox_program: Pubkey,
) -> Result<(), Error> {
    if bentobox_account != cauldron_account.bentobox {
        Err(Error::Cauldron(ErrorCode::InvalidBentoboxAccount))
    } else if bentobox_program != cauldron_account.bentobox_program {
        Err(Error::Cauldron(ErrorCode::InvalidBentoboxProgramAccount))
    } else {
        Ok(())
    }
}

/// Checks that the vault handed to a call is the market's own.
pub fn vault_checks(cauldron_account: &Cauldron, bentobox_account: &Pubkey, bentobox_program: &Pubkey) -> (r:
    Result<(), Error>)
    ensures
        r == spec_vault_checks(*cauldron_account, *bentobox_account, *bentobox_program),
{
    if *bentobox_account != cauldron_account.bentobox {
        return Err(Error::Cauldron(ErrorCode::InvalidBentoboxAccount));
    }
    if *bentobox_program != cauldron_account.bentobox_program {
        return Err(Error::Cauldron(ErrorCode::InvalidBentoboxProgramAccount));
    }
    Ok(())
}

/// Makes a market. Borrowing starts out uncapped.
pub fn initialize(
    authority: Pubkey,
    switchboard_data_feed: Pubkey,
    bentobox: Pubkey,
    bentobox_program: Pubkey,
    collateral: Pubkey,
    magic_internet_money: Pubkey,
    interest_per_second: u64,
    constants: Constants,
    fee_to: Pubkey,
) -> (r: Cauldron)
    ensures
        r == (Cauldron {
            authority,
            switchboard_data_feed,
            constants,
            borrow_limit: BorrowCap { total: u64::MAX, borrow_part_per_address: u64::MAX },
            bentobox,
            bentobox_program,
            collateral,
            magic_internet_money,
            accrue_info: AccrueInfo { last_accrued: 0, fees_earned: 0, interest_per_second },
            last_interest_update: 0,
            fee_to,
        }),
{
    Cauldron {
        authority,
        switchboard_data_feed,
        constants,
        borrow_limit: BorrowCap { total: u64::MAX, borrow_part_per_address: u64::MAX },
        bentobox,
        bentobox_program,
        collateral,
        magic_internet_money,
        accrue_info: AccrueInfo { last_accrued: 0, fees_earned: 0, interest_per_second },
        last_interest_update: 0,
        fee_to,
    }
}

/// Sets who may withdraw the fees.
pub fn set_fee_to(cauldron_account: &mut Cauldron, new_fee_to: Pubkey)
    ensures
        *final(cauldron_account) == (Cauldron { fee_to: new_fee_to, ..*old(cauldron_account) }),
{
    cauldron_account.fee_to = new_fee_to;
}

/// Sets the caps on borrowing.
pub fn change_borrow_limit(cauldron_account: &mut Cauldron, new_borrow_limit: u64, per_address_part: u64)
    ensures
        *final(cauldron_account) == (Cauldron {
            borrow_limit: BorrowCap {
                total: new_borrow_limit,
                borrow_part_per_address: per_address_part,
            },
            ..*old(cauldron_account)
        }),
{
    cauldron_account.borrow_limit = BorrowCap {
        total: new_borrow_limit,
        borrow_part_per_address: per_address_part,
    };
}

/// The market after [`change_interest_rate`].
///
/// The new rate has to be less than seven quarters of the old one, the
/// three quarters rounded down, or at most the one-percent rate; and more
/// than three days have to have passed since the last change.
pub open spec fn spec_change_interest_rate(
    cauldron_account: Cauldron,
    new_interest_rate: u64,
    now: u64,
) -> Result<Cauldron, Error> {
    let old_interest_rate = cauldron_account.accrue_info.interest_per_second;
    if !(new_interest_rate < old_interest_rate + old_interest_rate * 3 / 4 || new_interest_rate
        <= cauldron_account.constants.one_percent_rate) {
        Err(Error::Cauldron(ErrorCode::NotValidInterestRate))
    } else if !(cauldron_account.last_interest_update + THREE_DAYS < now) {
        Err(Error::Cauldron(ErrorCode::TooSoonToUpdateInterestRate))
    } else {
        Ok(
            Cauldron {
                last_interest_update: now,
                accrue_info: AccrueInfo {
                    interest_per_second: new_interest_rate,
                    ..cauldron_account.accrue_info
                },
                ..cauldron_account
            },
        )
    }
}

/// Changes the interest rate at the time `now`, in seconds. On an error the
/// market is left as it was.
pub fn change_interest_rate(cauldron_account: &mut Cauldron, new_interest_rate: u64, now: u64) -> (r:
    Result<(), Error>)
    ensures
        match r {
            Ok(_) => spec_change_interest_rate(*old(cauldron_account), new_interest_rate, now)
                == Ok::<Cauldron, Error>(*final(cauldron_account)),
            Err(e) => spec_change_interest_rate(*old(cauldron_account), new_interest_rate, now)
                == Err::<Cauldron, Error>(e) && *final(cauldron_account) == *old(cauldron_account),
        },
{
    let old_interest_rate = cauldron_account.accrue_info.interest_per_second as u128;
    let ceiling: u128 = old_interest_rate + old_interest_rate * 3 / 4;
    if !((new_interest_rate as u128) < ceiling || new_interest_rate
        <= cauldron_account.constants.one_percent_rate) {
        return Err(Error::Cauldron(ErrorCode::NotValidInterestRate));
    }
    let earliest: u128 = cauldron_account.last_interest_update as u128 + THREE_DAYS as u128;
    if !(earliest < now as u128) {
        return Err(Error::Cauldron(ErrorCode::TooSoonToUpdateInterestRate));
    }
    cauldron_account.last_interest_update = now;
    cauldron_account.accrue_info.interest_per_second = new_interest_rate;
    Ok(())
}

/// The accounts after [`accrue`].
pub open spec fn spec_accrue_accounts(accounts: Accrue, now: u64) -> Result<Accrue, Error> {
    match spec_accrue(accounts.cauldron_account.accrue_info, accounts.total_data, now) {
        Err(e) => Err(e),
        Ok((accrue_info, total_data)) => Ok(
            Accrue { cauldron_account: Cauldron { accrue_info, ..accounts.cauldron_account }, total_data },
        ),
    }
}

/// Accrues the interest on what is owed and books it as fees. On an error
/// the accounts are left as they were.
pub fn accrue(accounts: &mut Accrue, now: u64) -> (r: Result<(), Error>)
    ensures
        match r {
            Ok(_) => spec_accrue_accounts(*old(accounts), now) == Ok::<Accrue, Error>(
                *final(accounts),
            ),
            Err(e) => spec_accrue_accounts(*old(accounts), now) == Err::<Accrue, Error>(e) && *final(accounts) == *old(accounts),
        },
{
    let mut accrue_info = accounts.cauldron_account.accrue_info;
    let mut total_data = accounts.total_data;
    match accrue_internal(&mut accrue_info, &mut total_data, now) {
        Ok(_) => {
            accounts.cauldron_account.accrue_info = accrue_info;
            accounts.total_data = total_data;
            Ok(())
        },
        Err(e) => Err(e),
    }
}

/// What the accounts of a borrow have to meet: the mint is that of the
/// token lent, the price feed is the market's own, and so is the collateral.
pub open spec fn spec_borrow_checks(accounts: Borrow) -> Result<(), Error> {
    if accounts.cauldron_account.magic_internet_money != accounts.magic_internet_money_mint {
        Err(Error::Cauldron(ErrorCode::BentoBoxAccountOwnerDoesNotMatchProgram))
    } else if accounts.switchboard_data_feed.key != accounts.cauldron_account.switchboard_data_feed {
        Err(Error::Cauldron(ErrorCode::IncompatibleSwitchboardDataFeed))
    } else if accounts.collateral != accounts.cauldron_account.collateral {
        Err(Error::Cauldron(ErrorCode::InvalidCollateral))
    } else {
        Ok(())
    }
}

/// The accounts after [`borrow`], and what it returns: interest is accrued,
/// the loan booked and paid out, and the borrower has to be solvent at the
/// feed's price afterwards, the collateral valued by the vault's ledger of
/// the collateral.
pub open spec fn spec_borrow(
    accounts: Borrow,
    switchboard_program_id: Pubkey,
    now: u64,
    slot: u64,
    amount: u64,
) -> Result<(Borrow, (u64, u64)), Error> {
    match spec_borrow_checks(accounts) {
        Err(e) => Err(e),
        Ok(_) => match spec_accrue(accounts.cauldron_account.accrue_info, accounts.total_data, now) {
            Err(e) => Err(e),
            Ok((accrue_info, total_data)) => match spec_borrow_internal(
                Borrow {
                    cauldron_account: Cauldron { accrue_info, ..accounts.cauldron_account },
                    total_data,
                    ..accounts
                },
                amount,
            ) {
                Err(e) => Err(e),
                Ok((after, out)) => match spec_get_switchboard_price(
                    after.switchboard_data_feed,
                    switchboard_program_id,
                    slot,
                    after.cauldron_account.constants.stale_after_slots_elapsed,
                ) {
                    Err(e) => Err(e),
                    Ok(price) => match spec_solvent(
                        after.user_balance,
                        price,
                        after.total_data,
                        Conversion {
                            mint: after.collateral,
                            total_data: after.bentobox_collateral_total_data,
                        },
                        after.cauldron_account.constants,
                    ) {
                        Err(e) => Err(e),
                        Ok(_) => Ok((after, out)),
                    },
                },
            },
        },
    }
}

/// Lends `amount` to the borrower and pays it out in the vault, at the time
/// `now` in seconds and the slot `slot`. Returns the borrower's new part of
/// the debt and the shares paid out. On an error the accounts are left as
/// they were.
#[verifier::rlimit(40)]
pub fn borrow(
    accounts: &mut Borrow,
    switchboard_program_id: &Pubkey,
    now: u64,
    slot: u64,
    amount: u64,
) -> (r: Result<(u64, u64), Error>)
    ensures
        match r {
            Ok(out) => spec_borrow(*old(accounts), *switchboard_program_id, now, slot, amount)
                == Ok::<(Borrow, (u64, u64)), Error>((*final(accounts), out)),
            Err(e) => spec_borrow(*old(accounts), *switchboard_program_id, now, slot, amount)
                == Err::<(Borrow, (u64, u64)), Error>(e) && *final(accounts) == *old(accounts),
        },
{
    if accounts.cauldron_account.magic_internet_money != accounts.magic_internet_money_mint {
        return Err(Error::Cauldron(ErrorCode::BentoBoxAccountOwnerDoesNotMatchProgram));
    }
    if accounts.switchboard_data_feed.key != accounts.cauldron_account.switchboard_data_feed {
        return Err(Error::Cauldron(ErrorCode::IncompatibleSwitchboardDataFeed));
    }
    if accounts.collateral != accounts.cauldron_account.collateral {
        return Err(Error::Cauldron(ErrorCode::InvalidCollateral));
    }
    let mut after = *accounts;
    let mut accrue_info = after.cauldron_account.accrue_info;
    let mut total_data = after.total_data;
    match accrue_internal(&mut accrue_info, &mut total_data, now) {
        Ok(_) => {},
        Err(e) => {
            return Err(e);
        },
    }
    after.cauldron_account.accrue_info = accrue_info;
    after.total_data = total_data;
    let out = match borrow_internal(amount, &mut after) {
        Ok(v) => v,
        Err(e) => {
            return Err(e);
        },
    };
    let price_decimal = match get_switchboard_price(
        &after.switchboard_data_feed,
        switchboard_program_id,
        slot,
        after.cauldron_account.constants.stale_after_slots_elapsed,
    ) {
        Ok(v) => v,
        Err(e) => {
            return Err(e);
        },
    };
    let conversion = Conversion {
        mint: after.collateral,
        total_data: after.bentobox_collateral_total_data,
    };
    match solvent(
        &after.user_balance,
        &price_decimal,
        &after.total_data,
        &conversion,
        &after.cauldron_account.constants,
    ) {
        Ok(_) => {},
        Err(e) => {
            return Err(e);
        },
    }
    *accounts = after;
    Ok(out)
}

/// The accounts after [`repay`], and the amount repaid: interest is accrued,
/// then the repayment is taken from the caller's vault balance, or from the
/// vault authority's where the payment is skimmed.
pub open spec fn spec_repay(accounts: Repay, now: u64, skim: bool, part: u64) -> Result<
    (Repay, i64),
    Error,
> {
    match spec_vault_checks(
        accounts.cauldron_account,
        accounts.bentobox_account,
        accounts.bentobox_program,
    ) {
        Err(e) => Err(e),
        Ok(_) => if accounts.cauldron_account.magic_internet_money
            != accounts.magic_internet_money_mint {
            Err(Error::Cauldron(ErrorCode::BentoBoxAccountOwnerDoesNotMatchProgram))
        } else {
            match spec_accrue(accounts.cauldron_account.accrue_info, accounts.total_data, now) {
                Err(e) => Err(e),
                Ok((accrue_info, total_data)) => spec_repay_internal(
                    Repay {
                        cauldron_account: Cauldron { accrue_info, ..accounts.cauldron_account },
                        total_data,
                        ..accounts
                    },
                    if skim {
                        accounts.bentobox_authority
                    } else {
                        accounts.authority
                    },
                    part,
                ),
            }
        },
    }
}

/// Repays `part` of a borrower's debt at the time `now`, in seconds.
/// Returns the amount repaid. On an error the accounts are left as they
/// were.
pub fn repay(accounts: &mut Repay, now: u64, skim: bool, part: u64) -> (r: Result<i64, Error>)
    ensures
        match r {
            Ok(amount) => spec_repay(*old(accounts), now, skim, part) == Ok::<(Repay, i64), Error>(
                (*final(accounts), amount),
            ),
            Err(e) => spec_repay(*old(accounts), now, skim, part) == Err::<(Repay, i64), Error>(e)
                && *final(accounts) == *old(accounts),
        },
{
    match vault_checks(
        &accounts.cauldron_account,
        &accounts.bentobox_account,
        &accounts.bentobox_program,
    ) {
        Ok(_) => {},
        Err(e) => {
            return Err(e);
        },
    }
    if accounts.cauldron_account.magic_internet_money != accounts.magic_internet_money_mint {
        return Err(Error::Cauldron(ErrorCode::BentoBoxAccountOwnerDoesNotMatchProgram));
    }
    let mut after = *accounts;
    let mut accrue_info = after.cauldron_account.accrue_info;
    let mut total_data = after.total_data;
    match accrue_internal(&mut accrue_info, &mut total_data, now) {
        Ok(_) => {},
        Err(e) => {
            return Err(e);
        },
    }
    after.cauldron_account.accrue_info = accrue_info;
    after.total_data = total_data;
    let from_key = if skim {
        accounts.bentobox_authority
    } else {
        accounts.authority
    };
    match operations::repay(part, &mut after, &from_key) {
        Ok(amount) => {
            *accounts = after;
            Ok(amount)
        },
        Err(e) => Err(e),
    }
}

/// The accounts after [`add_collateral`].
///
/// The shares are added to the borrower's position and to the market's
/// ledger. Skimmed, they have to be in the market's vault balance already,
/// beyond what the ledger counted before. Otherwise the vault moves them
/// there from the caller's balance, for which the caller has to hand in the
/// further accounts, and those have to be the market's collateral and vault.
pub open spec fn spec_add_collateral(accounts: AddCollateral, share: u64, skim: bool) -> Result<
    AddCollateral,
    Error,
> {
    if accounts.user_balance.collateral_share + share > u64::MAX
        || accounts.total_data.collateral_share + share > u64::MAX {
        Err(Error::Common(CommonErrorCode::WrongIntegerAddition))
    } else {
        let booked = AddCollateral {
            user_balance: UserBalance {
                collateral_share: (accounts.user_balance.collateral_share + share) as u64,
                ..accounts.user_balance
            },
            total_data: Total {
                collateral_share: (accounts.total_data.collateral_share + share) as u64,
                ..accounts.total_data
            },
            ..accounts
        };
        if skim {
            if accounts.cauldron_bentobox_balance.amount < accounts.total_data.collateral_share {
                Err(Error::Common(CommonErrorCode::WrongIntegerSubtraction))
            } else if share > accounts.cauldron_bentobox_balance.amount
                - accounts.total_data.collateral_share {
                Err(Error::Cauldron(ErrorCode::SkimTooMuch))
            } else {
                Ok(booked)
            }
        } else {
            match accounts.remaining {
                None => Err(Error::Cauldron(ErrorCode::IncorrectRemainingAccounts)),
                Some(remaining) => if accounts.cauldron_account.collateral != remaining.collateral {
                    Err(Error::Cauldron(ErrorCode::InvalidCollateral))
                } else if accounts.cauldron_account.bentobox_program != remaining.bentobox_program {
                    Err(Error::Cauldron(ErrorCode::InvalidBentoboxProgramAccount))
                } else if accounts.cauldron_account.bentobox != remaining.bentobox_account {
                    Err(Error::Cauldron(ErrorCode::InvalidBentoboxAccount))
                } else {
                    match spec_bentobox_transfer(
                        share,
                        accounts.authority,
                        remaining.authority_bentobox_balance,
                        accounts.cauldron_bentobox_balance,
                        remaining.bentobox_account,
                        accounts.cauldron_authority,
                        remaining.bentobox_program,
                        seq![
                            remaining.master_contract_whitelisted,
                            remaining.master_contract_approved,
                            accounts.cauldron_account_info,
                        ],
                    ) {
                        Err(e) => Err(e),
                        Ok((left, received)) => Ok(
                            AddCollateral {
                                cauldron_bentobox_balance: received,
                                remaining: Some(
                                    AddCollateralRemaining {
                                        authority_bentobox_balance: left,
                                        ..remaining
                                    },
                                ),
                                ..booked
                            },
                        ),
                    }
                },
            }
        }
    }
}

/// Adds `share` shares of collateral to a borrower's position. On an error
/// the accounts are left as they were.
#[verifier::rlimit(40)]
pub fn add_collateral(accounts: &mut AddCollateral, share: u64, skim: bool) -> (r: Result<(), Error>)
    ensures
        match r {
            Ok(_) => spec_add_collateral(*old(accounts), share, skim) == Ok::<AddCollateral, Error>(
                *final(accounts),
            ),
            Err(e) => spec_add_collateral(*old(accounts), share, skim) == Err::<
                AddCollateral,
                Error,
            >(e) && *final(accounts) == *old(accounts),
        },
        r is Ok ==> final(accounts).user_balance.collateral_share - old(accounts).user_balance.collateral_share == share && final(accounts).total_data.collateral_share
            - old(accounts).total_data.collateral_share == share,
{
    let user_share = match accounts.user_balance.collateral_share.checked_add(share) {
        Some(v) => v,
        None => {
            return Err(Error::Common(CommonErrorCode::WrongIntegerAddition));
        },
    };
    let old_total_collateral_share = accounts.total_data.collateral_share;
    let total_share = match old_total_collateral_share.checked_add(share) {
        Some(v) => v,
        None => {
            return Err(Error::Common(CommonErrorCode::WrongIntegerAddition));
        },
    };
    if skim {
        let uncounted = match accounts.cauldron_bentobox_balance.amount.checked_sub(
            old_total_collateral_share,
        ) {
            Some(v) => v,
            None => {
                return Err(Error::Common(CommonErrorCode::WrongIntegerSubtraction));
            },
        };
        if share > uncounted {
            return Err(Error::Cauldron(ErrorCode::SkimTooMuch));
        }
    } else {
        let remaining = match accounts.remaining {
            Some(v) => v,
            None => {
                return Err(Error::Cauldron(ErrorCode::IncorrectRemainingAccounts));
            },
        };
        if accounts.cauldron_account.collateral != remaining.collateral {
            return Err(Error::Cauldron(ErrorCode::InvalidCollateral));
        }
        if accounts.cauldron_account.bentobox_program != remaining.bentobox_program {
            return Err(Error::Cauldron(ErrorCode::InvalidBentoboxProgramAccount));
        }
        if accounts.cauldron_account.bentobox != remaining.bentobox_account {
            return Err(Error::Cauldron(ErrorCode::InvalidBentoboxAccount));
        }
        let mut balance_from = remaining.authority_bentobox_balance;
        let mut balance_to = accounts.cauldron_bentobox_balance;
        let mut handed: Vec<AccountInfo> = Vec::new();
        handed.push(remaining.master_contract_whitelisted);
        handed.push(remaining.master_contract_approved);
        handed.push(accounts.cauldron_account_info);
        assert(handed@ =~= seq![
            remaining.master_contract_whitelisted,
            remaining.master_contract_approved,
            accounts.cauldron_account_info,
        ]);
        match create_bentobox_transfer_context(
            share,
            &accounts.authority,
            &mut balance_from,
            &mut balance_to,
            &remaining.bentobox_account,
            &accounts.cauldron_authority,
            &remaining.bentobox_program,
            &handed,
        ) {
            Ok(_) => {},
            Err(e) => {
                return Err(e);
            },
        }
        accounts.cauldron_bentobox_balance = balance_to;
        accounts.remaining = Some(
            AddCollateralRemaining { authority_bentobox_balance: balance_from, ..remaining },
        );
    }
    accounts.user_balance.collateral_share = user_share;
    accounts.total_data.collateral_share = total_share;
    Ok(())
}

/// What the accounts of a removal of collateral have to meet.
pub open spec fn spec_remove_collateral_checks(accounts: RemoveCollateral) -> Result<(), Error> {
    if accounts.collateral != accounts.cauldron_account.collateral {
        Err(Error::Cauldron(ErrorCode::InvalidCollateral))
    } else {
        match spec_vault_checks(
            accounts.cauldron_account,
            accounts.bentobox_account,
            accounts.bentobox_program,
        ) {
            Err(e) => Err(e),
            Ok(_) => if accounts.switchboard_data_feed.key
                != accounts.cauldron_account.switchboard_data_feed {
                Err(Error::Cauldron(ErrorCode::IncompatibleSwitchboardDataFeed))
            } else {
                Ok(())
            },
        }
    }
}

/// The accounts after [`remove_collateral`]: interest is accrued, the
/// shares leave the position, and the borrower has to be solvent at the
/// feed's price afterwards.
pub open spec fn spec_remove_collateral(
    accounts: RemoveCollateral,
    switchboard_program_id: Pubkey,
    now: u64,
    slot: u64,
    share: u64,
) -> Result<RemoveCollateral, Error> {
    match spec_remove_collateral_checks(accounts) {
        Err(e) => Err(e),
        Ok(_) => match spec_accrue(accounts.cauldron_account.accrue_info, accounts.total_data, now) {
            Err(e) => Err(e),
            Ok((accrue_info, total_data)) => match spec_remove_collateral_internal(
                RemoveCollateral {
                    cauldron_account: Cauldron { accrue_info, ..accounts.cauldron_account },
                    total_data,
                    ..accounts
                },
                share,
            ) {
                Err(e) => Err(e),
                Ok(after) => match spec_get_switchboard_price(
                    after.switchboard_data_feed,
                    switchboard_program_id,
                    slot,
                    after.cauldron_account.constants.stale_after_slots_elapsed,
                ) {
                    Err(e) => Err(e),
                    Ok(price) => match spec_solvent(
                        after.user_balance,
                        price,
                        after.total_data,
                        Conversion { mint: after.collateral, total_data: after.bentobox_total_data },
                        after.cauldron_account.constants,
                    ) {
                        Err(e) => Err(e),
                        Ok(_) => Ok(after),
                    },
                },
            },
        },
    }
}

/// Takes `share` shares of collateral out of a borrower's position, at the
/// time `now` in seconds and the slot `slot`. On an error the accounts are
/// left as they were.
#[verifier::rlimit(40)]
pub fn remove_collateral(
    accounts: &mut RemoveCollateral,
    switchboard_program_id: &Pubkey,
    now: u64,
    slot: u64,
    share: u64,
) -> (r: Result<(), Error>)
    ensures
        match r {
            Ok(_) => spec_remove_collateral(
                *old(accounts),
                *switchboard_program_id,
                now,
                slot,
                share,
            ) == Ok::<RemoveCollateral, Error>(*final(accounts)),
            Err(e) => spec_remove_collateral(
                *old(accounts),
                *switchboard_program_id,
                now,
                slot,
                share,
            ) == Err::<RemoveCollateral, Error>(e) && *final(accounts) == *old(accounts),
        },
{
    if accounts.collateral != accounts.cauldron_account.collateral {
        return Err(Error::Cauldron(ErrorCode::InvalidCollateral));
    }
    match vault_checks(
        &accounts.cauldron_account,
        &accounts.bentobox_account,
        &accounts.bentobox_program,
    ) {
        Ok(_) => {},
        Err(e) => {
            return Err(e);
        },
    }
    if accounts.switchboard_data_feed.key != accounts.cauldron_account.switchboard_data_feed {
        return Err(Error::Cauldron(ErrorCode::IncompatibleSwitchboardDataFeed));
    }
    let mut after = *accounts;
    let mut accrue_info = after.cauldron_account.accrue_info;
    let mut total_data = after.total_data;
    match accrue_internal(&mut accrue_info, &mut total_data, now) {
        Ok(_) => {},
        Err(e) => {
            return Err(e);
        },
    }
    after.cauldron_account.accrue_info = accrue_info;
    after.total_data = total_data;
    match operations::remove_collateral(share, &mut after) {
        Ok(_) => {},
        Err(e) => {
            return Err(e);
        },
    }
    let price_decimal = match get_switchboard_price(
        &after.switchboard_data_feed,
        switchboard_program_id,
        slot,
        after.cauldron_account.constants.stale_after_slots_elapsed,
    ) {
        Ok(v) => v,
        Err(e) => {
            return Err(e);
        },
    };
    let conversion = Conversion { mint: after.collateral, total_data: after.bentobox_total_data };
    match solvent(
        &after.user_balance,
        &price_decimal,
        &after.total_data,
        &conversion,
        &after.cauldron_account.constants,
    ) {
        Ok(_) => {},
        Err(e) => {
            return Err(e);
        },
    }
    *accounts = after;
    Ok(())
}

/// The accounts after [`withdraw_fees`]: interest is accrued, the fees
/// earned go, as shares of the vault rounded down, from the market's vault
/// balance to that of the fees' receiver, and the fees earned start again at
/// zero.
pub open spec fn spec_withdraw_fees(accounts: WithdrawFees, now: u64) -> Result<WithdrawFees, Error> {
    match spec_vault_checks(
        accounts.cauldron_account,
        accounts.bentobox_account,
        accounts.bentobox_program,
    ) {
        Err(e) => Err(e),
        Ok(_) => if accounts.magic_internet_money != accounts.cauldron_account.magic_internet_money {
            Err(Error::Cauldron(ErrorCode::InvalidMagicInternetMoneyAccount))
        } else {
            match spec_accrue(accounts.cauldron_account.accrue_info, accounts.total_data, now) {
                Err(e) => Err(e),
                Ok((accrue_info, total_data)) => if accrue_info.fees_earned > u64::MAX {
                    Err(Error::Common(CommonErrorCode::TryIntoConversionError))
                } else {
                    match spec_to_share(
                        Conversion {
                            mint: accounts.magic_internet_money,
                            total_data: accounts.bentobox_total_data,
                        },
                        accrue_info.fees_earned as u64,
                        false,
                    ) {
                        Err(e) => Err(e),
                        Ok(share) => match spec_bentobox_transfer(
                            share,
                            accounts.cauldron_authority,
                            accounts.cauldron_bentobox_balance,
                            accounts.fee_to_bentobox_balance,
                            accounts.bentobox_account,
                            accounts.cauldron_authority,
                            accounts.bentobox_program,
                            Seq::<AccountInfo>::empty(),
                        ) {
                            Err(e) => Err(e),
                            Ok((left, received)) => Ok(
                                WithdrawFees {
                                    cauldron_account: Cauldron {
                                        accrue_info: AccrueInfo { fees_earned: 0, ..accrue_info },
                                        ..accounts.cauldron_account
                                    },
                                    total_data,
                                    cauldron_bentobox_balance: left,
                                    fee_to_bentobox_balance: received,
                                    ..accounts
                                },
                            ),
                        },
                    }
                },
            }
        },
    }
}

/// Pays the fees earned out to their receiver, at the time `now` in
/// seconds. On an error the accounts are left as they were.
#[verifier::rlimit(40)]
pub fn withdraw_fees(accounts: &mut WithdrawFees, now: u64) -> (r: Result<(), Error>)
    ensures
        match r {
            Ok(_) => spec_withdraw_fees(*old(accounts), now) == Ok::<WithdrawFees, Error>(
                *final(accounts),
            ),
            Err(e) => spec_withdraw_fees(*old(accounts), now) == Err::<WithdrawFees, Error>(e)
                && *final(accounts) == *old(accounts),
        },
{
    match vault_checks(
        &accounts.cauldron_account,
        &accounts.bentobox_account,
        &accounts.bentobox_program,
    ) {
        Ok(_) => {},
        Err(e) => {
            return Err(e);
        },
    }
    if accounts.magic_internet_money != accounts.cauldron_account.magic_internet_money {
        return Err(Error::Cauldron(ErrorCode::InvalidMagicInternetMoneyAccount));
    }
    let mut accrue_info = accounts.cauldron_account.accrue_info;
    let mut total_data = accounts.total_data;
    match accrue_internal(&mut accrue_info, &mut total_data, now) {
        Ok(_) => {},
        Err(e) => {
            return Err(e);
        },
    }
    let fees_earned = accrue_info.fees_earned;
    if fees_earned > u64::MAX as u128 {
        return Err(Error::Common(CommonErrorCode::TryIntoConversionError));
    }
    let conversion = Conversion {
        mint: accounts.magic_internet_money,
        total_data: accounts.bentobox_total_data,
    };
    let share = match to_share(&conversion, fees_earned as u64, false) {
        Ok(v) => v,
        Err(e) => {
            return Err(e);
        },
    };
    let mut balance_from = accounts.cauldron_bentobox_balance;
    let mut balance_to = accounts.fee_to_bentobox_balance;
    let none: Vec<AccountInfo> = Vec::new();
    match create_bentobox_transfer_context(
        share,
        &accounts.cauldron_authority,
        &mut balance_from,
        &mut balance_to,
        &accounts.bentobox_account,
        &accounts.cauldron_authority,
        &accounts.bentobox_program,
        &none,
    ) {
        Ok(_) => {},
        Err(e) => {
            return Err(e);
        },
    }
    accrue_info.fees_earned = 0;
    accounts.cauldron_account.accrue_info = accrue_info;
    accounts.total_data = total_data;
    accounts.cauldron_bentobox_balance = balance_from;
    accounts.fee_to_bentobox_balance = balance_to;
    Ok(())
}

/// What [`get_repay_share`] returns: the shares of the vault that repaying
/// `base_amount` of the debt costs, rounded up at both steps.
pub open spec fn spec_get_repay_share(total_data: Total, bentobox: Conversion, base_amount: u64) -> Result<
    u64,
    Error,
> {
    match total_data.borrow.spec_to_elastic(base_amount, true) {
        Err(e) => Err(Error::Common(e)),
        Ok(elastic) => spec_to_share(bentobox, elastic, true),
    }
}

/// Shares of the vault that repaying `base_amount` of the debt costs.
pub fn get_repay_share(total_data: &Total, bentobox: &Conversion, base_amount: u64) -> (r: Result<
    u64,
    Error,
>)
    ensures
        r == spec_get_repay_share(*total_data, *bentobox, base_amount),
{
    let elastic = match total_data.borrow.to_elastic(base_amount, true) {
        Ok(v) => v,
        Err(e) => {
            return Err(Error::Common(e));
        },
    };
    to_share(bentobox, elastic, true)
}

/// Part of the debt that `amount` owed stands for, rounded down.
pub fn get_repay_part(total_data: &Total, amount: u64) -> (r: Result<u64, Error>)
    ensures
        r == Error::spec_lift(total_data.borrow.spec_to_base(amount, false)),
{
    Error::lift(total_data.borrow.to_base(amount, false))
}

/// What a pass through the market to its vault has to meet: the vault is
/// the market's own, and the whitelist record handed in is the market's.
pub open spec fn spec_pass_checks(
    cauldron_account: Cauldron,
    bentobox_account: Pubkey,
    bentobox_program: Pubkey,
    master_contract: MasterContractAccounts,
) -> Result<(), Error> {
    match spec_vault_checks(cauldron_account, bentobox_account, bentobox_program) {
        Err(e) => Err(e),
        Ok(_) => spec_validate_whitelisted_account(
            master_contract.master_contract_whitelisted,
            master_contract.cauldron_account.key,
            bentobox_program,
        ),
    }
}

fn pass_checks(
    cauldron_account: &Cauldron,
    bentobox_account: &Pubkey,
    bentobox_program: &Pubkey,
    master_contract: &MasterContractAccounts,
) -> (r: Result<(), Error>)
    ensures
        r == spec_pass_checks(
            *cauldron_account,
            *bentobox_account,
            *bentobox_program,
            *master_contract,
        ),
{
    match vault_checks(cauldron_account, bentobox_account, bentobox_program) {
        Ok(_) => {},
        Err(e) => {
            return Err(e);
        },
    }
    validate_whitelisted_account(
        &master_contract.master_contract_whitelisted,
        &master_contract.cauldron_account.key,
        bentobox_program,
    )
}

/// The accounts after [`bento_deposit`], and what was moved.
pub open spec fn spec_bento_deposit_through(accounts: BentoDeposit, amount: u64, share: u64) -> Result<
    (BentoDeposit, AmountShareOut),
    Error,
> {
    match spec_pass_checks(
        accounts.cauldron_account,
        accounts.vault.bentobox_account,
        accounts.vault.bentobox_program,
        accounts.master_contract,
    ) {
        Err(e) => Err(e),
        Ok(_) => match spec_bento_deposit(
            amount,
            share,
            accounts.vault,
            accounts.cauldron_authority,
            accounts.master_contract.spec_accounts(),
        ) {
            Err(e) => Err(e),
            Ok((vault, out)) => Ok((BentoDeposit { vault, ..accounts }, out)),
        },
    }
}

/// Deposits into the vault through the market. On an error the accounts are
/// left as they were.
pub fn bento_deposit(accounts: &mut BentoDeposit, amount: u64, share: u64) -> (r: Result<
    AmountShareOut,
    Error,
>)
    ensures
        match r {
            Ok(out) => spec_bento_deposit_through(*old(accounts), amount, share) == Ok::<
                (BentoDeposit, AmountShareOut),
                Error,
            >((*final(accounts), out)),
            Err(e) => spec_bento_deposit_through(*old(accounts), amount, share) == Err::<
                (BentoDeposit, AmountShareOut),
                Error,
            >(e) && *final(accounts) == *old(accounts),
        },
{
    match pass_checks(
        &accounts.cauldron_account,
        &accounts.vault.bentobox_account,
        &accounts.vault.bentobox_program,
        &accounts.master_contract,
    ) {
        Ok(_) => {},
        Err(e) => {
            return Err(e);
        },
    }
    let mut vault = accounts.vault;
    let remaining = accounts.master_contract.accounts();
    match operations::bento_deposit(
        amount,
        share,
        &mut vault,
        &accounts.cauldron_authority,
        &remaining,
    ) {
        Ok(out) => {
            accounts.vault = vault;
            Ok(out)
        },
        Err(e) => Err(e),
    }
}

/// The accounts after [`bento_withdraw`], and what was moved.
pub open spec fn spec_bento_withdraw_through(accounts: BentoWithdraw, amount: u64, share: u64) -> Result<
    (BentoWithdraw, AmountShareOut),
    Error,
> {
    match spec_pass_checks(
        accounts.cauldron_account,
        accounts.vault.bentobox_account,
        accounts.vault.bentobox_program,
        accounts.master_contract,
    ) {
        Err(e) => Err(e),
        Ok(_) => match spec_bento_withdraw(
            accounts.authority,
            amount,
            share,
            accounts.vault,
            accounts.cauldron_authority,
            accounts.master_contract.spec_accounts(),
        ) {
            Err(e) => Err(e),
            Ok((vault, out)) => Ok((BentoWithdraw { vault, ..accounts }, out)),
        },
    }
}

/// Withdraws the caller's tokens from the vault through the market. On an
/// error the accounts are left as they were.
pub fn bento_withdraw(accounts: &mut BentoWithdraw, amount: u64, share: u64) -> (r: Result<
    AmountShareOut,
    Error,
>)
    ensures
        match r {
            Ok(out) => spec_bento_withdraw_through(*old(accounts), amount, share) == Ok::<
                (BentoWithdraw, AmountShareOut),
                Error,
            >((*final(accounts), out)),
            Err(e) => spec_bento_withdraw_through(*old(accounts), amount, share) == Err::<
                (BentoWithdraw, AmountShareOut),
                Error,
            >(e) && *final(accounts) == *old(accounts),
        },
{
    match pass_checks(
        &accounts.cauldron_account,
        &accounts.vault.bentobox_account,
        &accounts.vault.bentobox_program,
        &accounts.master_contract,
    ) {
        Ok(_) => {},
        Err(e) => {
            return Err(e);
        },
    }
    let mut vault = accounts.vault;
    let remaining = accounts.master_contract.accounts();
    match operations::bento_withdraw(
        &accounts.authority,
        amount,
        share,
        &mut vault,
        &accounts.cauldron_authority,
        &remaining,
    ) {
        Ok(out) => {
            accounts.vault = vault;
            Ok(out)
        },
        Err(e) => Err(e),
    }
}

/// The accounts after [`bento_transfer`]: the caller has to be the holder
/// who gives.
pub open spec fn spec_bento_transfer(accounts: BentoTransfer, from: Pubkey, share: u64) -> Result<
    BentoTransfer,
    Error,
> {
    match spec_vault_checks(
        accounts.cauldron_account,
        accounts.bentobox_account,
        accounts.bentobox_program,
    ) {
        Err(e) => Err(e),
        Ok(_) => if accounts.authority != from {
            Err(Error::Cauldron(ErrorCode::InvalidParameterFrom))
        } else {
            match spec_bentobox_transfer(
                share,
                from,
                accounts.from_bentobox_balance,
                accounts.to_bentobox_balance,
                accounts.bentobox_account,
                accounts.cauldron_authority,
                accounts.bentobox_program,
                accounts.master_contract.spec_accounts(),
            ) {
                Err(e) => Err(e),
                Ok((left, received)) => Ok(
                    BentoTransfer {
                        from_bentobox_balance: left,
                        to_bentobox_balance: received,
                        ..accounts
                    },
                ),
            }
        },
    }
}

/// Moves the caller's shares in the vault through the market. On an error
/// the accounts are left as they were.
pub fn bento_transfer(accounts: &mut BentoTransfer, from: &Pubkey, share: u64) -> (r: Result<
    (),
    Error,
>)
    ensures
        match r {
            Ok(_) => spec_bento_transfer(*old(accounts), *from, share) == Ok::<BentoTransfer, Error>(
                *final(accounts),
            ),
            Err(e) => spec_bento_transfer(*old(accounts), *from, share) == Err::<
                BentoTransfer,
                Error,
            >(e) && *final(accounts) == *old(accounts),
        },
{
    match vault_checks(
        &accounts.cauldron_account,
        &accounts.bentobox_account,
        &accounts.bentobox_program,
    ) {
        Ok(_) => {},
        Err(e) => {
            return Err(e);
        },
    }
    if accounts.authority != *from {
        return Err(Error::Cauldron(ErrorCode::InvalidParameterFrom));
    }
    let mut balance_from = accounts.from_bentobox_balance;
    let mut balance_to = accounts.to_bentobox_balance;
    let remaining = accounts.master_contract.accounts();
    match create_bentobox_transfer_context(
        share,
        from,
        &mut balance_from,
        &mut balance_to,
        &accounts.bentobox_account,
        &accounts.cauldron_authority,
        &accounts.bentobox_program,
        &remaining,
    ) {
        Ok(_) => {
            accounts.from_bentobox_balance = balance_from;
            accounts.to_bentobox_balance = balance_to;
            Ok(())
        },
        Err(e) => Err(e),
    }
}

/// The accounts after [`reduce_supply`], and what was moved: the market
/// takes `amount` of its own tokens out of the vault, or all it has there
/// where that is less, counted in shares.
pub open spec fn spec_reduce_supply(accounts: ReduceSupply, amount: u64) -> Result<
    (ReduceSupply, AmountShareOut),
    Error,
> {
    match spec_vault_checks(
        accounts.cauldron_account,
        accounts.vault.bentobox_account,
        accounts.vault.bentobox_program,
    ) {
        Err(e) => Err(e),
        Ok(_) => match spec_bento_withdraw(
            accounts.cauldron_authority,
            if amount > accounts.vault.bentobox_from_balance.amount {
                accounts.vault.bentobox_from_balance.amount
            } else {
                amount
            },
            0,
            accounts.vault,
            accounts.cauldron_authority,
            Seq::<AccountInfo>::empty(),
        ) {
            Err(e) => Err(e),
            Ok((vault, out)) => Ok((ReduceSupply { vault, ..accounts }, out)),
        },
    }
}

/// Takes tokens lent out of circulation: withdraws up to `amount` of the
/// market's own from the vault. On an error the accounts are left as they
/// were.
pub fn reduce_supply(accounts: &mut ReduceSupply, amount: u64) -> (r: Result<AmountShareOut, Error>)
    ensures
        match r {
            Ok(out) => spec_reduce_supply(*old(accounts), amount) == Ok::<
                (ReduceSupply, AmountShareOut),
                Error,
            >((*final(accounts), out)),
            Err(e) => spec_reduce_supply(*old(accounts), amount) == Err::<
                (ReduceSupply, AmountShareOut),
                Error,
            >(e) && *final(accounts) == *old(accounts),
        },
{
    match vault_checks(
        &accounts.cauldron_account,
        &accounts.vault.bentobox_account,
        &accounts.vault.bentobox_program,
    ) {
        Ok(_) => {},
        Err(e) => {
            return Err(e);
        },
    }
    let reduce_amount = if amount > accounts.vault.bentobox_from_balance.amount {
        accounts.vault.bentobox_from_balance.amount
    } else {
        amount
    };
    let mut vault = accounts.vault;
    let none: Vec<AccountInfo> = Vec::new();
    match operations::bento_withdraw(
        &accounts.cauldron_authority,
        reduce_amount,
        0,
        &mut vault,
        &accounts.cauldron_authority,
        &none,
    ) {
        Ok(out) => {
            accounts.vault = vault;
            Ok(out)
        },
        Err(e) => Err(e),
    }
}

/// Takes on another price feed, which has to pass
/// [`validate_switchboard_data_feed`]. On an error the market is left as it
/// was.
pub fn update_switchboard_data_feed(
    cauldron_account: &mut Cauldron,
    switchboard_data_feed: &DataFeed,
    switchboard_program_id: &Pubkey,
) -> (r: Result<(), Error>)
    ensures
        r == spec_validate_switchboard_data_feed(*switchboard_data_feed, *switchboard_program_id),
        r is Ok ==> *final(cauldron_account) == (Cauldron {
            switchboard_data_feed: switchboard_data_feed.key,
            ..*old(cauldron_account)
        }),
        r is Err ==> *final(cauldron_account) == *old(cauldron_account),
{
    match validate_switchboard_data_feed(switchboard_data_feed, switchboard_program_id) {
        Ok(_) => {},
        Err(e) => {
            return Err(e);
        },
    }
    cauldron_account.switchboard_data_feed = switchboard_data_feed.key;
    Ok(())
}

} // verus!
