use crate::bentobox::context::Conversion;
use crate::bentobox::instructions::{spec_to_share, to_share};
use crate::bentobox::state::{AccountInfo, Total as BentoboxTotal};
use crate::cauldron::context::{
    BeginLiquidate, CompleteLiquidate, Liquidate, LiquidateAccounts, LiquidateSwap, VaultDeposit,
    VaultWithdraw,
};
use crate::cauldron::error::ErrorCode;
use crate::cauldron::instructions::{spec_vault_checks, vault_checks};
use crate::cauldron::operations::{
    bento_deposit, bento_withdraw, create_bentobox_transfer_context, spec_bento_deposit,
    spec_bento_withdraw, spec_bentobox_transfer,
};
use crate::cauldron::state::{
    AccrueInfo, Cauldron, Constants, LiquidatorAccount, SwitchboardDecimal, Total, UserBalance,
};
use crate::cauldron::utils::{
    accrue_internal, get_switchboard_price, is_solvent, mul_mul_div, pow10, spec_accrue,
    spec_get_switchboard_price, spec_is_solvent, spec_mul_mul_div, spec_pow10,
};
use crate::common::big_number::{modulus, U256};
use crate::common::errors::ErrorCode as CommonErrorCode;
use crate::common::pubkey::Pubkey;
use crate::common::rebase::Rebase;
use crate::error::Error;
use crate::swapper::swapper_interface::Swapper;
use vstd::prelude::*;

verus! {

/// The part of the debt that a liquidation takes: what is asked for, but no
/// more than the borrower holds.
pub open spec fn spec_borrow_part_to_seize(max_borrow_part: u64, available_borrow_part: u64) -> u64 {
    if max_borrow_part > available_borrow_part {
        available_borrow_part
    } else {
        max_borrow_part
    }
}

/// Caps the part of the debt that a liquidation takes at what the borrower
/// holds.
pub fn borrow_part_to_seize(max_borrow_part: u64, available_borrow_part: u64) -> (r: u64)
    ensures
        r == spec_borrow_part_to_seize(max_borrow_part, available_borrow_part),
        r <= max_borrow_part,
        r <= available_borrow_part,
{
    if max_borrow_part > available_borrow_part {
        available_borrow_part
    } else {
        max_borrow_part
    }
}

/// The amount of collateral that pays for `borrow_amount` of debt at the
/// price given: the debt times the liquidation multiplier times the price's
/// mantissa, by the multiplier's precision times `10^scale`, rounded down,
/// all in 256 bits.
pub open spec fn spec_seized_collateral(
    borrow_amount: u64,
    constants: Constants,
    price_decimal: SwitchboardDecimal,
) -> Result<u64, CommonErrorCode> {
    if price_decimal.mantissa < 0 {
        Err(CommonErrorCode::BnConversionError)
    } else {
        match spec_pow10(price_decimal.scale) {
            Err(e) => Err(e),
            Ok(power) => if constants.liquidation_multiplier_precision as nat * power
                >= modulus() {
                Err(CommonErrorCode::WrongIntegerMultiplication)
            } else {
                match spec_mul_mul_div(
                    borrow_amount as nat,
                    constants.liquidation_multiplier as nat,
                    price_decimal.mantissa as nat,
                    constants.liquidation_multiplier_precision as nat * power,
                ) {
                    Err(e) => Err(e),
                    Ok(v) => if v > u64::MAX {
                        Err(CommonErrorCode::BnConversionError)
                    } else {
                        Ok(v as u64)
                    },
                }
            },
        }
    }
}

/// Computes the amount of collateral that pays for `borrow_amount` of debt.
#[verifier::rlimit(40)]
pub fn seized_collateral(
    borrow_amount: u64,
    constants: &Constants,
    price_decimal: &SwitchboardDecimal,
) -> (r: Result<u64, CommonErrorCode>)
    ensures
        r == spec_seized_collateral(borrow_amount, *constants, *price_decimal),
{
    let mantissa = match U256::try_from_i128(price_decimal.mantissa) {
        Ok(v) => v,
        Err(e) => {
            return Err(e);
        },
    };
    let power = match pow10(price_decimal.scale) {
        Ok(v) => v,
        Err(e) => {
            return Err(e);
        },
    };
    let divisor = match U256::from_u64(constants.liquidation_multiplier_precision).checked_mul(
        &power,
    ) {
        Some(v) => v,
        None => {
            return Err(CommonErrorCode::WrongIntegerMultiplication);
        },
    };
    proof {
        divisor.lemma_bounded();
    }
    let elastic = match mul_mul_div(
        &U256::from_u64(borrow_amount),
        &U256::from_u64(constants.liquidation_multiplier),
        &mantissa,
        &divisor,
    ) {
        Ok(v) => v,
        Err(e) => {
            return Err(e);
        },
    };
    elastic.try_to_u64()
}

/// The fee that a liquidation of `borrow_amount` owes on top: the
/// distribution part of the liquidator's bonus, the bonus being what the
/// debt times the liquidation multiplier exceeds the debt by.
pub open spec fn spec_distribution_amount(borrow_amount: u64, constants: Constants) -> Result<
    u64,
    CommonErrorCode,
> {
    if constants.liquidation_multiplier_precision == 0 {
        Err(CommonErrorCode::WrongIntegerDivision)
    } else {
        let boosted = (borrow_amount as nat * constants.liquidation_multiplier as nat)
            / constants.liquidation_multiplier_precision as nat;
        if boosted < borrow_amount {
            Err(CommonErrorCode::WrongIntegerSubtraction)
        } else if constants.distribution_precision == 0 {
            Err(CommonErrorCode::WrongIntegerDivision)
        } else {
            let fee = ((boosted - borrow_amount) as nat * constants.distribution_part as nat)
                / constants.distribution_precision as nat;
            if fee > u64::MAX {
                Err(CommonErrorCode::BnConversionError)
            } else {
                Ok(fee as u64)
            }
        }
    }
}

/// Computes the fee that a liquidation owes on top.
#[verifier::rlimit(40)]
pub fn distribution_amount(borrow_amount: u64, constants: &Constants) -> (r: Result<
    u64,
    CommonErrorCode,
>)
    ensures
        r == spec_distribution_amount(borrow_amount, *constants),
{
    let one = U256::one();
    let amount = U256::from_u64(borrow_amount);
    proof {
        let a = borrow_amount as nat;
        let m = constants.liquidation_multiplier as nat;
        assert(a * m <= 0xffff_ffff_ffff_ffff * 0xffff_ffff_ffff_ffff) by (nonlinear_arith)
            requires
                a <= 0xffff_ffff_ffff_ffff,
                m <= 0xffff_ffff_ffff_ffff,
        ;
        assert(a * m * 1 == a * m) by (nonlinear_arith);
    }
    let boosted = match mul_mul_div(
        &amount,
        &U256::from_u64(constants.liquidation_multiplier),
        &one,
        &U256::from_u64(constants.liquidation_multiplier_precision),
    ) {
        Ok(v) => v,
        Err(e) => {
            return Err(e);
        },
    };
    let bonus = match boosted.checked_sub(&amount) {
        Some(v) => v,
        None => {
            return Err(CommonErrorCode::WrongIntegerSubtraction);
        },
    };
    proof {
        let a = borrow_amount as nat;
        let m = constants.liquidation_multiplier as nat;
        let p = constants.liquidation_multiplier_precision as nat;
        let d = constants.distribution_part as nat;
        assert((a * m) / p <= a * m) by (nonlinear_arith)
            requires
                p >= 1,
                a * m >= 0,
        ;
        let b = bonus@;
        assert(b * d <= 0xffff_ffff_ffff_ffff * 0xffff_ffff_ffff_ffff * 0xffff_ffff_ffff_ffff)
            by (nonlinear_arith)
            requires
                b <= 0xffff_ffff_ffff_ffff * 0xffff_ffff_ffff_ffff,
                d <= 0xffff_ffff_ffff_ffff,
        ;
        assert(b * d * 1 == b * d) by (nonlinear_arith);
    }
    let fee = match mul_mul_div(
        &bonus,
        &U256::from_u64(constants.distribution_part),
        &one,
        &U256::from_u64(constants.distribution_precision),
    ) {
        Ok(v) => v,
        Err(e) => {
            return Err(e);
        },
    };
    fee.try_to_u64()
}

/// What a liquidation takes from a position.
#[derive(Clone, Copy, Debug, PartialEq, Eq, Structural)]
pub struct Seizure {
    /// Part of the debt taken over.
    pub borrow_part: u64,
    /// What that part is worth, rounded down.
    pub borrow_amount: u64,
    /// Collateral taken, in shares of the vault.
    pub collateral_share: u64,
}

/// What a liquidation takes from an insolvent position, and the position
/// afterwards.
///
/// The part of the debt is what is asked for, capped at what the borrower
/// holds. The collateral that pays for it is turned into shares of the vault,
/// rounded down, and the position has to hold that many.
pub open spec fn spec_seize(
    user_balance: UserBalance,
    borrow: Rebase,
    bentobox_collateral: Rebase,
    constants: Constants,
    price_decimal: SwitchboardDecimal,
    max_borrow_part: u64,
) -> Result<(UserBalance, Seizure), CommonErrorCode> {
    let borrow_part = spec_borrow_part_to_seize(max_borrow_part, user_balance.borrow_part);
    match borrow.spec_to_elastic(borrow_part, false) {
        Err(e) => Err(e),
        Ok(borrow_amount) => match spec_seized_collateral(borrow_amount, constants, price_decimal) {
            Err(e) => Err(e),
            Ok(elastic) => match bentobox_collateral.spec_to_base(elastic, false) {
                Err(e) => Err(e),
                Ok(collateral_share) => if user_balance.collateral_share < collateral_share {
                    Err(CommonErrorCode::WrongIntegerSubtraction)
                } else {
                    Ok(
                        (
                            UserBalance {
                                borrow_part: (user_balance.borrow_part - borrow_part) as u64,
                                collateral_share: (user_balance.collateral_share
                                    - collateral_share) as u64,
                            },
                            Seizure { borrow_part, borrow_amount, collateral_share },
                        ),
                    )
                },
            },
        },
    }
}

/// Works out what a liquidation takes from an insolvent position.
pub fn seize(
    user_balance: &UserBalance,
    borrow: &Rebase,
    bentobox_collateral: &Rebase,
    constants: &Constants,
    price_decimal: &SwitchboardDecimal,
    max_borrow_part: u64,
) -> (r: Result<(UserBalance, Seizure), CommonErrorCode>)
    ensures
        r == spec_seize(
            *user_balance,
            *borrow,
            *bentobox_collateral,
            *constants,
            *price_decimal,
            max_borrow_part,
        ),
        r matches Ok((after, seizure)) ==> seizure.borrow_part == spec_borrow_part_to_seize(
            max_borrow_part,
            user_balance.borrow_part,
        ) && after.borrow_part + seizure.borrow_part == user_balance.borrow_part,
{
    let borrow_part = borrow_part_to_seize(max_borrow_part, user_balance.borrow_part);
    let borrow_amount = match borrow.to_elastic(borrow_part, false) {
        Ok(v) => v,
        Err(e) => {
            return Err(e);
        },
    };
    let elastic = match seized_collateral(borrow_amount, constants, price_decimal) {
        Ok(v) => v,
        Err(e) => {
            return Err(e);
        },
    };
    let collateral_share = match bentobox_collateral.to_base(elastic, false) {
        Ok(v) => v,
        Err(e) => {
            return Err(e);
        },
    };
    let left = match user_balance.collateral_share.checked_sub(collateral_share) {
        Some(v) => v,
        None => {
            return Err(CommonErrorCode::WrongIntegerSubtraction);
        },
    };
    Ok(
        (
            UserBalance {
                borrow_part: user_balance.borrow_part - borrow_part,
                collateral_share: left,
            },
            Seizure { borrow_part, borrow_amount, collateral_share },
        ),
    )
}

/// The market's books once a seizure is booked, and what the liquidator has
/// to pay: the seized part leaves the debt and the collateral leaves the
/// ledger, and the fee on the liquidator's bonus is added to what the
/// liquidator pays and to the fees earned.
pub open spec fn spec_book_seizure(
    total_data: Total,
    accrue_info: AccrueInfo,
    constants: Constants,
    seizure: Seizure,
) -> Result<(Total, AccrueInfo, u64), Error> {
    if seizure.borrow_amount == 0 {
        Err(Error::Cauldron(ErrorCode::UserIsSolvent))
    } else if total_data.borrow.base < seizure.borrow_part || total_data.borrow.elastic
        < seizure.borrow_amount || total_data.collateral_share < seizure.collateral_share {
        Err(Error::Common(CommonErrorCode::WrongIntegerSubtraction))
    } else {
        match spec_distribution_amount(seizure.borrow_amount, constants) {
            Err(e) => Err(Error::Common(e)),
            Ok(fee) => if seizure.borrow_amount + fee > u64::MAX || accrue_info.fees_earned + fee
                > u128::MAX {
                Err(Error::Common(CommonErrorCode::WrongIntegerAddition))
            } else {
                Ok(
                    (
                        Total {
                            collateral_share: (total_data.collateral_share
                                - seizure.collateral_share) as u64,
                            borrow: Rebase {
                                base: (total_data.borrow.base - seizure.borrow_part) as u128,
                                elastic: (total_data.borrow.elastic - seizure.borrow_amount) as u128,
                            },
                        },
                        AccrueInfo {
                            fees_earned: (accrue_info.fees_earned + fee) as u128,
                            ..accrue_info
                        },
                        (seizure.borrow_amount + fee) as u64,
                    ),
                )
            },
        }
    }
}

/// Books a seizure.
pub fn book_seizure(
    total_data: &Total,
    accrue_info: &AccrueInfo,
    constants: &Constants,
    seizure: &Seizure,
) -> (r: Result<(Total, AccrueInfo, u64), Error>)
    ensures
        r == spec_book_seizure(*total_data, *accrue_info, *constants, *seizure),
{
    if seizure.borrow_amount == 0 {
        return Err(Error::Cauldron(ErrorCode::UserIsSolvent));
    }
    let base = match total_data.borrow.base.checked_sub(seizure.borrow_part as u128) {
        Some(v) => v,
        None => {
            return Err(Error::Common(CommonErrorCode::WrongIntegerSubtraction));
        },
    };
    let elastic = match total_data.borrow.elastic.checked_sub(seizure.borrow_amount as u128) {
        Some(v) => v,
        None => {
            return Err(Error::Common(CommonErrorCode::WrongIntegerSubtraction));
        },
    };
    let collateral_share = match total_data.collateral_share.checked_sub(seizure.collateral_share) {
        Some(v) => v,
        None => {
            return Err(Error::Common(CommonErrorCode::WrongIntegerSubtraction));
        },
    };
    let fee = match distribution_amount(seizure.borrow_amount, constants) {
        Ok(v) => v,
        Err(e) => {
            return Err(Error::Common(e));
        },
    };
    let borrow_amount = match seizure.borrow_amount.checked_add(fee) {
        Some(v) => v,
        None => {
            return Err(Error::Common(CommonErrorCode::WrongIntegerAddition));
        },
    };
    let fees_earned = match accrue_info.fees_earned.checked_add(fee as u128) {
        Some(v) => v,
        None => {
            return Err(Error::Common(CommonErrorCode::WrongIntegerAddition));
        },
    };
    Ok(
        (
            Total { collateral_share, borrow: Rebase { base, elastic } },
            AccrueInfo {
                last_accrued: accrue_info.last_accrued,
                fees_earned,
                interest_per_second: accrue_info.interest_per_second,
            },
            borrow_amount,
        ),
    )
}

/// The accounts after [`liquidate_internal`], and what it returns: the
/// amount the liquidator has to pay, the same in shares of the vault rounded
/// up, and the collateral taken in shares.
///
/// The price is read, interest accrued and solvency judged. A solvent
/// position is not liquidated, nor one from which nothing would be taken.
pub open spec fn spec_liquidate_internal(
    accounts: LiquidateAccounts,
    switchboard_program_id: Pubkey,
    now: u64,
    slot: u64,
    max_borrow_part: u64,
) -> Result<(LiquidateAccounts, (u64, u64, u64)), Error> {
    let constants = accounts.cauldron_account.constants;
    match spec_get_switchboard_price(
        accounts.switchboard_data_feed,
        switchboard_program_id,
        slot,
        constants.stale_after_slots_elapsed,
    ) {
        Err(e) => Err(e),
        Ok(price) => match spec_accrue(accounts.cauldron_account.accrue_info, accounts.total_data, now) {
            Err(e) => Err(e),
            Ok((accrue_info, total_data)) => match spec_is_solvent(
                accounts.user_balance,
                price,
                total_data,
                Conversion {
                    mint: accounts.collateral,
                    total_data: accounts.bentobox_collateral_total_data,
                },
                constants,
            ) {
                Err(e) => Err(e),
                Ok(true) => Err(Error::Cauldron(ErrorCode::UserIsSolvent)),
                Ok(false) => match spec_seize(
                    accounts.user_balance,
                    total_data.borrow,
                    accounts.bentobox_collateral_total_data.amount,
                    constants,
                    price,
                    max_borrow_part,
                ) {
                    Err(e) => Err(Error::Common(e)),
                    Ok((user_balance, seizure)) => match spec_book_seizure(
                        total_data,
                        accrue_info,
                        constants,
                        seizure,
                    ) {
                        Err(e) => Err(e),
                        Ok((booked, earned, borrow_amount)) => match spec_to_share(
                            Conversion {
                                mint: accounts.magic_internet_money_mint,
                                total_data: accounts.bentobox_mim_total_data,
                            },
                            borrow_amount,
                            true,
                        ) {
                            Err(e) => Err(e),
                            Ok(borrow_share) => Ok(
                                (
                                    LiquidateAccounts {
                                        cauldron_account: Cauldron {
                                            accrue_info: earned,
                                            ..accounts.cauldron_account
                                        },
                                        total_data: booked,
                                        user_balance,
                                        ..accounts
                                    },
                                    (borrow_amount, borrow_share, seizure.collateral_share),
                                ),
                            ),
                        },
                    },
                },
            },
        },
    }
}

/// Liquidates up to `max_borrow_part` of an insolvent position's debt on the
/// market's books, at the time `now` in seconds and the slot `slot`. Returns
/// what the liquidator has to pay, as an amount and in shares of the vault,
/// and the collateral taken in shares. On an error the accounts are left as
/// they were.
#[verifier::rlimit(40)]
pub fn liquidate_internal(
    max_borrow_part: u64,
    accounts: &mut LiquidateAccounts,
    switchboard_program_id: &Pubkey,
    now: u64,
    slot: u64,
) -> (r: Result<(u64, u64, u64), Error>)
    ensures
        match r {
            Ok(out) => spec_liquidate_internal(
                *old(accounts),
                *switchboard_program_id,
                now,
                slot,
                max_borrow_part,
            ) == Ok::<(LiquidateAccounts, (u64, u64, u64)), Error>((*final(accounts), out)),
            Err(e) => spec_liquidate_internal(
                *old(accounts),
                *switchboard_program_id,
                now,
                slot,
                max_borrow_part,
            ) == Err::<(LiquidateAccounts, (u64, u64, u64)), Error>(e) && *final(accounts) == *old(accounts),
        },
        r is Ok ==> final(accounts).user_balance.borrow_part + spec_borrow_part_to_seize(
            max_borrow_part,
            old(accounts).user_balance.borrow_part,
        ) == old(accounts).user_balance.borrow_part,
        r is Ok ==> old(accounts).total_data.borrow.base - final(accounts).total_data.borrow.base
            == old(accounts).user_balance.borrow_part - final(accounts).user_balance.borrow_part,
        r matches Ok(out) ==> old(accounts).total_data.collateral_share - final(accounts).total_data.collateral_share == out.2 && old(accounts).user_balance.collateral_share
            - final(accounts).user_balance.collateral_share == out.2,
{
    let constants = accounts.cauldron_account.constants;
    let price_decimal = match get_switchboard_price(
        &accounts.switchboard_data_feed,
        switchboard_program_id,
        slot,
        constants.stale_after_slots_elapsed,
    ) {
        Ok(v) => v,
        Err(e) => {
            return Err(e);
        },
    };
    let mut accrue_info = accounts.cauldron_account.accrue_info;
    let mut total_data = accounts.total_data;
    match accrue_internal(&mut accrue_info, &mut total_data, now) {
        Ok(_) => {},
        Err(e) => {
            return Err(e);
        },
    }
    let collateral_ledger = Conversion {
        mint: accounts.collateral,
        total_data: accounts.bentobox_collateral_total_data,
    };
    match is_solvent(
        &accounts.user_balance,
        &price_decimal,
        &total_data,
        &collateral_ledger,
        &constants,
    ) {
        Ok(false) => {},
        Ok(true) => {
            return Err(Error::Cauldron(ErrorCode::UserIsSolvent));
        },
        Err(e) => {
            return Err(e);
        },
    }
    let (user_balance, seizure) = match seize(
        &accounts.user_balance,
        &total_data.borrow,
        &accounts.bentobox_collateral_total_data.amount,
        &constants,
        &price_decimal,
        max_borrow_part,
    ) {
        Ok(v) => v,
        Err(e) => {
            return Err(Error::Common(e));
        },
    };
    let (booked, earned, borrow_amount) = match book_seizure(
        &total_data,
        &accrue_info,
        &constants,
        &seizure,
    ) {
        Ok(v) => v,
        Err(e) => {
            return Err(e);
        },
    };
    let mim_ledger = Conversion {
        mint: accounts.magic_internet_money_mint,
        total_data: accounts.bentobox_mim_total_data,
    };
    let borrow_share = match to_share(&mim_ledger, borrow_amount, true) {
        Ok(v) => v,
        Err(e) => {
            return Err(e);
        },
    };
    accounts.cauldron_account.accrue_info = earned;
    accounts.total_data = booked;
    accounts.user_balance = user_balance;
    Ok((borrow_amount, borrow_share, seizure.collateral_share))
}

/// What the accounts of a liquidation have to meet: the vault, the price
/// feed, the collateral and the token lent are the market's own.
pub open spec fn spec_liquidate_checks(accounts: LiquidateAccounts) -> Result<(), Error> {
    match spec_vault_checks(
        accounts.cauldron_account,
        accounts.bentobox_account,
        accounts.bentobox_program,
    ) {
        Err(e) => Err(e),
        Ok(_) => if accounts.switchboard_data_feed.key
            != accounts.cauldron_account.switchboard_data_feed {
            Err(Error::Cauldron(ErrorCode::IncompatibleSwitchboardDataFeed))
        } else if accounts.collateral != accounts.cauldron_account.collateral {
            Err(Error::Cauldron(ErrorCode::InvalidCollateral))
        } else if accounts.cauldron_account.magic_internet_money
            != accounts.magic_internet_money_mint {
            Err(Error::Cauldron(ErrorCode::BentoBoxAccountOwnerDoesNotMatchProgram))
        } else {
            Ok(())
        },
    }
}

fn liquidate_checks(accounts: &LiquidateAccounts) -> (r: Result<(), Error>)
    ensures
        r == spec_liquidate_checks(*accounts),
{
    match vault_checks(
        &accounts.cauldron_account,
        &accounts.bentobox_account,
        &accounts.bentobox_program,
    ) {
        Ok(_) => {},
        Err(e) => {
            return Err(e);
        },
    }
    if accounts.switchboard_data_feed.key != accounts.cauldron_account.switchboard_data_feed {
        return Err(Error::Cauldron(ErrorCode::IncompatibleSwitchboardDataFeed));
    }
    if accounts.collateral != accounts.cauldron_account.collateral {
        return Err(Error::Cauldron(ErrorCode::InvalidCollateral));
    }
    if accounts.cauldron_account.magic_internet_money != accounts.magic_internet_money_mint {
        return Err(Error::Cauldron(ErrorCode::BentoBoxAccountOwnerDoesNotMatchProgram));
    }
    Ok(())
}

/// The accounts after [`liquidate`]: the position is liquidated on the
/// books, the collateral taken goes from the market's vault balance to the
/// liquidator's, and the liquidator's payment goes from the liquidator's
/// vault balance of the token lent to the market's.
pub open spec fn spec_liquidate(
    accounts: Liquidate,
    switchboard_program_id: Pubkey,
    now: u64,
    slot: u64,
    max_borrow_part: u64,
) -> Result<Liquidate, Error> {
    match spec_liquidate_checks(accounts.position) {
        Err(e) => Err(e),
        Ok(_) => match spec_liquidate_internal(
            accounts.position,
            switchboard_program_id,
            now,
            slot,
            max_borrow_part,
        ) {
            Err(e) => Err(e),
            Ok((position, (_borrow_amount, borrow_share, collateral_share))) => match spec_bentobox_transfer(
                collateral_share,
                accounts.cauldron_authority,
                accounts.cauldron_collateral_bentobox_balance,
                accounts.authority_collateral_bentobox_balance,
                position.bentobox_account,
                accounts.cauldron_authority,
                position.bentobox_program,
                Seq::<AccountInfo>::empty(),
            ) {
                Err(e) => Err(e),
                Ok((market_collateral, liquidator_collateral)) => match spec_bentobox_transfer(
                    borrow_share,
                    accounts.authority,
                    accounts.authority_mim_bentobox_balance,
                    accounts.cauldron_mim_bentobox_balance,
                    position.bentobox_account,
                    accounts.cauldron_authority,
                    position.bentobox_program,
                    accounts.master_contract.spec_accounts(),
                ) {
                    Err(e) => Err(e),
                    Ok((liquidator_mim, market_mim)) => Ok(
                        Liquidate {
                            position,
                            cauldron_collateral_bentobox_balance: market_collateral,
                            authority_collateral_bentobox_balance: liquidator_collateral,
                            authority_mim_bentobox_balance: liquidator_mim,
                            cauldron_mim_bentobox_balance: market_mim,
                            ..accounts
                        },
                    ),
                },
            },
        },
    }
}

/// Liquidates up to `max_borrow_part` of an insolvent position's debt, the
/// liquidator paying at once out of a vault balance. On an error the accounts
/// are left as they were.
#[verifier::rlimit(40)]
pub fn liquidate(
    accounts: &mut Liquidate,
    switchboard_program_id: &Pubkey,
    now: u64,
    slot: u64,
    max_borrow_part: u64,
) -> (r: Result<(), Error>)
    ensures
        match r {
            Ok(_) => spec_liquidate(
                *old(accounts),
                *switchboard_program_id,
                now,
                slot,
                max_borrow_part,
            ) == Ok::<Liquidate, Error>(*final(accounts)),
            Err(e) => spec_liquidate(
                *old(accounts),
                *switchboard_program_id,
                now,
                slot,
                max_borrow_part,
            ) == Err::<Liquidate, Error>(e) && *final(accounts) == *old(accounts),
        },
{
    match liquidate_checks(&accounts.position) {
        Ok(_) => {},
        Err(e) => {
            return Err(e);
        },
    }
    let mut position = accounts.position;
    let (_borrow_amount, borrow_share, collateral_share) = match liquidate_internal(
        max_borrow_part,
        &mut position,
        switchboard_program_id,
        now,
        slot,
    ) {
        Ok(v) => v,
        Err(e) => {
            return Err(e);
        },
    };
    let mut market_collateral = accounts.cauldron_collateral_bentobox_balance;
    let mut liquidator_collateral = accounts.authority_collateral_bentobox_balance;
    let none: Vec<AccountInfo> = Vec::new();
    match create_bentobox_transfer_context(
        collateral_share,
        &accounts.cauldron_authority,
        &mut market_collateral,
        &mut liquidator_collateral,
        &position.bentobox_account,
        &accounts.cauldron_authority,
        &position.bentobox_program,
        &none,
    ) {
        Ok(_) => {},
        Err(e) => {
            return Err(e);
        },
    }
    let mut liquidator_mim = accounts.authority_mim_bentobox_balance;
    let mut market_mim = accounts.cauldron_mim_bentobox_balance;
    let remaining = accounts.master_contract.accounts();
    match create_bentobox_transfer_context(
        borrow_share,
        &accounts.authority,
        &mut liquidator_mim,
        &mut market_mim,
        &position.bentobox_account,
        &accounts.cauldron_authority,
        &position.bentobox_program,
        &remaining,
    ) {
        Ok(_) => {},
        Err(e) => {
            return Err(e);
        },
    }
    accounts.position = position;
    accounts.cauldron_collateral_bentobox_balance = market_collateral;
    accounts.authority_collateral_bentobox_balance = liquidator_collateral;
    accounts.authority_mim_bentobox_balance = liquidator_mim;
    accounts.cauldron_mim_bentobox_balance = market_mim;
    Ok(())
}

impl BeginLiquidate {
    /// The accounts through which the collateral taken leaves the vault.
    pub open spec fn spec_vault(&self, collateral_ledger: BentoboxTotal) -> VaultWithdraw {
        VaultWithdraw {
            to_vault: self.cauldron_source_vault,
            bentobox_vault: self.bentobox_collateral_vault,
            bentobox_from_balance: self.cauldron_collateral_bentobox_balance,
            bentobox_total_data: collateral_ledger,
            bentobox: self.bentobox,
            bentobox_account: self.position.bentobox_account,
            bentobox_program: self.position.bentobox_program,
            bentobox_vault_authority: self.bentobox_vault_authority,
        }
    }
}

/// The accounts after [`begin_liquidate`].
///
/// The position is liquidated on the books. The collateral taken is
/// withdrawn from the vault into the market's own token account, and the
/// liquidation is put on record for the caller, who alone may go on with it
/// until the market's liquidation period has passed.
pub open spec fn spec_begin_liquidate(
    accounts: BeginLiquidate,
    switchboard_program_id: Pubkey,
    now: u64,
    slot: u64,
    max_borrow_part: u64,
) -> Result<BeginLiquidate, Error> {
    match spec_liquidate_checks(accounts.position) {
        Err(e) => Err(e),
        Ok(_) => match spec_liquidate_internal(
            accounts.position,
            switchboard_program_id,
            now,
            slot,
            max_borrow_part,
        ) {
            Err(e) => Err(e),
            Ok((position, (borrow_amount, borrow_share, collateral_share))) => match spec_bento_withdraw(
                accounts.cauldron_authority,
                0,
                collateral_share,
                accounts.spec_vault(position.bentobox_collateral_total_data),
                accounts.cauldron_authority,
                Seq::<AccountInfo>::empty(),
            ) {
                Err(e) => Err(e),
                Ok((vault, out)) => if now
                    + position.cauldron_account.constants.complete_liquidation_duration > u64::MAX {
                    Err(Error::Common(CommonErrorCode::WrongIntegerAddition))
                } else {
                    Ok(
                        BeginLiquidate {
                            position: LiquidateAccounts {
                                bentobox_collateral_total_data: vault.bentobox_total_data,
                                ..position
                            },
                            cauldron_source_vault: vault.to_vault,
                            bentobox_collateral_vault: vault.bentobox_vault,
                            cauldron_collateral_bentobox_balance: vault.bentobox_from_balance,
                            liquidator_account: LiquidatorAccount {
                                origin_liquidator: accounts.authority,
                                collateral_share: out.amount_out,
                                borrow_amount,
                                borrow_share,
                                timestamp: (now
                                    + position.cauldron_account.constants.complete_liquidation_duration) as u64,
                                ..accounts.liquidator_account
                            },
                            ..accounts
                        },
                    )
                },
            },
        },
    }
}

/// First step of a liquidation through a swap. On an error the accounts are
/// left as they were.
#[verifier::rlimit(40)]
pub fn begin_liquidate(
    accounts: &mut BeginLiquidate,
    switchboard_program_id: &Pubkey,
    now: u64,
    slot: u64,
    max_borrow_part: u64,
) -> (r: Result<(), Error>)
    ensures
        match r {
            Ok(_) => spec_begin_liquidate(
                *old(accounts),
                *switchboard_program_id,
                now,
                slot,
                max_borrow_part,
            ) == Ok::<BeginLiquidate, Error>(*final(accounts)),
            Err(e) => spec_begin_liquidate(
                *old(accounts),
                *switchboard_program_id,
                now,
                slot,
                max_borrow_part,
            ) == Err::<BeginLiquidate, Error>(e) && *final(accounts) == *old(accounts),
        },
{
    match liquidate_checks(&accounts.position) {
        Ok(_) => {},
        Err(e) => {
            return Err(e);
        },
    }
    let mut position = accounts.position;
    let (borrow_amount, borrow_share, collateral_share) = match liquidate_internal(
        max_borrow_part,
        &mut position,
        switchboard_program_id,
        now,
        slot,
    ) {
        Ok(v) => v,
        Err(e) => {
            return Err(e);
        },
    };
    let mut vault = VaultWithdraw {
        to_vault: accounts.cauldron_source_vault,
        bentobox_vault: accounts.bentobox_collateral_vault,
        bentobox_from_balance: accounts.cauldron_collateral_bentobox_balance,
        bentobox_total_data: position.bentobox_collateral_total_data,
        bentobox: accounts.bentobox,
        bentobox_account: position.bentobox_account,
        bentobox_program: position.bentobox_program,
        bentobox_vault_authority: accounts.bentobox_vault_authority,
    };
    let none: Vec<AccountInfo> = Vec::new();
    let out = match bento_withdraw(
        &accounts.cauldron_authority,
        0,
        collateral_share,
        &mut vault,
        &accounts.cauldron_authority,
        &none,
    ) {
        Ok(v) => v,
        Err(e) => {
            return Err(e);
        },
    };
    let deadline = match now.checked_add(
        position.cauldron_account.constants.complete_liquidation_duration,
    ) {
        Some(v) => v,
        None => {
            return Err(Error::Common(CommonErrorCode::WrongIntegerAddition));
        },
    };
    position.bentobox_collateral_total_data = vault.bentobox_total_data;
    accounts.position = position;
    accounts.cauldron_source_vault = vault.to_vault;
    accounts.bentobox_collateral_vault = vault.bentobox_vault;
    accounts.cauldron_collateral_bentobox_balance = vault.bentobox_from_balance;
    accounts.liquidator_account.origin_liquidator = accounts.authority;
    accounts.liquidator_account.collateral_share = out.amount_out;
    accounts.liquidator_account.borrow_amount = borrow_amount;
    accounts.liquidator_account.borrow_share = borrow_share;
    accounts.liquidator_account.timestamp = deadline;
    Ok(())
}

/// Whether `authority` may go on with a liquidation at the time `now`: the
/// liquidator on record may at any time, anyone else only once the time on
/// record has passed.
pub open spec fn spec_may_continue(liquidator_account: LiquidatorAccount, authority: Pubkey, now: u64) -> Result<
    (),
    Error,
> {
    if liquidator_account.origin_liquidator == authority || liquidator_account.timestamp < now {
        Ok(())
    } else {
        Err(Error::Cauldron(ErrorCode::TooSoon))
    }
}

/// Checks that `authority` may go on with a liquidation at the time `now`.
pub fn may_continue(liquidator_account: &LiquidatorAccount, authority: &Pubkey, now: u64) -> (r: Result<
    (),
    Error,
>)
    ensures
        r == spec_may_continue(*liquidator_account, *authority, now),
{
    if liquidator_account.origin_liquidator == *authority || liquidator_account.timestamp < now {
        Ok(())
    } else {
        Err(Error::Cauldron(ErrorCode::TooSoon))
    }
}

/// What a swap is asked for.
#[derive(Clone, Copy, Debug, PartialEq, Eq, Structural)]
pub struct SwapRequest {
    /// Collateral to give.
    pub amount_in: u64,
    /// Least of the token lent to take for it.
    pub minimum_amount_out: u64,
}

/// The swap that the second step of a liquidation asks for: all the
/// collateral on record, for at least what the market is owed.
pub open spec fn spec_swap_request(accounts: LiquidateSwap, now: u64) -> Result<SwapRequest, Error> {
    match spec_may_continue(accounts.liquidator_account, accounts.authority, now) {
        Err(e) => Err(e),
        Ok(_) => Ok(
            SwapRequest {
                amount_in: accounts.liquidator_account.collateral_share,
                minimum_amount_out: accounts.liquidator_account.borrow_share,
            },
        ),
    }
}

/// Decides the swap that the second step of a liquidation asks for.
pub fn swap_request(accounts: &LiquidateSwap, now: u64) -> (r: Result<SwapRequest, Error>)
    ensures
        r == spec_swap_request(*accounts, now),
{
    match may_continue(&accounts.liquidator_account, &accounts.authority, now) {
        Ok(_) => Ok(
            SwapRequest {
                amount_in: accounts.liquidator_account.collateral_share,
                minimum_amount_out: accounts.liquidator_account.borrow_share,
            },
        ),
        Err(e) => Err(e),
    }
}

/// The accounts once a swap is on record.
///
/// What the swap brought in is what the destination account holds more
/// than before, whatever the swap itself reports, and it has to exceed what
/// the market is owed. The caller becomes the liquidator on record, and the
/// time in which only that liquidator may go on is extended by the market's
/// liquidation period.
pub open spec fn spec_record_swap(accounts: LiquidateSwap, before: u64, after: u64) -> Result<
    LiquidateSwap,
    Error,
> {
    if after < before {
        Err(Error::Common(CommonErrorCode::WrongIntegerSubtraction))
    } else if !(accounts.liquidator_account.borrow_share < after - before) {
        Err(Error::Cauldron(ErrorCode::InvalidSwapper))
    } else if accounts.liquidator_account.timestamp
        + accounts.cauldron_account.constants.complete_liquidation_duration > u64::MAX {
        Err(Error::Common(CommonErrorCode::WrongIntegerAddition))
    } else {
        Ok(
            LiquidateSwap {
                liquidator_account: LiquidatorAccount {
                    origin_liquidator: accounts.authority,
                    timestamp: (accounts.liquidator_account.timestamp
                        + accounts.cauldron_account.constants.complete_liquidation_duration) as u64,
                    real_amount: (after - before) as u64,
                    ..accounts.liquidator_account
                },
                ..accounts
            },
        )
    }
}

/// Puts a swap on record, given what the destination account held before
/// and holds after. On an error the accounts are left as they were.
pub fn record_swap(accounts: &mut LiquidateSwap, before: u64, after: u64) -> (r: Result<(), Error>)
    ensures
        match r {
            Ok(_) => spec_record_swap(*old(accounts), before, after) == Ok::<LiquidateSwap, Error>(
                *final(accounts),
            ),
            Err(e) => spec_record_swap(*old(accounts), before, after) == Err::<LiquidateSwap, Error>(
                e,
            ) && *final(accounts) == *old(accounts),
        },
{
    let real_amount = match after.checked_sub(before) {
        Some(v) => v,
        None => {
            return Err(Error::Common(CommonErrorCode::WrongIntegerSubtraction));
        },
    };
    if !(accounts.liquidator_account.borrow_share < real_amount) {
        return Err(Error::Cauldron(ErrorCode::InvalidSwapper));
    }
    let deadline = match accounts.liquidator_account.timestamp.checked_add(
        accounts.cauldron_account.constants.complete_liquidation_duration,
    ) {
        Some(v) => v,
        None => {
            return Err(Error::Common(CommonErrorCode::WrongIntegerAddition));
        },
    };
    accounts.liquidator_account.origin_liquidator = accounts.authority;
    accounts.liquidator_account.timestamp = deadline;
    accounts.liquidator_account.real_amount = real_amount;
    Ok(())
}

impl CompleteLiquidate {
    /// The accounts through which what the swap brought in enters the vault.
    pub open spec fn spec_vault(&self) -> VaultDeposit {
        VaultDeposit {
            from: self.cauldron_mim_vault,
            bentobox_vault: self.bentobox_mim_vault,
            bentobox_to_balance: self.cauldron_mim_bentobox_balance,
            bentobox_total_data: self.bentobox_mim_total_data,
            bentobox: self.bentobox,
            bentobox_account: self.bentobox_account,
            bentobox_program: self.bentobox_program,
            mint: self.magic_internet_money_mint,
            strategy_data: self.mim_strategy_data,
        }
    }
}

/// The accounts after [`complete_liquidate`].
///
/// What the swap brought in is deposited into the vault for the market. The
/// liquidator's payment is worked out again in shares of the vault, rounded
/// up, and what the swap brought in beyond it goes to the liquidator's vault
/// balance. A swap that brought in less cannot be completed. The record of
/// the liquidation is closed.
pub open spec fn spec_complete_liquidate(accounts: CompleteLiquidate, now: u64) -> Result<
    CompleteLiquidate,
    Error,
> {
    match spec_may_continue(accounts.liquidator_account, accounts.authority, now) {
        Err(e) => Err(e),
        Ok(_) => match spec_vault_checks(
            accounts.cauldron_account,
            accounts.bentobox_account,
            accounts.bentobox_program,
        ) {
            Err(e) => Err(e),
            Ok(_) => if accounts.cauldron_account.magic_internet_money
                != accounts.magic_internet_money_mint.key {
                Err(Error::Cauldron(ErrorCode::BentoBoxAccountOwnerDoesNotMatchProgram))
            } else {
                match spec_bento_deposit(
                    accounts.liquidator_account.real_amount,
                    0,
                    accounts.spec_vault(),
                    accounts.cauldron_authority,
                    Seq::<AccountInfo>::empty(),
                ) {
                    Err(e) => Err(e),
                    Ok((vault, _out)) => match spec_to_share(
                        Conversion {
                            mint: accounts.magic_internet_money_mint.key,
                            total_data: vault.bentobox_total_data,
                        },
                        accounts.liquidator_account.borrow_amount,
                        true,
                    ) {
                        Err(e) => Err(e),
                        Ok(borrow_share) => if accounts.liquidator_account.real_amount
                            < borrow_share {
                            Err(Error::Common(CommonErrorCode::WrongIntegerSubtraction))
                        } else {
                            match spec_bentobox_transfer(
                                (accounts.liquidator_account.real_amount - borrow_share) as u64,
                                accounts.cauldron_authority,
                                vault.bentobox_to_balance,
                                accounts.authority_mim_bentobox_balance,
                                accounts.bentobox_account,
                                accounts.cauldron_authority,
                                accounts.bentobox_program,
                                Seq::<AccountInfo>::empty(),
                            ) {
                                Err(e) => Err(e),
                                Ok((market, liquidator)) => Ok(
                                    CompleteLiquidate {
                                        cauldron_mim_vault: vault.from,
                                        bentobox_mim_vault: vault.bentobox_vault,
                                        bentobox_mim_total_data: vault.bentobox_total_data,
                                        cauldron_mim_bentobox_balance: market,
                                        authority_mim_bentobox_balance: liquidator,
                                        liquidator_account: LiquidatorAccount::spec_closed(),
                                        ..accounts
                                    },
                                ),
                            }
                        },
                    },
                }
            },
        },
    }
}

/// Last step of a liquidation through a swap, which closes the record of the
/// liquidation. On an error the accounts are left as they were.
#[verifier::rlimit(40)]
pub fn complete_liquidate(accounts: &mut CompleteLiquidate, now: u64) -> (r: Result<(), Error>)
    ensures
        match r {
            Ok(_) => spec_complete_liquidate(*old(accounts), now) == Ok::<CompleteLiquidate, Error>(
                *final(accounts),
            ),
            Err(e) => spec_complete_liquidate(*old(accounts), now) == Err::<
                CompleteLiquidate,
                Error,
            >(e) && *final(accounts) == *old(accounts),
        },
{
    match may_continue(&accounts.liquidator_account, &accounts.authority, now) {
        Ok(_) => {},
        Err(e) => {
            return Err(e);
        },
    }
    match vault_checks(
        &accounts.cauldron_account,
        &accounts.bentobox_account,
        &accounts.bentobox_program,
    ) {
        Ok(_) => {},
        Err(e) => {
            return Err(e);
        },
    }
    if accounts.cauldron_account.magic_internet_money != accounts.magic_internet_money_mint.key {
        return Err(Error::Cauldron(ErrorCode::BentoBoxAccountOwnerDoesNotMatchProgram));
    }
    let mut vault = VaultDeposit {
        from: accounts.cauldron_mim_vault,
        bentobox_vault: accounts.bentobox_mim_vault,
        bentobox_to_balance: accounts.cauldron_mim_bentobox_balance,
        bentobox_total_data: accounts.bentobox_mim_total_data,
        bentobox: accounts.bentobox,
        bentobox_account: accounts.bentobox_account,
        bentobox_program: accounts.bentobox_program,
        mint: accounts.magic_internet_money_mint,
        strategy_data: accounts.mim_strategy_data,
    };
    let none: Vec<AccountInfo> = Vec::new();
    match bento_deposit(
        accounts.liquidator_account.real_amount,
        0,
        &mut vault,
        &accounts.cauldron_authority,
        &none,
    ) {
        Ok(_) => {},
        Err(e) => {
            return Err(e);
        },
    }
    let ledger = Conversion {
        mint: accounts.magic_internet_money_mint.key,
        total_data: vault.bentobox_total_data,
    };
    let borrow_share = match to_share(&ledger, accounts.liquidator_account.borrow_amount, true) {
        Ok(v) => v,
        Err(e) => {
            return Err(e);
        },
    };
    let bonus = match accounts.liquidator_account.real_amount.checked_sub(borrow_share) {
        Some(v) => v,
        None => {
            return Err(Error::Common(CommonErrorCode::WrongIntegerSubtraction));
        },
    };
    let mut market = vault.bentobox_to_balance;
    let mut liquidator = accounts.authority_mim_bentobox_balance;
    match create_bentobox_transfer_context(
        bonus,
        &accounts.cauldron_authority,
        &mut market,
        &mut liquidator,
        &accounts.bentobox_account,
        &accounts.cauldron_authority,
        &accounts.bentobox_program,
        &none,
    ) {
        Ok(_) => {},
        Err(e) => {
            return Err(e);
        },
    }
    accounts.cauldron_mim_vault = vault.from;
    accounts.bentobox_mim_vault = vault.bentobox_vault;
    accounts.bentobox_mim_total_data = vault.bentobox_total_data;
    accounts.cauldron_mim_bentobox_balance = market;
    accounts.authority_mim_bentobox_balance = liquidator;
    accounts.liquidator_account = LiquidatorAccount::closed();
    Ok(())
}

/// The swapper and the accounts after [`liquidate_swap`]: the swap is asked
/// for as [`spec_swap_request`] says, and what it brought in is put on
/// record as [`spec_record_swap`] says, measured on the destination account
/// before and after.
pub open spec fn spec_liquidate_swap<W: Swapper>(accounts: LiquidateSwap, swapper: W, now: u64) -> (
    W,
    Result<LiquidateSwap, Error>,
) {
    match spec_swap_request(accounts, now) {
        Err(e) => (swapper, Err(e)),
        Ok(request) => match swapper.spec_destination_amount() {
            Err(e) => (swapper, Err(e)),
            Ok(before) => {
                let (swapped, r) = swapper.spec_swap(request.amount_in, request.minimum_amount_out);
                match r {
                    Err(e) => (swapped, Err(e)),
                    Ok(_) => match swapped.spec_destination_amount() {
                        Err(e) => (swapped, Err(e)),
                        Ok(after) => (swapped, spec_record_swap(accounts, before, after)),
                    },
                }
            },
        },
    }
}

/// Second step of a liquidation through a swap: has the swapper trade the
/// collateral taken for the token lent. On an error the accounts are left as
/// they were.
pub fn liquidate_swap<W: Swapper>(accounts: &mut LiquidateSwap, swapper: &mut W, now: u64) -> (r:
    Result<(), Error>)
    ensures
        *final(swapper) == spec_liquidate_swap(*old(accounts), *old(swapper), now).0,
        match r {
            Ok(_) => spec_liquidate_swap(*old(accounts), *old(swapper), now).1 == Ok::<
                LiquidateSwap,
                Error,
            >(*final(accounts)),
            Err(e) => spec_liquidate_swap(*old(accounts), *old(swapper), now).1 == Err::<
                LiquidateSwap,
                Error,
            >(e) && *final(accounts) == *old(accounts),
        },
{
    let request = match swap_request(accounts, now) {
        Ok(v) => v,
        Err(e) => {
            return Err(e);
        },
    };
    let before = match swapper.destination_amount() {
        Ok(v) => v,
        Err(e) => {
            return Err(e);
        },
    };
    match swapper.swap(request.amount_in, request.minimum_amount_out) {
        Ok(_) => {},
        Err(e) => {
            return Err(e);
        },
    }
    let after = match swapper.destination_amount() {
        Ok(v) => v,
        Err(e) => {
            return Err(e);
        },
    };
    record_swap(accounts, before, after)
}

/// The kinds of swapper that the market trades through.
#[derive(Clone, Copy, Debug, PartialEq, Eq, Structural)]
pub enum SwapperKind {
    Orca,
    Raydium,
}

/// The kind of swapper that a program is, by its address. Any other program
/// is no swapper.
pub open spec fn spec_swapper_kind(swapper_program: Pubkey) -> Result<SwapperKind, Error> {
    if swapper_program.bytes == crate::swapper_orca::utils::ID {
        Ok(SwapperKind::Orca)
    } else if swapper_program.bytes == crate::swapper_raydium::utils::ID {
        Ok(SwapperKind::Raydium)
    } else {
        Err(Error::Cauldron(ErrorCode::InvalidSwapper))
    }
}

/// Tells which kind of swapper a program is.
pub fn swapper_kind(swapper_program: &Pubkey) -> (r: Result<SwapperKind, Error>)
    ensures
        r == spec_swapper_kind(*swapper_program),
{
    let orca = crate::swapper_orca::utils::id();
    let raydium = crate::swapper_raydium::utils::id();
    proof {
        if swapper_program.bytes == orca.bytes {
            assert(*swapper_program == orca);
        }
        if swapper_program.bytes == raydium.bytes {
            assert(*swapper_program == raydium);
        }
    }
    if *swapper_program == orca {
        Ok(SwapperKind::Orca)
    } else if *swapper_program == raydium {
        Ok(SwapperKind::Raydium)
    } else {
        Err(Error::Cauldron(ErrorCode::InvalidSwapper))
    }
}

} // verus!
