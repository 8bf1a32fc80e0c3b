use crate::bentobox::context::Conversion;
use crate::bentobox::instructions::{spec_to_amount, to_amount};
use crate::cauldron::error::ErrorCode;
use crate::cauldron::state::{AccrueInfo, Constants, DataFeed, SwitchboardDecimal, Total, UserBalance};
use crate::common::big_number::{modulus, U256};
use crate::common::errors::ErrorCode as CommonErrorCode;
use crate::common::pubkey::Pubkey;
use crate::common::rebase::Rebase;
use crate::error::Error;
use vstd::arithmetic::power::pow;
use vstd::prelude::*;

verus! {

/// 10 to the power `scale`, where it fits in 256 bits.
pub open spec fn spec_pow10(scale: u32) -> Result<nat, CommonErrorCode> {
    if pow(10, scale as nat) >= modulus() {
        Err(CommonErrorCode::WrongIntegerMultiplication)
    } else {
        Ok(pow(10, scale as nat) as nat)
    }
}

/// Computes 10 to the power `scale` in 256 bits.
#[verifier::rlimit(40)]
pub fn pow10(scale: u32) -> (r: Result<U256, CommonErrorCode>)
    ensures
        match r {
            Ok(v) => spec_pow10(scale) == Ok::<nat, CommonErrorCode>(v@),
            Err(e) => spec_pow10(scale) == Err::<nat, CommonErrorCode>(e),
        },
{
    let ten = U256::from_u64(10);
    let mut acc = U256::one();
    let mut i: u32 = 0;
    proof {
        vstd::arithmetic::power::lemma_pow0(10);
    }
    while i < scale
        invariant
            i <= scale,
            ten@ == 10,
            acc@ == pow(10, i as nat),
        decreases scale - i,
    {
        proof {
            vstd::arithmetic::power::lemma_pow_positive(10, i as nat);
            assert(pow(10, (i + 1) as nat) == pow(10, i as nat) * 10) by {
                vstd::arithmetic::power::lemma_pow_adds(10, 1, i as nat);
                vstd::arithmetic::power::lemma_pow1(10);
            }
        }
        acc = match acc.checked_mul(&ten) {
                Some(v) => v,
                None => {
                    proof {
                        vstd::arithmetic::power::lemma_pow_increases(
                            10,
                            (i + 1) as nat,
                            scale as nat,
                        );
                    }
                    return Err(CommonErrorCode::WrongIntegerMultiplication);
                },
            };
        i = i + 1;
    }
    proof {
        acc.lemma_bounded();
    }
    Ok(acc)
}

/// `a * b * c / d`, rounded down, where neither product reaches 2^256 and
/// `d` is not zero.
pub open spec fn spec_mul_mul_div(a: nat, b: nat, c: nat, d: nat) -> Result<nat, CommonErrorCode> {
    if a * b >= modulus() || a * b * c >= modulus() {
        Err(CommonErrorCode::WrongIntegerMultiplication)
    } else if d == 0 {
        Err(CommonErrorCode::WrongIntegerDivision)
    } else {
        Ok((a * b * c) / d)
    }
}

/// Computes `a * b * c / d` in 256 bits.
pub fn mul_mul_div(a: &U256, b: &U256, c: &U256, d: &U256) -> (r: Result<U256, CommonErrorCode>)
    ensures
        match r {
            Ok(v) => spec_mul_mul_div(a@, b@, c@, d@) == Ok::<nat, CommonErrorCode>(v@),
            Err(e) => spec_mul_mul_div(a@, b@, c@, d@) == Err::<nat, CommonErrorCode>(e),
        },
{
    let ab = match a.checked_mul(b) {
        Some(v) => v,
        None => {
            return Err(CommonErrorCode::WrongIntegerMultiplication);
        },
    };
    let abc = match ab.checked_mul(c) {
        Some(v) => v,
        None => {
            return Err(CommonErrorCode::WrongIntegerMultiplication);
        },
    };
    proof {
        ab.lemma_bounded();
        abc.lemma_bounded();
    }
    match abc.checked_div(d) {
        Some(v) => Ok(v),
        None => Err(CommonErrorCode::WrongIntegerDivision),
    }
}

/// 10^18, the scale of the interest rate.
pub open spec fn interest_scale() -> nat {
    1_000_000_000_000_000_000
}

/// The interest that `elastic` owed earns in `elapsed` seconds.
pub open spec fn spec_interest(elastic: u128, interest_per_second: u64, elapsed: u64) -> nat {
    ((elastic as nat * interest_per_second as nat * elapsed as nat) / interest_scale()) as nat
}

/// The accrual record and the market's ledger after [`accrue_internal`].
///
/// With no time passed nothing changes. Otherwise the time of the last
/// accrual moves to `now`, and where there is debt the interest on it is
/// added to what is owed and to the fees earned.
pub open spec fn spec_accrue(accrue_info: AccrueInfo, total_data: Total, now: u64) -> Result<
    (AccrueInfo, Total),
    Error,
> {
    if now < accrue_info.last_accrued {
        Err(Error::Common(CommonErrorCode::WrongIntegerSubtraction))
    } else if now == accrue_info.last_accrued {
        Ok((accrue_info, total_data))
    } else if total_data.borrow.base == 0 {
        Ok((AccrueInfo { last_accrued: now, ..accrue_info }, total_data))
    } else {
        let extra = spec_interest(
            total_data.borrow.elastic,
            accrue_info.interest_per_second,
            (now - accrue_info.last_accrued) as u64,
        );
        if extra > u128::MAX {
            Err(Error::Common(CommonErrorCode::BnConversionError))
        } else if total_data.borrow.elastic + extra > u128::MAX || accrue_info.fees_earned
            + extra > u128::MAX {
            Err(Error::Common(CommonErrorCode::WrongIntegerAddition))
        } else {
            Ok(
                (
                    AccrueInfo {
                        last_accrued: now,
                        fees_earned: (accrue_info.fees_earned + extra) as u128,
                        ..accrue_info
                    },
                    Total {
                        borrow: Rebase {
                            elastic: (total_data.borrow.elastic + extra) as u128,
                            ..total_data.borrow
                        },
                        ..total_data
                    },
                ),
            )
        }
    }
}

/// The product of a 128-bit and two 64-bit numbers is below 2^256.
#[verifier::rlimit(40)]
proof fn lemma_interest_product_fits(elastic: nat, rate: nat, elapsed: nat)
    requires
        elastic <= u128::MAX,
        rate <= u64::MAX,
        elapsed <= u64::MAX,
    ensures
        elastic * rate < modulus(),
        elastic * rate * elapsed < modulus(),
{
    assert(elastic * rate <= 0xffff_ffff_ffff_ffff_ffff_ffff_ffff_ffff * 0xffff_ffff_ffff_ffff)
        by (nonlinear_arith)
        requires
            elastic <= 0xffff_ffff_ffff_ffff_ffff_ffff_ffff_ffff,
            rate <= 0xffff_ffff_ffff_ffff,
    ;
    let p = elastic * rate;
    assert(p * elapsed <= 0xffff_ffff_ffff_ffff_ffff_ffff_ffff_ffff * 0xffff_ffff_ffff_ffff
        * 0xffff_ffff_ffff_ffff) by (nonlinear_arith)
        requires
            p <= 0xffff_ffff_ffff_ffff_ffff_ffff_ffff_ffff * 0xffff_ffff_ffff_ffff,
            elapsed <= 0xffff_ffff_ffff_ffff,
    ;
}

/// Accrues interest up to the time `now`, in seconds. On an error both
/// records are left as they were.
#[verifier::rlimit(40)]
pub fn accrue_internal(accrue_info: &mut AccrueInfo, total_data: &mut Total, now: u64) -> (r: Result<
    (),
    Error,
>)
    ensures
        match r {
            Ok(_) => spec_accrue(*old(accrue_info), *old(total_data), now) == Ok::<
                (AccrueInfo, Total),
                Error,
            >((*final(accrue_info), *final(total_data))),
            Err(e) => spec_accrue(*old(accrue_info), *old(total_data), now) == Err::<
                (AccrueInfo, Total),
                Error,
            >(e) && *final(accrue_info) == *old(accrue_info) && *final(total_data) == *old(total_data),
        },
        r is Ok ==> {
            &&& final(total_data).borrow.base == old(total_data).borrow.base
            &&& final(total_data).borrow.elastic >= old(total_data).borrow.elastic
            &&& final(total_data).collateral_share == old(total_data).collateral_share
            &&& final(accrue_info).last_accrued >= old(accrue_info).last_accrued
            &&& final(accrue_info).fees_earned >= old(accrue_info).fees_earned
            &&& final(accrue_info).fees_earned - old(accrue_info).fees_earned == final(total_data).borrow.elastic - old(total_data).borrow.elastic
        },
{
    if now < accrue_info.last_accrued {
        return Err(Error::Common(CommonErrorCode::WrongIntegerSubtraction));
    }
    let elapsed_time = now - accrue_info.last_accrued;
    if elapsed_time == 0 {
        return Ok(());
    }
    if total_data.borrow.base == 0 {
        accrue_info.last_accrued = now;
        return Ok(());
    }
    proof {
        lemma_interest_product_fits(
            total_data.borrow.elastic as nat,
            accrue_info.interest_per_second as nat,
            elapsed_time as nat,
        );
    }
    let extra_amount = match mul_mul_div(
        &U256::from_u128(total_data.borrow.elastic),
        &U256::from_u64(accrue_info.interest_per_second),
        &U256::from_u64(elapsed_time),
        &U256::from_u64(1_000_000_000_000_000_000),
    ) {
        Ok(v) => v,
        Err(e) => {
            return Err(Error::Common(e));
        },
    };
    let extra = match extra_amount.try_to_u128() {
        Ok(v) => v,
        Err(e) => {
            return Err(Error::Common(e));
        },
    };
    let elastic = match total_data.borrow.elastic.checked_add(extra) {
        Some(v) => v,
        None => {
            return Err(Error::Common(CommonErrorCode::WrongIntegerAddition));
        },
    };
    let fees_earned = match accrue_info.fees_earned.checked_add(extra) {
        Some(v) => v,
        None => {
            return Err(Error::Common(CommonErrorCode::WrongIntegerAddition));
        },
    };
    accrue_info.last_accrued = now;
    total_data.borrow.elastic = elastic;
    accrue_info.fees_earned = fees_earned;
    Ok(())
}

/// Accrual is idempotent within one second: accruing again at the time of
/// the last accrual changes nothing.
pub proof fn lemma_accrue_twice(accrue_info: AccrueInfo, total_data: Total, now: u64)
    requires
        spec_accrue(accrue_info, total_data, now) is Ok,
    ensures
        spec_accrue(
            spec_accrue(accrue_info, total_data, now).unwrap().0,
            spec_accrue(accrue_info, total_data, now).unwrap().1,
            now,
        ) == spec_accrue(accrue_info, total_data, now),
{
}

/// Whether a price feed may be taken on: it has an address, and it belongs
/// to the oracle program.
pub open spec fn spec_validate_switchboard_data_feed(
    switchboard_data_feed: DataFeed,
    switchboard_program_id: Pubkey,
) -> Result<(), Error> {
    if switchboard_data_feed.key == Pubkey::spec_default() {
        Err(Error::Cauldron(ErrorCode::InvalidSwitchboardDataFeedAccount))
    } else if switchboard_data_feed.owner != switchboard_program_id {
        Err(Error::Cauldron(ErrorCode::InvalidSwitchboardProgram))
    } else {
        Ok(())
    }
}

/// Checks that a price feed may be taken on.
pub fn validate_switchboard_data_feed(
    switchboard_data_feed: &DataFeed,
    switchboard_program_id: &Pubkey,
) -> (r: Result<(), Error>)
    ensures
        r == spec_validate_switchboard_data_feed(*switchboard_data_feed, *switchboard_program_id),
{
    if switchboard_data_feed.key.is_default() {
        return Err(Error::Cauldron(ErrorCode::InvalidSwitchboardDataFeedAccount));
    }
    if switchboard_data_feed.owner != *switchboard_program_id {
        return Err(Error::Cauldron(ErrorCode::InvalidSwitchboardProgram));
    }
    Ok(())
}

/// The price that a feed gives at the slot `slot`: the feed has to belong to
/// the oracle program, its latest round has to have opened fewer than
/// `stale_after_slots_elapsed` slots ago, and the price may not be negative.
pub open spec fn spec_get_switchboard_price(
    switchboard_data_feed: DataFeed,
    switchboard_program_id: Pubkey,
    slot: u64,
    stale_after_slots_elapsed: u64,
) -> Result<SwitchboardDecimal, Error> {
    if switchboard_data_feed.owner != switchboard_program_id {
        Err(Error::Cauldron(ErrorCode::InvalidSwitchboardProgram))
    } else if slot < switchboard_data_feed.round_open_slot {
        Err(Error::Common(CommonErrorCode::WrongIntegerSubtraction))
    } else if slot - switchboard_data_feed.round_open_slot >= stale_after_slots_elapsed {
        Err(Error::Cauldron(ErrorCode::StaleSwitchboardDataFeedResult))
    } else if switchboard_data_feed.result.mantissa < 0 {
        Err(Error::Cauldron(ErrorCode::InvalidSwitchboardDataFeedAccount))
    } else {
        Ok(switchboard_data_feed.result)
    }
}

/// Reads the price off a feed.
pub fn get_switchboard_price(
    switchboard_data_feed: &DataFeed,
    switchboard_program_id: &Pubkey,
    slot: u64,
    stale_after_slots_elapsed: u64,
) -> (r: Result<SwitchboardDecimal, Error>)
    ensures
        r == spec_get_switchboard_price(
            *switchboard_data_feed,
            *switchboard_program_id,
            slot,
            stale_after_slots_elapsed,
        ),
        r matches Ok(price) ==> price.mantissa >= 0,
{
    if switchboard_data_feed.owner != *switchboard_program_id {
        return Err(Error::Cauldron(ErrorCode::InvalidSwitchboardProgram));
    }
    let slots_elapsed = match slot.checked_sub(switchboard_data_feed.round_open_slot) {
        Some(v) => v,
        None => {
            return Err(Error::Common(CommonErrorCode::WrongIntegerSubtraction));
        },
    };
    if !(slots_elapsed < stale_after_slots_elapsed) {
        return Err(Error::Cauldron(ErrorCode::StaleSwitchboardDataFeedResult));
    }
    let price_decimal = switchboard_data_feed.result;
    if !(price_decimal.mantissa >= 0) {
        return Err(Error::Cauldron(ErrorCode::InvalidSwitchboardDataFeedAccount));
    }
    Ok(price_decimal)
}

/// The shares that a borrower's collateral counts for: the shares times
/// `10^scale`, by the precision of the collaterization rate, times the rate,
/// worked out from left to right in 256 bits with the quotient rounded down.
pub open spec fn spec_collateral_share(
    collateral_share: u64,
    scale: u32,
    constants: Constants,
) -> Result<u64, CommonErrorCode> {
    match spec_pow10(scale) {
        Err(e) => Err(e),
        Ok(power) => if collateral_share as nat * power >= modulus() {
            Err(CommonErrorCode::WrongIntegerMultiplication)
        } else if constants.collaterization_rate_precision == 0 {
            Err(CommonErrorCode::WrongIntegerDivision)
        } else {
            let quotient = (collateral_share as nat * power)
                / constants.collaterization_rate_precision as nat;
            if quotient * constants.collaterization_rate as nat >= modulus() {
                Err(CommonErrorCode::WrongIntegerMultiplication)
            } else if quotient * constants.collaterization_rate as nat > u64::MAX {
                Err(CommonErrorCode::BnConversionError)
            } else {
                Ok((quotient * constants.collaterization_rate as nat) as u64)
            }
        },
    }
}

/// What a borrower's collateral counts for, in the vault's amount of the
/// collateral: the shares that it counts for, turned into an amount by the
/// vault and rounded down.
pub open spec fn spec_collateral_value(
    collateral_share: u64,
    price_decimal: SwitchboardDecimal,
    bentobox: Conversion,
    constants: Constants,
) -> Result<u64, Error> {
    match spec_collateral_share(collateral_share, price_decimal.scale, constants) {
        Err(e) => Err(Error::Common(e)),
        Ok(share) => spec_to_amount(bentobox, share, false),
    }
}

/// What a borrower owes, times the price's mantissa: the borrower's part of
/// the debt times what is owed in total times the mantissa, by the sum of
/// all parts, rounded down.
pub open spec fn spec_debt_value(
    borrow_part: u64,
    price_decimal: SwitchboardDecimal,
    total_data: Total,
) -> Result<nat, Error> {
    if price_decimal.mantissa < 0 {
        Err(Error::Common(CommonErrorCode::BnConversionError))
    } else {
        match spec_mul_mul_div(
            borrow_part as nat,
            total_data.borrow.elastic as nat,
            price_decimal.mantissa as nat,
            total_data.borrow.base as nat,
        ) {
            Err(e) => Err(Error::Common(e)),
            Ok(v) => Ok(v),
        }
    }
}

/// Whether a position is solvent. One that owes nothing is; one that owes
/// and has no collateral is not; otherwise it is where the collateral's
/// value is at least the debt's.
pub open spec fn spec_is_solvent(
    user_balance: UserBalance,
    price_decimal: SwitchboardDecimal,
    total_data: Total,
    bentobox: Conversion,
    constants: Constants,
) -> Result<bool, Error> {
    if user_balance.borrow_part == 0 {
        Ok(true)
    } else if user_balance.collateral_share == 0 {
        Ok(false)
    } else {
        match spec_collateral_value(user_balance.collateral_share, price_decimal, bentobox, constants) {
            Err(e) => Err(e),
            Ok(amount) => match spec_debt_value(user_balance.borrow_part, price_decimal, total_data) {
                Err(e) => Err(e),
                Ok(borrow) => Ok(amount >= borrow),
            },
        }
    }
}

/// Works out the shares that a borrower's collateral counts for.
pub fn collateral_share_value(collateral_share: u64, scale: u32, constants: &Constants) -> (r: Result<
    u64,
    CommonErrorCode,
>)
    ensures
        r == spec_collateral_share(collateral_share, scale, *constants),
{
    let power = match pow10(scale) {
        Ok(v) => v,
        Err(e) => {
            return Err(e);
        },
    };
    let scaled = match U256::from_u64(collateral_share).checked_mul(&power) {
        Some(v) => v,
        None => {
            return Err(CommonErrorCode::WrongIntegerMultiplication);
        },
    };
    proof {
        scaled.lemma_bounded();
    }
    let quotient = match scaled.checked_div(
        &U256::from_u64(constants.collaterization_rate_precision),
    ) {
        Some(v) => v,
        None => {
            return Err(CommonErrorCode::WrongIntegerDivision);
        },
    };
    let share = match quotient.checked_mul(&U256::from_u64(constants.collaterization_rate)) {
        Some(v) => v,
        None => {
            return Err(CommonErrorCode::WrongIntegerMultiplication);
        },
    };
    proof {
        share.lemma_bounded();
    }
    share.try_to_u64()
}

fn collateral_value(
    collateral_share: u64,
    price_decimal: &SwitchboardDecimal,
    bentobox: &Conversion,
    constants: &Constants,
) -> (r: Result<u64, Error>)
    ensures
        r == spec_collateral_value(collateral_share, *price_decimal, *bentobox, *constants),
{
    let share = match collateral_share_value(collateral_share, price_decimal.scale, constants) {
        Ok(v) => v,
        Err(e) => {
            return Err(Error::Common(e));
        },
    };
    to_amount(bentobox, share, false)
}

fn debt_value(borrow_part: u64, price_decimal: &SwitchboardDecimal, total_data: &Total) -> (r: Result<
    U256,
    Error,
>)
    ensures
        match r {
            Ok(v) => spec_debt_value(borrow_part, *price_decimal, *total_data) == Ok::<nat, Error>(v@),
            Err(e) => spec_debt_value(borrow_part, *price_decimal, *total_data) == Err::<nat, Error>(
                e,
            ),
        },
{
    let mantissa = match U256::try_from_i128(price_decimal.mantissa) {
        Ok(v) => v,
        Err(e) => {
            return Err(Error::Common(e));
        },
    };
    match mul_mul_div(
        &U256::from_u64(borrow_part),
        &U256::from_u128(total_data.borrow.elastic),
        &mantissa,
        &U256::from_u128(total_data.borrow.base),
    ) {
        Ok(v) => Ok(v),
        Err(e) => Err(Error::Common(e)),
    }
}

/// Tells whether a position is solvent at the price given. Interest has to
/// have been accrued before.
pub fn is_solvent(
    user_balance: &UserBalance,
    price_decimal: &SwitchboardDecimal,
    total_data: &Total,
    bentobox: &Conversion,
    constants: &Constants,
) -> (r: Result<bool, Error>)
    ensures
        r == spec_is_solvent(*user_balance, *price_decimal, *total_data, *bentobox, *constants),
{
    if user_balance.borrow_part == 0 {
        return Ok(true);
    }
    if user_balance.collateral_share == 0 {
        return Ok(false);
    }
    let amount = match collateral_value(
        user_balance.collateral_share,
        price_decimal,
        bentobox,
        constants,
    ) {
        Ok(v) => v,
        Err(e) => {
            return Err(e);
        },
    };
    let borrow = match debt_value(user_balance.borrow_part, price_decimal, total_data) {
        Ok(v) => v,
        Err(e) => {
            return Err(e);
        },
    };
    Ok(U256::from_u64(amount).ge(&borrow))
}

/// The solvency boundary is inclusive: a position whose collateral counts
/// for exactly what it owes is solvent.
pub proof fn lemma_solvent_at_boundary(
    user_balance: UserBalance,
    price_decimal: SwitchboardDecimal,
    total_data: Total,
    bentobox: Conversion,
    constants: Constants,
)
    requires
        user_balance.borrow_part != 0,
        user_balance.collateral_share != 0,
        spec_collateral_value(user_balance.collateral_share, price_decimal, bentobox, constants)
            is Ok,
        spec_debt_value(user_balance.borrow_part, price_decimal, total_data) is Ok,
        spec_collateral_value(
            user_balance.collateral_share,
            price_decimal,
            bentobox,
            constants,
        ).unwrap() == spec_debt_value(user_balance.borrow_part, price_decimal, total_data).unwrap(),
    ensures
        spec_is_solvent(user_balance, price_decimal, total_data, bentobox, constants) == Ok::<
            bool,
            Error,
        >(true),
{
}

/// What [`solvent`] returns.
pub open spec fn spec_solvent(
    user_balance: UserBalance,
    price_decimal: SwitchboardDecimal,
    total_data: Total,
    bentobox: Conversion,
    constants: Constants,
) -> Result<(), Error> {
    match spec_is_solvent(user_balance, price_decimal, total_data, bentobox, constants) {
        Err(e) => Err(e),
        Ok(true) => Ok(()),
        Ok(false) => Err(Error::Cauldron(ErrorCode::UserInsolventError)),
    }
}

/// Refuses a position that is not solvent.
pub fn solvent(
    user_balance: &UserBalance,
    price_decimal: &SwitchboardDecimal,
    total_data: &Total,
    bentobox: &Conversion,
    constants: &Constants,
) -> (r: Result<(), Error>)
    ensures
        r == spec_solvent(*user_balance, *price_decimal, *total_data, *bentobox, *constants),
{
    match is_solvent(user_balance, price_decimal, total_data, bentobox, constants) {
        Ok(true) => Ok(()),
        Ok(false) => Err(Error::Cauldron(ErrorCode::UserInsolventError)),
        Err(e) => Err(e),
    }
}

} // verus!
