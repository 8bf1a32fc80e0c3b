use crate::bentobox::context::FlashLoan;
use crate::bentobox::error::ErrorCode;
use crate::bentobox::state::{spec_token_balance_of, token_balance_of, Reserve};
use crate::bentobox::utils::with_elastic;
use crate::common::errors::ErrorCode as CommonErrorCode;
use crate::error::Error;
use vstd::prelude::*;

verus! {

/// `ProgramError` of `anchor_lang::solana_program`: the error that programs
/// of the chain return. It is carried through unread.
#[verifier::external_type_specification]
#[verifier::external_body]
pub struct ExProgramError(anchor_lang::solana_program::program_error::ProgramError);

/// 10^18, by which the lender scales its fees.
pub open spec fn wad() -> nat {
    1_000_000_000_000_000_000
}

/// The lender's and the host's fee on a flash loan of `amount` tokens, under
/// a fee of `flash_loan_fee_wad` parts of 10^18 of which the host gets
/// `host_fee_percentage` percent; `None` where the fee would eat up the
/// amount, or the host's part does not fit in 64 bits.
///
/// Without a fee rate or without an amount there is no fee. Otherwise the
/// fee is the rate times the amount, but at least one token, or two where
/// the host gets a part; it has to be less than the amount, and it is rounded
/// to the nearest token. The host's part is its percentage of the fee before
/// rounding, rounded to the nearest token, but at least one token.
pub open spec fn flash_loan_fees(
    flash_loan_fee_wad: u64,
    host_fee_percentage: u8,
    amount: u64,
) -> Option<(u64, u64)> {
    if flash_loan_fee_wad == 0 || amount == 0 {
        Some((0u64, 0u64))
    } else {
        let least = if host_fee_percentage > 0 {
            2 * wad()
        } else {
            wad()
        };
        let rated = amount as nat * flash_loan_fee_wad as nat;
        let fee = if rated > least {
            rated
        } else {
            least
        };
        let part = ((fee * host_fee_percentage as nat) / 100 + wad() / 2) / wad();
        if fee >= amount as nat * wad() || (host_fee_percentage > 0 && part > u64::MAX) {
            None
        } else {
            let host = if host_fee_percentage == 0 {
                0
            } else if part < 1 {
                1
            } else {
                part
            };
            Some((((fee + wad() / 2) / wad()) as u64, host as u64))
        }
    }
}

/// Computes the fees on a flash loan with
/// `ReserveFees::calculate_flash_loan_fees` of `spl_token_lending`. That
/// function reads the flash loan fee and the host's percentage of the fee
/// schedule and the amount, nothing else, and works the fees out as
/// [`flash_loan_fees`] says; it fails only where that gives no fees.
#[verifier::external_body]
fn calculate_flash_loan_fees(flash_loan_fee_wad: u64, host_fee_percentage: u8, amount: u64) -> (r:
    Result<(u64, u64), anchor_lang::solana_program::program_error::ProgramError>)
    ensures
        (match r {
            Ok(fees) => Some(fees),
            Err(_) => None,
        }) == flash_loan_fees(flash_loan_fee_wad, host_fee_percentage, amount),
{
    let fees = spl_token_lending::state::ReserveFees {
        borrow_fee_wad: 0,
        flash_loan_fee_wad,
        host_fee_percentage,
    };
    fees.calculate_flash_loan_fees(spl_token_lending::math::Decimal::from(amount))
}

impl FlashLoan {
    /// What [`FlashLoan::flash_loan_fee`] returns. A loan of the largest
    /// 64-bit amount stands for all the reserve has.
    pub open spec fn spec_flash_loan_fee(reserve: Reserve, amount: u64) -> Result<(u64, u64), Error> {
        let flash_loan_amount = if amount == u64::MAX {
            reserve.available_amount
        } else {
            amount
        };
        match flash_loan_fees(
            reserve.fees.flash_loan_fee_wad,
            reserve.fees.host_fee_percentage,
            flash_loan_amount,
        ) {
            Some(fees) => Ok(fees),
            None => Err(Error::FlashLoanFee),
        }
    }

    /// The lender's fee and the host's fee on a flash loan of `amount`.
    pub fn flash_loan_fee(reserve: &Reserve, amount: u64) -> (r: Result<(u64, u64), Error>)
        ensures
            r == FlashLoan::spec_flash_loan_fee(*reserve, amount),
    {
        let flash_loan_amount = if amount == u64::MAX {
            reserve.available_amount
        } else {
            amount
        };
        match calculate_flash_loan_fees(
            reserve.fees.flash_loan_fee_wad,
            reserve.fees.host_fee_percentage,
            flash_loan_amount,
        ) {
            Ok(fees) => Ok(fees),
            Err(_) => Err(Error::FlashLoanFee),
        }
    }

    /// What the accounts of a flash loan have to meet before the loan is
    /// made: the source holds the amount, all four token accounts are of one
    /// token, and the host's fee goes to the token account that the asset's
    /// ledger names.
    pub open spec fn spec_checks(&self, amount: u64) -> Result<(), Error> {
        if self.source_liquidity.amount < amount {
            Err(Error::Bentobox(ErrorCode::InsufficientSourceLiquidity))
        } else if self.source_liquidity.mint != self.destination_liquidity.mint
            || self.source_liquidity.mint != self.flash_loan_fee_receiver.mint
            || self.source_liquidity.mint != self.host_fee_receiver.mint {
            Err(Error::Common(CommonErrorCode::IncompatibleTokenAccounts))
        } else if self.total_data.token_account != self.host_fee_receiver.key {
            Err(Error::Bentobox(ErrorCode::InvalidTotalTokenAccount))
        } else {
            Ok(())
        }
    }

    /// Checks the accounts of a flash loan before the loan is made.
    pub fn checks(&self, amount: u64) -> (r: Result<(), Error>)
        ensures
            r == self.spec_checks(amount),
    {
        if self.source_liquidity.amount < amount {
            return Err(Error::Bentobox(ErrorCode::InsufficientSourceLiquidity));
        }
        if self.source_liquidity.mint != self.destination_liquidity.mint
            || self.source_liquidity.mint != self.flash_loan_fee_receiver.mint
            || self.source_liquidity.mint != self.host_fee_receiver.mint {
            return Err(Error::Common(CommonErrorCode::IncompatibleTokenAccounts));
        }
        if self.total_data.token_account != self.host_fee_receiver.key {
            return Err(Error::Bentobox(ErrorCode::InvalidTotalTokenAccount));
        }
        Ok(())
    }
}

/// The accounts once a flash loan that has been paid back is booked, given
/// the host's part of the fee.
///
/// The ledger's amount grows by the host's fee. What the vault's token
/// account and its strategy then hold has to cover the ledger's amount: a
/// receiver that did not pay back in full fails the whole loan.
pub open spec fn spec_settle_flash_loan(accounts: FlashLoan, host_fee: u64) -> Result<
    FlashLoan,
    Error,
> {
    let elastic = accounts.total_data.amount.elastic;
    if elastic + host_fee > u128::MAX {
        Err(Error::Common(CommonErrorCode::WrongIntegerAddition))
    } else {
        match spec_token_balance_of(
            accounts.host_fee_receiver.amount,
            accounts.strategy_data.balance,
        ) {
            Err(e) => Err(Error::Common(e)),
            Ok(token_balance) => if token_balance < elastic + host_fee {
                Err(Error::Bentobox(ErrorCode::BentoBoxWrongAmount))
            } else {
                Ok(
                    FlashLoan {
                        total_data: with_elastic(accounts.total_data, (elastic + host_fee) as u128),
                        ..accounts
                    },
                )
            },
        }
    }
}

/// Books the host's fee of a flash loan that has been paid back. On an error
/// the accounts are left as they were.
pub fn settle_flash_loan(accounts: &mut FlashLoan, host_fee: u64) -> (r: Result<(), Error>)
    ensures
        match r {
            Ok(_) => spec_settle_flash_loan(*old(accounts), host_fee) == Ok::<FlashLoan, Error>(
                *final(accounts),
            ),
            Err(e) => spec_settle_flash_loan(*old(accounts), host_fee) == Err::<FlashLoan, Error>(e)
                && *final(accounts) == *old(accounts),
        },
{
    let elastic = match accounts.total_data.amount.elastic.checked_add(host_fee as u128) {
        Some(v) => v,
        None => {
            return Err(Error::Common(CommonErrorCode::WrongIntegerAddition));
        },
    };
    let token_balance = match token_balance_of(&accounts.host_fee_receiver, &accounts.strategy_data) {
        Ok(v) => v,
        Err(e) => {
            return Err(Error::Common(e));
        },
    };
    if token_balance < elastic {
        return Err(Error::Bentobox(ErrorCode::BentoBoxWrongAmount));
    }
    accounts.total_data.amount.elastic = elastic;
    Ok(())
}

/// The accounts after [`flash_loan`].
pub open spec fn spec_flash_loan(accounts: FlashLoan, reserve: Reserve, amount: u64) -> Result<
    FlashLoan,
    Error,
> {
    match accounts.spec_checks(amount) {
        Err(e) => Err(e),
        Ok(_) => match FlashLoan::spec_flash_loan_fee(reserve, amount) {
            Err(e) => Err(e),
            Ok(fees) => spec_settle_flash_loan(accounts, fees.1),
        },
    }
}

/// Books a flash loan of `amount` tokens once the receiver has returned.
/// The accounts are given as they stand then, but for the source, which is
/// given as it stood before the loan. On an error the accounts are left as
/// they were.
pub fn flash_loan(accounts: &mut FlashLoan, reserve: &Reserve, amount: u64) -> (r: Result<(), Error>)
    ensures
        match r {
            Ok(_) => spec_flash_loan(*old(accounts), *reserve, amount) == Ok::<FlashLoan, Error>(
                *final(accounts),
            ),
            Err(e) => spec_flash_loan(*old(accounts), *reserve, amount) == Err::<FlashLoan, Error>(e)
                && *final(accounts) == *old(accounts),
        },
{
    match accounts.checks(amount) {
        Ok(_) => {},
        Err(e) => {
            return Err(e);
        },
    }
    let (_fee, host_fee) = match FlashLoan::flash_loan_fee(reserve, amount) {
        Ok(fees) => fees,
        Err(e) => {
            return Err(e);
        },
    };
    settle_flash_loan(accounts, host_fee)
}

} // verus!
