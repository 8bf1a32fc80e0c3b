use crate::bentobox::context::{Conversion, Deposit, TransferInternal, Withdraw};
use crate::bentobox::instructions::{
    deposit, spec_deposit, spec_to_share, spec_transfer, spec_withdraw, to_share, transfer, withdraw,
};
use crate::bentobox::state::{AccountInfo, AmountShareOut, Balance};
use crate::bentobox::utils::{as_whitelisted, spec_as_whitelisted};
use crate::cauldron::context::{
    Borrow, MasterContractAccounts, RemoveCollateral, Repay, VaultDeposit, VaultWithdraw,
};
use crate::cauldron::error::ErrorCode;
use crate::cauldron::state::{AccrueInfo, Cauldron, Constants, Total, UserBalance};
use crate::common::errors::ErrorCode as CommonErrorCode;
use crate::common::pubkey::Pubkey;
use crate::common::rebase::Rebase;
use crate::error::Error;
use vstd::prelude::*;

verus! {

/// The two vault balances after `share` shares have moved from the first to
/// the second on the word of `authority`, as the vault's own transfer does
/// it.
pub open spec fn spec_bentobox_transfer(
    share: u64,
    from: Pubkey,
    balance_from: Balance,
    balance_to: Balance,
    bentobox_account: Pubkey,
    authority: Pubkey,
    bentobox_program: Pubkey,
    remaining_accounts: Seq<AccountInfo>,
) -> Result<(Balance, Balance), Error> {
    match spec_transfer(
        bentobox_program,
        TransferInternal { balance_from, balance_to, authority, bentobox_key: bentobox_account },
        remaining_accounts,
        from,
        share,
    ) {
        Err(e) => Err(e),
        Ok(after) => Ok((after.balance_from, after.balance_to)),
    }
}

/// Has the vault move `share` shares from the holder `from` to another
/// holder, on the word of `authority`. On an error neither balance changes.
pub fn create_bentobox_transfer_context(
    share: u64,
    from: &Pubkey,
    balance_from: &mut Balance,
    balance_to: &mut Balance,
    bentobox_account: &Pubkey,
    authority: &Pubkey,
    bentobox_program: &Pubkey,
    remaining_accounts: &Vec<AccountInfo>,
) -> (r: Result<(), Error>)
    ensures
        match spec_bentobox_transfer(
            share,
            *from,
            *old(balance_from),
            *old(balance_to),
            *bentobox_account,
            *authority,
            *bentobox_program,
            remaining_accounts@,
        ) {
            Ok((left, received)) => r is Ok && *final(balance_from) == left && *final(balance_to)
                == received,
            Err(e) => r == Err::<(), Error>(e) && *final(balance_from) == *old(balance_from)
                && *final(balance_to) == *old(balance_to),
        },
{
    let mut accounts = TransferInternal {
        balance_from: *balance_from,
        balance_to: *balance_to,
        authority: *authority,
        bentobox_key: *bentobox_account,
    };
    match transfer(bentobox_program, &mut accounts, remaining_accounts, from, share) {
        Ok(_) => {
            *balance_from = accounts.balance_from;
            *balance_to = accounts.balance_to;
            Ok(())
        },
        Err(e) => Err(e),
    }
}

impl MasterContractAccounts {
    /// The three accounts in the order the vault expects them.
    pub open spec fn spec_accounts(&self) -> Seq<AccountInfo> {
        seq![self.master_contract_whitelisted, self.master_contract_approved, self.cauldron_account]
    }

    /// Lists the three accounts in the order the vault expects them.
    pub fn accounts(&self) -> (r: Vec<AccountInfo>)
        ensures
            r@ == self.spec_accounts(),
    {
        let mut v: Vec<AccountInfo> = Vec::new();
        v.push(self.master_contract_whitelisted);
        v.push(self.master_contract_approved);
        v.push(self.cauldron_account);
        assert(v@ =~= self.spec_accounts());
        v
    }
}

/// The fee on opening a loan of `amount`.
pub open spec fn spec_opening_fee(amount: u64, constants: Constants) -> Result<u64, CommonErrorCode> {
    if amount * constants.borrow_opening_fee > u64::MAX {
        Err(CommonErrorCode::WrongIntegerMultiplication)
    } else if constants.borrow_opening_fee_precision == 0 {
        Err(CommonErrorCode::WrongIntegerDivision)
    } else {
        Ok(((amount * constants.borrow_opening_fee) / (constants.borrow_opening_fee_precision as int)) as u64)
    }
}

fn opening_fee(amount: u64, constants: &Constants) -> (r: Result<u64, CommonErrorCode>)
    ensures
        r == spec_opening_fee(amount, *constants),
{
    let product = match amount.checked_mul(constants.borrow_opening_fee) {
        Some(v) => v,
        None => {
            return Err(CommonErrorCode::WrongIntegerMultiplication);
        },
    };
    if constants.borrow_opening_fee_precision == 0 {
        return Err(CommonErrorCode::WrongIntegerDivision);
    }
    Ok(product / constants.borrow_opening_fee_precision)
}

/// The accounts after [`borrow_internal`], and the part of the debt and the
/// shares of the vault that it returns.
///
/// The opening fee is added to the amount, and the sum is added to what is
/// owed. The borrower's part grows by what that sum is worth in parts of the
/// debt as it stood, rounded up, and so does the sum of all parts. What is
/// owed in total may not exceed the market's cap, nor the borrower's part
/// the cap per borrower. The fee is booked as earned. The amount, without
/// the fee, is paid out in shares of the vault, rounded down.
pub open spec fn spec_borrow_internal(accounts: Borrow, amount: u64) -> Result<
    (Borrow, (u64, u64)),
    Error,
> {
    let cauldron = accounts.cauldron_account;
    match spec_opening_fee(amount, cauldron.constants) {
        Err(e) => Err(Error::Common(e)),
        Ok(fee_amount) => if amount + fee_amount > u64::MAX {
            Err(Error::Common(CommonErrorCode::WrongIntegerAddition))
        } else {
            match spec_add_debt(accounts.total_data.borrow, (amount + fee_amount) as u64) {
                Err(e) => Err(Error::Common(e)),
                Ok((total_borrow, part)) => if total_borrow.elastic > cauldron.borrow_limit.total {
                    Err(Error::Cauldron(ErrorCode::BorrowLimitReached))
                } else if cauldron.accrue_info.fees_earned + fee_amount > u128::MAX
                    || accounts.user_balance.borrow_part + part > u64::MAX {
                    Err(Error::Common(CommonErrorCode::WrongIntegerAddition))
                } else if accounts.user_balance.borrow_part + part
                    > cauldron.borrow_limit.borrow_part_per_address {
                    Err(Error::Cauldron(ErrorCode::BorrowLimitReached))
                } else {
                    match spec_to_share(
                        Conversion {
                            mint: accounts.magic_internet_money_mint,
                            total_data: accounts.bentobox_total_data,
                        },
                        amount,
                        false,
                    ) {
                        Err(e) => Err(e),
                        Ok(share) => match spec_bentobox_transfer(
                            share,
                            accounts.from,
                            accounts.cauldron_bentobox_balance,
                            accounts.to_bentobox_balance,
                            accounts.bentobox_account,
                            accounts.from,
                            accounts.bentobox_program,
                            Seq::<AccountInfo>::empty(),
                        ) {
                            Err(e) => Err(e),
                            Ok((left, received)) => Ok(
                                (
                                    Borrow {
                                        total_data: Total {
                                            borrow: total_borrow,
                                            ..accounts.total_data
                                        },
                                        cauldron_account: Cauldron {
                                            accrue_info: AccrueInfo {
                                                fees_earned: (cauldron.accrue_info.fees_earned
                                                    + fee_amount) as u128,
                                                ..cauldron.accrue_info
                                            },
                                            ..cauldron
                                        },
                                        user_balance: UserBalance {
                                            borrow_part: (accounts.user_balance.borrow_part
                                                + part) as u64,
                                            ..accounts.user_balance
                                        },
                                        cauldron_bentobox_balance: left,
                                        to_bentobox_balance: received,
                                        ..accounts
                                    },
                                    (part, share),
                                ),
                            ),
                        },
                    }
                },
            }
        },
    }
}

/// The debt ledger after `owed` has been added to what is owed, and the
/// parts of the debt that it is worth on the ledger as it stood, rounded up,
/// by which the sum of all parts grows.
pub open spec fn spec_add_debt(borrow: Rebase, owed: u64) -> Result<(Rebase, u64), CommonErrorCode> {
    match borrow.spec_to_base(owed, true) {
        Err(e) => Err(e),
        Ok(part) => match borrow.spec_add_e_b(owed, part) {
            Err(e) => Err(e),
            Ok(total) => Ok((total, part)),
        },
    }
}

/// Adds `owed` to what is owed and returns the new ledger with the parts of
/// the debt that were added.
pub fn add_debt(borrow: &Rebase, owed: u64) -> (r: Result<(Rebase, u64), CommonErrorCode>)
    ensures
        r == spec_add_debt(*borrow, owed),
        r matches Ok((total, part)) ==> total.base == borrow.base + part && total.elastic
            == borrow.elastic + owed,
{
    let part = match borrow.to_base(owed, true) {
        Ok(v) => v,
        Err(e) => {
            return Err(e);
        },
    };
    let mut rebase: Rebase = *borrow;
    match rebase.add_e_b(owed, part) {
        Ok(total) => Ok((total, part)),
        Err(e) => Err(e),
    }
}

/// Books a loan of `amount` and pays it out in the vault. Returns the
/// borrower's new part of the debt and the shares paid out. On an error the
/// accounts are left as they were.
#[verifier::rlimit(40)]
pub fn borrow_internal(amount: u64, accounts: &mut Borrow) -> (r: Result<(u64, u64), Error>)
    ensures
        match r {
            Ok(out) => spec_borrow_internal(*old(accounts), amount) == Ok::<
                (Borrow, (u64, u64)),
                Error,
            >((*final(accounts), out)),
            Err(e) => spec_borrow_internal(*old(accounts), amount) == Err::<
                (Borrow, (u64, u64)),
                Error,
            >(e) && *final(accounts) == *old(accounts),
        },
        r matches Ok(out) ==> final(accounts).user_balance.borrow_part - old(accounts).user_balance.borrow_part == out.0 && final(accounts).total_data.borrow.base - old(accounts).total_data.borrow.base == out.0,
{
    let fee_amount = match opening_fee(amount, &accounts.cauldron_account.constants) {
        Ok(v) => v,
        Err(e) => {
            return Err(Error::Common(e));
        },
    };
    let owed = match amount.checked_add(fee_amount) {
        Some(v) => v,
        None => {
            return Err(Error::Common(CommonErrorCode::WrongIntegerAddition));
        },
    };
    let (total_borrow, part) = match add_debt(&accounts.total_data.borrow, owed) {
        Ok(v) => v,
        Err(e) => {
            return Err(Error::Common(e));
        },
    };
    if total_borrow.elastic > accounts.cauldron_account.borrow_limit.total as u128 {
        return Err(Error::Cauldron(ErrorCode::BorrowLimitReached));
    }
    let fees_earned = match accounts.cauldron_account.accrue_info.fees_earned.checked_add(
        fee_amount as u128,
    ) {
        Some(v) => v,
        None => {
            return Err(Error::Common(CommonErrorCode::WrongIntegerAddition));
        },
    };
    let new_borrow_part = match accounts.user_balance.borrow_part.checked_add(part) {
        Some(v) => v,
        None => {
            return Err(Error::Common(CommonErrorCode::WrongIntegerAddition));
        },
    };
    if new_borrow_part > accounts.cauldron_account.borrow_limit.borrow_part_per_address {
        return Err(Error::Cauldron(ErrorCode::BorrowLimitReached));
    }
    let conversion = Conversion {
        mint: accounts.magic_internet_money_mint,
        total_data: accounts.bentobox_total_data,
    };
    let share = match to_share(&conversion, amount, false) {
        Ok(v) => v,
        Err(e) => {
            return Err(e);
        },
    };
    let mut balance_from = accounts.cauldron_bentobox_balance;
    let mut balance_to = accounts.to_bentobox_balance;
    let none: Vec<AccountInfo> = Vec::new();
    match create_bentobox_transfer_context(
        share,
        &accounts.from,
        &mut balance_from,
        &mut balance_to,
        &accounts.bentobox_account,
        &accounts.from,
        &accounts.bentobox_program,
        &none,
    ) {
        Ok(_) => {},
        Err(e) => {
            return Err(e);
        },
    }
    accounts.total_data.borrow = total_borrow;
    accounts.cauldron_account.accrue_info.fees_earned = fees_earned;
    accounts.user_balance.borrow_part = new_borrow_part;
    accounts.cauldron_bentobox_balance = balance_from;
    accounts.to_bentobox_balance = balance_to;
    Ok((part, share))
}

/// The accounts after the market's books and the vault have taken a
/// repayment of `part` of the debt out of the vault balance of `from_key`,
/// and the amount repaid.
///
/// The part is taken off what is owed at its worth rounded up, and off the
/// borrower's part. The vault moves the shares that the amount repaid is
/// worth, rounded down, to the market's balance.
pub open spec fn spec_repay_internal(accounts: Repay, from_key: Pubkey, part: u64) -> Result<
    (Repay, i64),
    Error,
> {
    match accounts.total_data.borrow.spec_sub_e(part, true) {
        Err(e) => Err(Error::Common(e)),
        Ok((rebase, amount)) => if accounts.user_balance.borrow_part < part {
            Err(Error::Common(CommonErrorCode::WrongIntegerSubtraction))
        } else {
            match spec_to_share(
                Conversion {
                    mint: accounts.magic_internet_money_mint,
                    total_data: accounts.bentobox_total_data,
                },
                amount,
                false,
            ) {
                Err(e) => Err(e),
                Ok(share) => match spec_bentobox_transfer(
                    share,
                    from_key,
                    accounts.from_bentobox_balance,
                    accounts.cauldron_bentobox_balance,
                    accounts.bentobox_account,
                    accounts.cauldron_authority,
                    accounts.bentobox_program,
                    accounts.master_contract.spec_accounts(),
                ) {
                    Err(e) => Err(e),
                    Ok((left, received)) => if amount > i64::MAX {
                        Err(Error::Common(CommonErrorCode::TryIntoConversionError))
                    } else {
                        Ok(
                            (
                                Repay {
                                    total_data: Total { borrow: rebase, ..accounts.total_data },
                                    user_balance: UserBalance {
                                        borrow_part: (accounts.user_balance.borrow_part
                                            - part) as u64,
                                        ..accounts.user_balance
                                    },
                                    from_bentobox_balance: left,
                                    cauldron_bentobox_balance: received,
                                    ..accounts
                                },
                                amount as i64,
                            ),
                        )
                    },
                },
            }
        },
    }
}

/// Takes a repayment of `part` of the debt out of the vault balance of
/// `from_key`. Returns the amount repaid. On an error the accounts are left
/// as they were.
#[verifier::rlimit(40)]
pub fn repay(part: u64, accounts: &mut Repay, from_key: &Pubkey) -> (r: Result<i64, Error>)
    ensures
        match r {
            Ok(amount) => spec_repay_internal(*old(accounts), *from_key, part) == Ok::<
                (Repay, i64),
                Error,
            >((*final(accounts), amount)),
            Err(e) => spec_repay_internal(*old(accounts), *from_key, part) == Err::<
                (Repay, i64),
                Error,
            >(e) && *final(accounts) == *old(accounts),
        },
        r is Ok ==> old(accounts).user_balance.borrow_part - final(accounts).user_balance.borrow_part == part && old(accounts).total_data.borrow.base - final(accounts).total_data.borrow.base == part,
{
    let mut rebase: Rebase = accounts.total_data.borrow;
    let (rebase_result, amount) = match rebase.sub_e(part, true) {
        Ok(v) => v,
        Err(e) => {
            return Err(Error::Common(e));
        },
    };
    let borrow_part = match accounts.user_balance.borrow_part.checked_sub(part) {
        Some(v) => v,
        None => {
            return Err(Error::Common(CommonErrorCode::WrongIntegerSubtraction));
        },
    };
    let conversion = Conversion {
        mint: accounts.magic_internet_money_mint,
        total_data: accounts.bentobox_total_data,
    };
    let share = match to_share(&conversion, amount, false) {
        Ok(v) => v,
        Err(e) => {
            return Err(e);
        },
    };
    let mut balance_from = accounts.from_bentobox_balance;
    let mut balance_to = accounts.cauldron_bentobox_balance;
    let remaining = accounts.master_contract.accounts();
    match create_bentobox_transfer_context(
        share,
        from_key,
        &mut balance_from,
        &mut balance_to,
        &accounts.bentobox_account,
        &accounts.cauldron_authority,
        &accounts.bentobox_program,
        &remaining,
    ) {
        Ok(_) => {},
        Err(e) => {
            return Err(e);
        },
    }
    if amount > i64::MAX as u64 {
        return Err(Error::Common(CommonErrorCode::TryIntoConversionError));
    }
    accounts.total_data.borrow = rebase_result;
    accounts.user_balance.borrow_part = borrow_part;
    accounts.from_bentobox_balance = balance_from;
    accounts.cauldron_bentobox_balance = balance_to;
    Ok(amount as i64)
}

/// The accounts after `share` shares of collateral have left the borrower's
/// position and gone from the market's vault balance to another.
pub open spec fn spec_remove_collateral_internal(accounts: RemoveCollateral, share: u64) -> Result<
    RemoveCollateral,
    Error,
> {
    if accounts.user_balance.collateral_share < share || accounts.total_data.collateral_share
        < share {
        Err(Error::Common(CommonErrorCode::WrongIntegerSubtraction))
    } else {
        match spec_bentobox_transfer(
            share,
            accounts.cauldron_authority,
            accounts.cauldron_bentobox_balance,
            accounts.to_bentobox_balance,
            accounts.bentobox_account,
            accounts.cauldron_authority,
            accounts.bentobox_program,
            accounts.master_contract.spec_accounts(),
        ) {
            Err(e) => Err(e),
            Ok((left, received)) => Ok(
                RemoveCollateral {
                    user_balance: UserBalance {
                        collateral_share: (accounts.user_balance.collateral_share - share) as u64,
                        ..accounts.user_balance
                    },
                    total_data: Total {
                        collateral_share: (accounts.total_data.collateral_share - share) as u64,
                        ..accounts.total_data
                    },
                    cauldron_bentobox_balance: left,
                    to_bentobox_balance: received,
                    ..accounts
                },
            ),
        }
    }
}

/// Takes `share` shares of collateral off the borrower's position and moves
/// them out of the market's vault balance. On an error the accounts are left
/// as they were.
pub fn remove_collateral(share: u64, accounts: &mut RemoveCollateral) -> (r: Result<(), Error>)
    ensures
        match r {
            Ok(_) => spec_remove_collateral_internal(*old(accounts), share) == Ok::<
                RemoveCollateral,
                Error,
            >(*final(accounts)),
            Err(e) => spec_remove_collateral_internal(*old(accounts), share) == Err::<
                RemoveCollateral,
                Error,
            >(e) && *final(accounts) == *old(accounts),
        },
        r is Ok ==> old(accounts).user_balance.collateral_share - final(accounts).user_balance.collateral_share == share && old(accounts).total_data.collateral_share
            - final(accounts).total_data.collateral_share == share,
{
    let user_share = match accounts.user_balance.collateral_share.checked_sub(share) {
        Some(v) => v,
        None => {
            return Err(Error::Common(CommonErrorCode::WrongIntegerSubtraction));
        },
    };
    let total_share = match accounts.total_data.collateral_share.checked_sub(share) {
        Some(v) => v,
        None => {
            return Err(Error::Common(CommonErrorCode::WrongIntegerSubtraction));
        },
    };
    let mut balance_from = accounts.cauldron_bentobox_balance;
    let mut balance_to = accounts.to_bentobox_balance;
    let remaining = accounts.master_contract.accounts();
    match create_bentobox_transfer_context(
        share,
        &accounts.cauldron_authority,
        &mut balance_from,
        &mut balance_to,
        &accounts.bentobox_account,
        &accounts.cauldron_authority,
        &accounts.bentobox_program,
        &remaining,
    ) {
        Ok(_) => {},
        Err(e) => {
            return Err(e);
        },
    }
    accounts.user_balance.collateral_share = user_share;
    accounts.total_data.collateral_share = total_share;
    accounts.cauldron_bentobox_balance = balance_from;
    accounts.to_bentobox_balance = balance_to;
    Ok(())
}

impl VaultWithdraw {
    /// The accounts as the vault's own withdrawal takes them.
    pub open spec fn spec_context(&self, authority: Pubkey) -> Withdraw {
        Withdraw {
            bentobox_vault: self.bentobox_vault,
            to: self.to_vault,
            balance: self.bentobox_from_balance,
            total_data: self.bentobox_total_data,
            authority,
            vault_authority: self.bentobox_vault_authority,
            bentobox_account: self.bentobox,
            bentobox_key: self.bentobox_account,
        }
    }

    /// The accounts with what the vault's withdrawal left of them.
    pub open spec fn spec_after(&self, after: Withdraw) -> VaultWithdraw {
        VaultWithdraw {
            bentobox_vault: after.bentobox_vault,
            to_vault: after.to,
            bentobox_from_balance: after.balance,
            bentobox_total_data: after.total_data,
            ..*self
        }
    }
}

/// The accounts after the vault has paid out on the word of `authority`,
/// and what it moved.
pub open spec fn spec_bento_withdraw(
    from: Pubkey,
    amount: u64,
    share: u64,
    accounts: VaultWithdraw,
    authority: Pubkey,
    remaining_accounts: Seq<AccountInfo>,
) -> Result<(VaultWithdraw, AmountShareOut), Error> {
    match spec_withdraw(
        accounts.bentobox_program,
        accounts.spec_context(authority),
        remaining_accounts,
        from,
        amount,
        share,
    ) {
        Err(e) => Err(e),
        Ok((after, out)) => Ok((accounts.spec_after(after), out)),
    }
}

/// Has the vault pay out tokens against the shares of the holder `from`, on
/// the word of `authority`. On an error the accounts are left as they were.
pub fn bento_withdraw(
    from: &Pubkey,
    amount: u64,
    share: u64,
    accounts: &mut VaultWithdraw,
    authority: &Pubkey,
    remaining_accounts: &Vec<AccountInfo>,
) -> (r: Result<AmountShareOut, Error>)
    ensures
        match r {
            Ok(out) => spec_bento_withdraw(
                *from,
                amount,
                share,
                *old(accounts),
                *authority,
                remaining_accounts@,
            ) == Ok::<(VaultWithdraw, AmountShareOut), Error>((*final(accounts), out)),
            Err(e) => spec_bento_withdraw(
                *from,
                amount,
                share,
                *old(accounts),
                *authority,
                remaining_accounts@,
            ) == Err::<(VaultWithdraw, AmountShareOut), Error>(e) && *final(accounts) == *old(accounts),
        },
{
    let mut context = Withdraw {
        bentobox_vault: accounts.bentobox_vault,
        to: accounts.to_vault,
        balance: accounts.bentobox_from_balance,
        total_data: accounts.bentobox_total_data,
        authority: *authority,
        vault_authority: accounts.bentobox_vault_authority,
        bentobox_account: accounts.bentobox,
        bentobox_key: accounts.bentobox_account,
    };
    match withdraw(&accounts.bentobox_program, &mut context, remaining_accounts, from, amount, share) {
        Ok(out) => {
            accounts.bentobox_vault = context.bentobox_vault;
            accounts.to_vault = context.to;
            accounts.bentobox_from_balance = context.balance;
            accounts.bentobox_total_data = context.total_data;
            Ok(out)
        },
        Err(e) => Err(e),
    }
}

impl VaultDeposit {
    /// The accounts as the vault's own deposit takes them.
    pub open spec fn spec_context(&self, authority: Pubkey) -> Deposit {
        Deposit {
            from: self.from,
            bentobox_vault: self.bentobox_vault,
            balance: self.bentobox_to_balance,
            total_data: self.bentobox_total_data,
            authority,
            bentobox_account: self.bentobox,
            bentobox_key: self.bentobox_account,
            strategy_data: self.strategy_data,
            mint: self.mint,
        }
    }

    /// The accounts with what the vault's deposit left of them.
    pub open spec fn spec_after(&self, after: Deposit) -> VaultDeposit {
        VaultDeposit {
            from: after.from,
            bentobox_vault: after.bentobox_vault,
            bentobox_to_balance: after.balance,
            bentobox_total_data: after.total_data,
            ..*self
        }
    }
}

/// The accounts after the vault has taken a deposit on the word of
/// `authority`, and what it moved.
pub open spec fn spec_bento_deposit(
    amount: u64,
    share: u64,
    accounts: VaultDeposit,
    authority: Pubkey,
    remaining_accounts: Seq<AccountInfo>,
) -> Result<(VaultDeposit, AmountShareOut), Error> {
    match spec_deposit(
        accounts.bentobox_program,
        accounts.spec_context(authority),
        remaining_accounts,
        amount,
        share,
    ) {
        Err(e) => Err(e),
        Ok((after, out)) => Ok((accounts.spec_after(after), out)),
    }
}

/// Has the vault take a deposit on the word of `authority`. On an error the
/// accounts are left as they were.
pub fn bento_deposit(
    amount: u64,
    share: u64,
    accounts: &mut VaultDeposit,
    authority: &Pubkey,
    remaining_accounts: &Vec<AccountInfo>,
) -> (r: Result<AmountShareOut, Error>)
    ensures
        match r {
            Ok(out) => spec_bento_deposit(
                amount,
                share,
                *old(accounts),
                *authority,
                remaining_accounts@,
            ) == Ok::<(VaultDeposit, AmountShareOut), Error>((*final(accounts), out)),
            Err(e) => spec_bento_deposit(
                amount,
                share,
                *old(accounts),
                *authority,
                remaining_accounts@,
            ) == Err::<(VaultDeposit, AmountShareOut), Error>(e) && *final(accounts) == *old(accounts),
        },
{
    let mut context = Deposit {
        from: accounts.from,
        bentobox_vault: accounts.bentobox_vault,
        balance: accounts.bentobox_to_balance,
        total_data: accounts.bentobox_total_data,
        authority: *authority,
        bentobox_account: accounts.bentobox,
        bentobox_key: accounts.bentobox_account,
        strategy_data: accounts.strategy_data,
        mint: accounts.mint,
    };
    match deposit(&accounts.bentobox_program, &mut context, remaining_accounts, amount, share) {
        Ok(out) => {
            accounts.from = context.from;
            accounts.bentobox_vault = context.bentobox_vault;
            accounts.bentobox_to_balance = context.balance;
            accounts.bentobox_total_data = context.total_data;
            Ok(out)
        },
        Err(e) => Err(e),
    }
}

/// Whether an account holds the vault's whitelist record of this market.
pub open spec fn spec_validate_whitelisted_account(
    master_contract_whitelisted: AccountInfo,
    cauldron_account: Pubkey,
    bentobox_program: Pubkey,
) -> Result<(), Error> {
    match spec_as_whitelisted(master_contract_whitelisted, bentobox_program) {
        None => Err(Error::Cauldron(ErrorCode::MasterContractWhitelistedAccountInvalid)),
        Some(whitelisted) => if whitelisted.master_contract_account != cauldron_account {
            Err(Error::Cauldron(ErrorCode::IncompatibleMasterContractWhitelistedAccount))
        } else {
            Ok(())
        },
    }
}

/// Checks that an account holds the vault's whitelist record of this
/// market.
pub fn validate_whitelisted_account(
    master_contract_whitelisted: &AccountInfo,
    cauldron_account: &Pubkey,
    bentobox_program: &Pubkey,
) -> (r: Result<(), Error>)
    ensures
        r == spec_validate_whitelisted_account(
            *master_contract_whitelisted,
            *cauldron_account,
            *bentobox_program,
        ),
{
    let whitelisted_account = match as_whitelisted(master_contract_whitelisted, bentobox_program) {
        Some(account) => account,
        None => {
            return Err(Error::Cauldron(ErrorCode::MasterContractWhitelistedAccountInvalid));
        },
    };
    if whitelisted_account.master_contract_account != *cauldron_account {
        return Err(Error::Cauldron(ErrorCode::IncompatibleMasterContractWhitelistedAccount));
    }
    Ok(())
}

} // verus!
