use crate::error::Error;
use crate::strategy::state::BaseStrategyInfo;
use vstd::prelude::*;

verus! {

/// What the vault asks of a yield strategy.
///
/// A strategy holds tokens in a token account of its own, from which it
/// invests and into which it pays out. Each operation comes with a spec
/// function of the same name, `spec_` in front, that gives the strategy
/// after the call and what the call returns; the vault's own contracts are
/// stated over those, so they hold of every strategy whatever it does.
pub trait Strategy: Sized {
    /// The strategy's shared record, where it can be read.
    spec fn spec_info(&self) -> Result<BaseStrategyInfo, Error>;

    /// Tokens in the strategy's own token account, where it can be read.
    spec fn spec_vault_amount(&self) -> Result<u64, Error>;

    spec fn spec_receive(&self, amount: u64) -> (Self, Result<(), Error>);

    spec fn spec_skim(&self, amount: u64) -> (Self, Result<(), Error>);

    spec fn spec_harvest(&self, balance: u64) -> (Self, Result<i64, Error>);

    spec fn spec_withdraw(&self, amount: u64) -> (Self, Result<(), Error>);

    spec fn spec_exit(&self) -> (Self, Result<(), Error>);

    spec fn spec_harvest_rewards(&self) -> (Self, Result<(), Error>);

    spec fn spec_safe_harvest(&self, max_balance: u64) -> (Self, Result<(), Error>);

    spec fn spec_transfer(&self, amount: u64) -> (Self, Result<(), Error>);

    /// Reads the strategy's shared record.
    fn info(&self) -> (r: Result<BaseStrategyInfo, Error>)
        ensures
            r == self.spec_info(),
    ;

    /// Reads how many tokens the strategy's own token account holds now.
    fn vault_amount(&self) -> (r: Result<u64, Error>)
        ensures
            r == self.spec_vault_amount(),
    ;

    /// Takes `amount` tokens from the vault's token account into the
    /// strategy's own.
    fn receive(&mut self, amount: u64) -> (r: Result<(), Error>)
        ensures
            (*final(self), r) == old(self).spec_receive(amount),
    ;

    /// Invests `amount` tokens out of the strategy's token account.
    fn skim(&mut self, amount: u64) -> (r: Result<(), Error>)
        ensures
            (*final(self), r) == old(self).spec_skim(amount),
    ;

    /// Realises what the investment gained or lost against `balance`, the
    /// amount the vault believes invested, and reports it. A gain is paid
    /// into the strategy's token account.
    fn harvest(&mut self, balance: u64) -> (r: Result<i64, Error>)
        ensures
            (*final(self), r) == old(self).spec_harvest(balance),
    ;

    /// Pulls `amount` tokens back from the investment into the strategy's
    /// token account. What arrives may differ from what was asked.
    fn withdraw(&mut self, amount: u64) -> (r: Result<(), Error>)
        ensures
            (*final(self), r) == old(self).spec_withdraw(amount),
    ;

    /// Pulls everything back into the strategy's token account and marks the
    /// strategy as exited. May be called again.
    fn exit(&mut self) -> (r: Result<(), Error>)
        ensures
            (*final(self), r) == old(self).spec_exit(),
    ;

    /// Claims reward tokens.
    fn harvest_rewards(&mut self) -> (r: Result<(), Error>)
        ensures
            (*final(self), r) == old(self).spec_harvest_rewards(),
    ;

    /// Sets the ceiling above which a harvest is skipped.
    fn safe_harvest(&mut self, max_balance: u64) -> (r: Result<(), Error>)
        ensures
            (*final(self), r) == old(self).spec_safe_harvest(max_balance),
    ;

    /// Sends `amount` tokens from the strategy's token account to the
    /// vault's.
    fn transfer(&mut self, amount: u64) -> (r: Result<(), Error>)
        ensures
            (*final(self), r) == old(self).spec_transfer(amount),
    ;
}

} // verus!
