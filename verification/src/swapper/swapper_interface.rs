use crate::common::errors::ErrorCode as CommonErrorCode;
use crate::common::pubkey::Pubkey;
use crate::common::token::TokenAccount;
use crate::error::Error;
use vstd::prelude::*;

verus! {

/// The accounts of a swap.
#[derive(Clone, Copy, Debug, PartialEq, Eq)]
pub struct Swap {
    /// Token account the swap takes from.
    pub source_token_account: TokenAccount,
    /// Token account the swap pays into.
    pub destination_token_account: TokenAccount,
    /// The program that trades.
    pub swap_program: Pubkey,
    pub token_program: Pubkey,
    /// Who signs for the swap, and has to own both token accounts.
    pub authority: Pubkey,
}

impl Swap {
    /// Whether both token accounts belong to the signer.
    pub open spec fn spec_checks(&self) -> Result<(), Error> {
        if self.source_token_account.owner != self.authority
            || self.destination_token_account.owner != self.authority {
            Err(Error::Common(CommonErrorCode::InvalidTokenAccountOwner))
        } else {
            Ok(())
        }
    }

    /// Checks that both token accounts belong to the signer.
    pub fn checks(&self) -> (r: Result<(), Error>)
        ensures
            r == self.spec_checks(),
    {
        if self.source_token_account.owner != self.authority
            || self.destination_token_account.owner != self.authority {
            return Err(Error::Common(CommonErrorCode::InvalidTokenAccountOwner));
        }
        Ok(())
    }
}

/// What the lending market asks of a swapper: to trade the tokens of one
/// token account for tokens paid into another.
///
/// As with a strategy, each operation comes with a spec function that gives
/// the swapper after the call and what the call returns. Nothing is asked of
/// what a swap pays: the market measures that itself.
pub trait Swapper: Sized {
    /// Tokens in the destination account, where it can be read.
    spec fn spec_destination_amount(&self) -> Result<u64, Error>;

    spec fn spec_get_amount_in(&self, amount_out: u64) -> Result<(), Error>;

    spec fn spec_get_amount_out(&self, amount_in: u64) -> Result<(), Error>;

    spec fn spec_swap(&self, amount_in: u64, minimum_amount_out: u64) -> (Self, Result<(), Error>);

    /// Reads how many tokens the destination account holds now.
    fn destination_amount(&self) -> (r: Result<u64, Error>)
        ensures
            r == self.spec_destination_amount(),
    ;

    fn get_amount_in(&self, amount_out: u64) -> (r: Result<(), Error>)
        ensures
            r == self.spec_get_amount_in(amount_out),
    ;

    fn get_amount_out(&self, amount_in: u64) -> (r: Result<(), Error>)
        ensures
            r == self.spec_get_amount_out(amount_in),
    ;

    /// Trades `amount_in` tokens of the source account for at least
    /// `minimum_amount_out` paid into the destination account.
    fn swap(&mut self, amount_in: u64, minimum_amount_out: u64) -> (r: Result<(), Error>)
        ensures
            (*final(self), r) == old(self).spec_swap(amount_in, minimum_amount_out),
    ;
}

} // verus!
