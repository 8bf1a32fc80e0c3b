use crate::common::pubkey::Pubkey;
use crate::error::{Error, TokenError};
use vstd::prelude::*;

verus! {

/// What the ledgers read of a token account.
#[derive(Clone, Copy, Debug, PartialEq, Eq)]
pub struct TokenAccount {
    /// The account's own address.
    pub key: Pubkey,
    /// The token it holds.
    pub mint: Pubkey,
    /// Who may move its tokens.
    pub owner: Pubkey,
    /// How many tokens it holds.
    pub amount: u64,
}

/// What the ledgers read of a token's mint.
#[derive(Clone, Copy, Debug, PartialEq, Eq)]
pub struct Mint {
    /// The mint's own address.
    pub key: Pubkey,
    /// Tokens in existence.
    pub supply: u64,
    /// Whether this is the mint of the wrapped native token.
    pub is_native: bool,
}

/// What two token accounts hold after `amount` tokens have moved from the
/// first to the second.
pub open spec fn spec_move_tokens(from: u64, to: u64, amount: u64) -> Result<(u64, u64), Error> {
    if from < amount {
        Err(Error::Token(TokenError::InsufficientFunds))
    } else if to + amount > u64::MAX {
        Err(Error::Token(TokenError::Overflow))
    } else {
        Ok(((from - amount) as u64, (to + amount) as u64))
    }
}

/// The token account with another amount.
pub open spec fn with_amount(account: TokenAccount, amount: u64) -> TokenAccount {
    TokenAccount { amount, ..account }
}

/// Moves `amount` tokens from one token account to another. On an error
/// neither account changes.
pub fn move_tokens(from: &mut TokenAccount, to: &mut TokenAccount, amount: u64) -> (r: Result<
    (),
    Error,
>)
    ensures
        match spec_move_tokens(old(from).amount, old(to).amount, amount) {
            Ok((left, arrived)) => r is Ok && *final(from) == with_amount(*old(from), left)
                && *final(to) == with_amount(*old(to), arrived),
            Err(e) => r == Err::<(), Error>(e) && *final(from) == *old(from) && *final(to) == *old(
                to,
            ),
        },
{
    if from.amount < amount {
        return Err(Error::Token(TokenError::InsufficientFunds));
    }
    let arrived = match to.amount.checked_add(amount) {
        Some(v) => v,
        None => {
            return Err(Error::Token(TokenError::Overflow));
        },
    };
    from.amount = from.amount - amount;
    to.amount = arrived;
    Ok(())
}

} // verus!
