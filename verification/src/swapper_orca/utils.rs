use crate::common::errors::ErrorCode as CommonErrorCode;
use crate::common::pubkey::Pubkey;
use crate::common::token::TokenAccount;
use crate::error::Error;
use crate::common::utils::{AccountMeta, Instruction};
use crate::swapper::swapper_interface::Swap as SwapAccounts;
use crate::swapper_raydium::state::le_bytes;
use anchor_lang::prelude::Pubkey as ChainKey;
use anchor_lang::solana_program::program_error::ProgramError;
use spl_token_swap::instruction::{swap, Swap};
use crate::swapper_orca::error::ErrorCode;
use vstd::prelude::*;

verus! {

/// Address of the program that swaps over an Orca pool:
/// `3Hm9snMqyCdNHXFZ6B3jgwnY1gE86N12WrcPsfniHyjf`.
pub const ID: [u8; 32] = [
    34, 2, 151, 61, 166, 23, 32, 107,
    103, 60, 254, 31, 225, 160, 73, 175,
    6, 228, 224, 111, 246, 245, 198, 201,
    25, 118, 125, 22, 75, 117, 235, 58,
];

/// The address of the program.
pub fn id() -> (r: Pubkey)
    ensures
        r.bytes == ID,
{
    Pubkey { bytes: ID }
}

/// How many accounts of the pool a swap needs.
pub const SWAP_REMAINING_ACCOUNTS_COUNT: usize = 9;

/// The accounts of a swap instruction, in the order the pool program reads
/// them, given the twelve addresses the instruction is made from: the pool
/// program, the token program, the pool, the pool's authority, who signs for
/// the source, the source, the pool's two token accounts, the destination,
/// the pool's mint, the pool's fee account and the host's fee account.
pub open spec fn spec_swap_accounts(keys: Seq<Pubkey>) -> Seq<AccountMeta> {
    seq![
        AccountMeta { pubkey: keys[2], is_signer: false, is_writable: false },
        AccountMeta { pubkey: keys[3], is_signer: false, is_writable: false },
        AccountMeta { pubkey: keys[4], is_signer: true, is_writable: false },
        AccountMeta { pubkey: keys[5], is_signer: false, is_writable: true },
        AccountMeta { pubkey: keys[6], is_signer: false, is_writable: true },
        AccountMeta { pubkey: keys[7], is_signer: false, is_writable: true },
        AccountMeta { pubkey: keys[8], is_signer: false, is_writable: true },
        AccountMeta { pubkey: keys[9], is_signer: false, is_writable: true },
        AccountMeta { pubkey: keys[10], is_signer: false, is_writable: true },
        AccountMeta { pubkey: keys[1], is_signer: false, is_writable: false },
        AccountMeta { pubkey: keys[11], is_signer: false, is_writable: true },
    ]
}

/// The data of a swap instruction: the tag 1, then the amount in and the
/// least amount out, each as eight bytes, least significant first.
pub open spec fn spec_swap_data(amount_in: u64, minimum_amount_out: u64) -> Seq<u8> {
    seq![1u8] + le_bytes(amount_in) + le_bytes(minimum_amount_out)
}

/// Makes a swap instruction with `swap` of `spl_token_swap::instruction`,
/// from the twelve addresses in the order of that function's parameters, the
/// host's fee account given. That function never fails: it lists the
/// accounts as [`spec_swap_accounts`] says and packs the two amounts behind
/// the tag of a swap.
#[verifier::external_body]
fn swap_instruction(keys: &Vec<Pubkey>, amount_in: u64, minimum_amount_out: u64) -> (r: Result<
    Instruction,
    ProgramError,
>)
    requires
        keys.len() == 12,
    ensures
        r is Ok,
        r.unwrap().program_id == keys[0],
        r.unwrap().accounts@ == spec_swap_accounts(keys@),
        r.unwrap().data@ == spec_swap_data(amount_in, minimum_amount_out),
{
    let k: Vec<ChainKey> = keys.iter().map(|k| k.bytes.into()).collect();
    let ix = swap(&k[0], &k[1], &k[2], &k[3], &k[4], &k[5], &k[6], &k[7], &k[8], &k[9], &k[10], Some(&k[11]), Swap { amount_in, minimum_amount_out })?;
    let accounts = ix.accounts.iter().map(|m| AccountMeta { pubkey: m.pubkey.to_bytes().into(), is_signer: m.is_signer, is_writable: m.is_writable }).collect();
    Ok(Instruction { program_id: ix.program_id.to_bytes().into(), accounts, data: ix.data })
}

/// What a swap over the pool has to meet before it is sent: the caller
/// handed in nine accounts of the pool at least, the seventh of them, which
/// takes the host's fee, is a token account, and it belongs to the signer.
pub open spec fn spec_swap_orca_checks(
    accounts: SwapAccounts,
    remaining_accounts: nat,
    pool_host_fee_account: Option<TokenAccount>,
) -> Result<(), Error> {
    if remaining_accounts < SWAP_REMAINING_ACCOUNTS_COUNT {
        Err(Error::SwapperOrca(ErrorCode::NotEnoughRemainingAccounts))
    } else {
        match pool_host_fee_account {
            None => Err(Error::Common(CommonErrorCode::WrongConvertionFromAccountInfoToTokenAccount)),
            Some(account) => if account.owner != accounts.authority {
                Err(Error::SwapperOrca(ErrorCode::InvalidPoolHostFeeAccount))
            } else {
                Ok(())
            },
        }
    }
}

/// The twelve addresses a swap instruction is made from, given the
/// addresses of the pool's accounts that the caller handed in.
pub open spec fn spec_swap_keys(accounts: SwapAccounts, remaining_accounts: Seq<Pubkey>) -> Seq<Pubkey> {
    seq![
        accounts.swap_program,
        accounts.token_program,
        remaining_accounts[0],
        remaining_accounts[1],
        accounts.authority,
        accounts.source_token_account.key,
        remaining_accounts[2],
        remaining_accounts[3],
        accounts.destination_token_account.key,
        remaining_accounts[4],
        remaining_accounts[5],
        remaining_accounts[6],
    ]
}

/// The instruction that a swap over the pool sends, given the addresses of
/// the pool's accounts that the caller handed in, and the seventh of them,
/// which takes the host's fee, where it is a token account.
#[verifier::rlimit(40)]
pub fn swap_orca(
    accounts: &SwapAccounts,
    remaining_accounts: &Vec<Pubkey>,
    pool_host_fee_account: &Option<TokenAccount>,
    amount_in: u64,
    minimum_amount_out: u64,
) -> (r: Result<Instruction, Error>)
    ensures
        match spec_swap_orca_checks(
            *accounts,
            remaining_accounts.len() as nat,
            *pool_host_fee_account,
        ) {
            Err(e) => r == Err::<Instruction, Error>(e),
            Ok(_) => r is Ok && ({
                let instruction = r.unwrap();
                &&& instruction.program_id == accounts.swap_program
                &&& instruction.accounts@ == spec_swap_accounts(
                    spec_swap_keys(*accounts, remaining_accounts@),
                )
                &&& instruction.data@ == spec_swap_data(amount_in, minimum_amount_out)
            }),
        },
{
    if remaining_accounts.len() < SWAP_REMAINING_ACCOUNTS_COUNT {
        return Err(Error::SwapperOrca(ErrorCode::NotEnoughRemainingAccounts));
    }
    match pool_host_fee_account {
        None => {
            return Err(
                Error::Common(CommonErrorCode::WrongConvertionFromAccountInfoToTokenAccount),
            );
        },
        Some(account) => if account.owner != accounts.authority {
            return Err(Error::SwapperOrca(ErrorCode::InvalidPoolHostFeeAccount));
        },
    }
    let mut keys: Vec<Pubkey> = Vec::new();
    keys.push(accounts.swap_program);
    keys.push(accounts.token_program);
    keys.push(remaining_accounts[0]);
    keys.push(remaining_accounts[1]);
    keys.push(accounts.authority);
    keys.push(accounts.source_token_account.key);
    keys.push(remaining_accounts[2]);
    keys.push(remaining_accounts[3]);
    keys.push(accounts.destination_token_account.key);
    keys.push(remaining_accounts[4]);
    keys.push(remaining_accounts[5]);
    keys.push(remaining_accounts[6]);
    assert(keys@ =~= spec_swap_keys(*accounts, remaining_accounts@));
    match swap_instruction(&keys, amount_in, minimum_amount_out) {
        Ok(instruction) => Ok(instruction),
        Err(_) => Err(Error::Program(0)),
    }
}

} // verus!
