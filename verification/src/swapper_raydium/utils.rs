use crate::common::pubkey::Pubkey;
use crate::common::utils::{AccountMeta, Instruction};
use crate::error::Error;
use crate::swapper::swapper_interface::Swap;
use crate::swapper_raydium::error::ErrorCode;
use crate::swapper_raydium::state::{AmmInstruction, SwapInstructionBaseIn};
use vstd::prelude::*;

verus! {

/// Address of the program that swaps over a Raydium pool:
/// `Bbh4JSnawctDsQZDgme2d9S8cH16nQoJSukPmAv8qLPM`.
pub const ID: [u8; 32] = [
    157, 119, 232, 197, 141, 5, 93, 211,
    13, 44, 139, 81, 121, 184, 179, 134,
    124, 42, 126, 174, 97, 14, 48, 148,
    237, 65, 122, 10, 139, 97, 254, 12,
];

/// The address of the program.
pub fn id() -> (r: Pubkey)
    ensures
        r.bytes == ID,
{
    Pubkey { bytes: ID }
}

/// How many accounts of the pool and its market a swap needs.
pub const SWAP_REMAINING_ACCOUNTS_COUNT: usize = 14;

/// The accounts of a swap instruction, in the order the pool program reads
/// them: the token program; the fourteen accounts of the pool and its
/// market, of which the pool's authority, the market's program and the
/// market's signer are only read; the source and the destination; and the
/// owner of the source, who signs.
pub open spec fn spec_swap_accounts(
    spl_token_program: Pubkey,
    pool: Seq<Pubkey>,
    source: Pubkey,
    destination: Pubkey,
    owner: Pubkey,
) -> Seq<AccountMeta> {
    seq![
        AccountMeta { pubkey: spl_token_program, is_signer: false, is_writable: false },
        AccountMeta { pubkey: pool[0], is_signer: false, is_writable: true },
        AccountMeta { pubkey: pool[1], is_signer: false, is_writable: false },
        AccountMeta { pubkey: pool[2], is_signer: false, is_writable: true },
        AccountMeta { pubkey: pool[3], is_signer: false, is_writable: true },
        AccountMeta { pubkey: pool[4], is_signer: false, is_writable: true },
        AccountMeta { pubkey: pool[5], is_signer: false, is_writable: true },
        AccountMeta { pubkey: pool[6], is_signer: false, is_writable: false },
        AccountMeta { pubkey: pool[7], is_signer: false, is_writable: true },
        AccountMeta { pubkey: pool[8], is_signer: false, is_writable: true },
        AccountMeta { pubkey: pool[9], is_signer: false, is_writable: true },
        AccountMeta { pubkey: pool[10], is_signer: false, is_writable: true },
        AccountMeta { pubkey: pool[11], is_signer: false, is_writable: true },
        AccountMeta { pubkey: pool[12], is_signer: false, is_writable: true },
        AccountMeta { pubkey: pool[13], is_signer: false, is_writable: false },
        AccountMeta { pubkey: source, is_signer: false, is_writable: true },
        AccountMeta { pubkey: destination, is_signer: false, is_writable: true },
        AccountMeta { pubkey: owner, is_signer: true, is_writable: true },
    ]
}

/// Makes the instruction that swaps a given amount in.
#[verifier::rlimit(40)]
fn make_swap_base_in_instruction(
    program_id: &Pubkey,
    pool: &Vec<Pubkey>,
    user_source_token_account: &Pubkey,
    user_destination_token_account: &Pubkey,
    user_source_owner: &Pubkey,
    spl_token_program: &Pubkey,
    amount_in: u64,
    minimum_amount_out: u64,
) -> (r: Instruction)
    requires
        pool.len() >= SWAP_REMAINING_ACCOUNTS_COUNT,
    ensures
        r.program_id == *program_id,
        r.accounts@ == spec_swap_accounts(
            *spl_token_program,
            pool@,
            *user_source_token_account,
            *user_destination_token_account,
            *user_source_owner,
        ),
        r.data@ == AmmInstruction::SwapBaseIn(
            SwapInstructionBaseIn { amount_in, minimum_amount_out },
        ).spec_pack(),
{
    let data = AmmInstruction::SwapBaseIn(SwapInstructionBaseIn { amount_in, minimum_amount_out }).pack();
    let mut accounts: Vec<AccountMeta> = Vec::new();
    accounts.push(AccountMeta::new_readonly(*spl_token_program, false));
    accounts.push(AccountMeta::new(pool[0], false));
    accounts.push(AccountMeta::new_readonly(pool[1], false));
    accounts.push(AccountMeta::new(pool[2], false));
    accounts.push(AccountMeta::new(pool[3], false));
    accounts.push(AccountMeta::new(pool[4], false));
    accounts.push(AccountMeta::new(pool[5], false));
    accounts.push(AccountMeta::new_readonly(pool[6], false));
    accounts.push(AccountMeta::new(pool[7], false));
    accounts.push(AccountMeta::new(pool[8], false));
    accounts.push(AccountMeta::new(pool[9], false));
    accounts.push(AccountMeta::new(pool[10], false));
    accounts.push(AccountMeta::new(pool[11], false));
    accounts.push(AccountMeta::new(pool[12], false));
    accounts.push(AccountMeta::new_readonly(pool[13], false));
    accounts.push(AccountMeta::new(*user_source_token_account, false));
    accounts.push(AccountMeta::new(*user_destination_token_account, false));
    accounts.push(AccountMeta::new(*user_source_owner, true));
    assert(accounts@ =~= spec_swap_accounts(
        *spl_token_program,
        pool@,
        *user_source_token_account,
        *user_destination_token_account,
        *user_source_owner,
    ));
    Instruction { program_id: *program_id, accounts, data }
}

/// The instruction that a swap over the pool sends, given the addresses of
/// the pool's accounts that the caller handed in, of which there have to be
/// fourteen at least.
pub fn swap_raydium(
    accounts: &Swap,
    remaining_accounts: &Vec<Pubkey>,
    amount_in: u64,
    minimum_amount_out: u64,
) -> (r: Result<Instruction, Error>)
    ensures
        remaining_accounts.len() < SWAP_REMAINING_ACCOUNTS_COUNT ==> r == Err::<Instruction, Error>(
            Error::SwapperRaydium(ErrorCode::NotEnoughRemainingAccounts),
        ),
        remaining_accounts.len() >= SWAP_REMAINING_ACCOUNTS_COUNT ==> r is Ok && ({
            let instruction = r.unwrap();
            &&& instruction.program_id == accounts.swap_program
            &&& instruction.accounts@ == spec_swap_accounts(
                accounts.token_program,
                remaining_accounts@,
                accounts.source_token_account.key,
                accounts.destination_token_account.key,
                accounts.authority,
            )
            &&& instruction.data@ == AmmInstruction::SwapBaseIn(
                SwapInstructionBaseIn { amount_in, minimum_amount_out },
            ).spec_pack()
        }),
{
    if remaining_accounts.len() < SWAP_REMAINING_ACCOUNTS_COUNT {
        return Err(Error::SwapperRaydium(ErrorCode::NotEnoughRemainingAccounts));
    }
    Ok(
        make_swap_base_in_instruction(
            &accounts.swap_program,
            remaining_accounts,
            &accounts.source_token_account.key,
            &accounts.destination_token_account.key,
            &accounts.authority,
            &accounts.token_program,
            amount_in,
            minimum_amount_out,
        ),
    )
}

} // verus!
