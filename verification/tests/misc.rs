use bento_cauldron::common::constants::{BENTOBOX_SEED_PART, CAULDRON_SEED_PART, DISCRIMINATOR_BYTES};
use bento_cauldron::common::errors::ErrorCode as CommonErrorCode;
use bento_cauldron::bentobox::state::BentoboxRebase;
use bento_cauldron::cauldron::error::ErrorCode as MarketErrorCode;
use bento_cauldron::cauldron::liquidation::{swapper_kind, SwapperKind};
use bento_cauldron::cauldron::state::CauldronRebase;
use bento_cauldron::common::pubkey::{is_program_address, Pubkey};
use bento_cauldron::common::rebase::Rebase;
use bento_cauldron::common::token::{move_tokens, TokenAccount};
use bento_cauldron::common::utils::{
    build_instruction, calculate_end_byte_to_serialize, sighash, AccountMeta,
};
use bento_cauldron::error::{Error, TokenError};
use bento_cauldron::strategy::state::{BaseStrategyInfo, ExecutorInfo, ResultAmount};
use bento_cauldron::strategy_mock::program::base_after_exit;
use bento_cauldron::swapper::swapper_interface::Swap;
use bento_cauldron::swapper_orca::error::ErrorCode as OrcaErrorCode;
use bento_cauldron::swapper_orca::utils::swap_orca;
use bento_cauldron::swapper_raydium::error::ErrorCode as RaydiumErrorCode;
use bento_cauldron::swapper_raydium::state::{AmmInstruction, SwapInstructionBaseIn};
use bento_cauldron::swapper_raydium::utils::swap_raydium;
use std::str::FromStr;

fn mkey(n: u8) -> Pubkey {
    Pubkey { bytes: [n; 32] }
}

#[test]
fn seeds_spell_their_names() {
    assert_eq!(&BENTOBOX_SEED_PART, b"bentobox");
    assert_eq!(&CAULDRON_SEED_PART, b"cauldron");
    assert_eq!(
        &bento_cauldron::bentobox::state::APPROVED_MASTER_CONTRACT_PART,
        b"approvedmastercontractkey"
    );
}

#[test]
fn record_ends() {
    assert_eq!(DISCRIMINATOR_BYTES, 8);
    assert_eq!(calculate_end_byte_to_serialize(BaseStrategyInfo::SIZE, false), 49);
    assert_eq!(calculate_end_byte_to_serialize(49, true), 49);
    assert_eq!(calculate_end_byte_to_serialize(ResultAmount::SIZE, false), 16);
    assert_eq!(calculate_end_byte_to_serialize(ExecutorInfo::SIZE, false), 41);
}

#[test]
fn sighash_is_the_head_of_the_digest() {
    assert_eq!(sighash("global", "initialize"), [175, 175, 109, 31, 13, 152, 155, 237]);
    assert_eq!(sighash("global", "rescue"), [42, 111, 16, 88, 147, 101, 209, 62]);
    let whole = anchor_lang::solana_program::hash::hash(b"state:deposit").to_bytes();
    assert_eq!(sighash("state", "deposit"), whole[..8]);
}

#[test]
fn instruction_data_is_sighash_then_arguments() {
    let metas = vec![AccountMeta::new(mkey(1), true), AccountMeta::new_readonly(mkey(2), false)];
    let args = vec![vec![1u8, 2, 3], vec![], vec![9u8]];
    let ix = build_instruction("global", "rescue", &args, mkey(7), metas.clone());
    assert_eq!(ix.program_id, mkey(7));
    assert_eq!(ix.accounts, metas);
    assert_eq!(ix.data, vec![42, 111, 16, 88, 147, 101, 209, 62, 1, 2, 3, 9]);
    assert!(metas[0].is_writable && metas[0].is_signer);
    assert!(!metas[1].is_writable && !metas[1].is_signer);
    let ix = base_after_exit(metas.clone(), "rescue", &vec![], mkey(7)).unwrap();
    assert_eq!(ix.data, vec![42, 111, 16, 88, 147, 101, 209, 62]);
    assert_eq!(ix.accounts, metas);
}

#[test]
fn program_addresses_are_told_apart() {
    let program = anchor_lang::prelude::Pubkey::new_from_array([5; 32]);
    let (address, _) =
        anchor_lang::prelude::Pubkey::find_program_address(&[b"cauldron", &[8u8; 32]], &program);
    let derived = Pubkey { bytes: address.to_bytes() };
    assert!(is_program_address(&derived, &CAULDRON_SEED_PART, &vec![mkey(8)], &mkey(5)));
    assert!(!is_program_address(&derived, &BENTOBOX_SEED_PART, &vec![mkey(8)], &mkey(5)));
    assert!(!is_program_address(&derived, &CAULDRON_SEED_PART, &vec![mkey(9)], &mkey(5)));
    assert!(!is_program_address(&derived, &CAULDRON_SEED_PART, &vec![mkey(8)], &mkey(6)));
    assert!(!is_program_address(&mkey(8), &CAULDRON_SEED_PART, &vec![mkey(8)], &mkey(5)));
    // too many seeds derive nothing
    let many: Vec<Pubkey> = (0..20).map(mkey).collect();
    assert!(!is_program_address(&derived, &CAULDRON_SEED_PART, &many, &mkey(5)));
}

#[test]
fn keys_compare_by_their_bytes() {
    assert_eq!(mkey(3), Pubkey::new_from_array([3; 32]));
    assert_ne!(mkey(3), mkey(4));
    let mut almost = [3u8; 32];
    almost[31] = 4;
    assert_ne!(mkey(3), Pubkey::new_from_array(almost));
    assert!(Pubkey::default().is_default());
    assert!(!mkey(1).is_default());
    assert_eq!(mkey(3).to_bytes(), [3; 32]);
}

#[test]
fn tokens_move_or_stay() {
    let account = |amount| TokenAccount { key: mkey(1), mint: mkey(2), owner: mkey(3), amount };
    let (mut a, mut b) = (account(10), account(5));
    assert_eq!(move_tokens(&mut a, &mut b, 11), Err(Error::Token(TokenError::InsufficientFunds)));
    assert_eq!((a.amount, b.amount), (10, 5));
    assert_eq!(move_tokens(&mut a, &mut b, 10), Ok(()));
    assert_eq!((a.amount, b.amount), (0, 15));
}

#[test]
fn swap_instruction_is_packed() {
    let swap = AmmInstruction::SwapBaseIn(SwapInstructionBaseIn {
        amount_in: 0x0102_0304_0506_0708,
        minimum_amount_out: 300,
    });
    assert_eq!(
        swap.pack(),
        vec![9, 8, 7, 6, 5, 4, 3, 2, 1, 44, 1, 0, 0, 0, 0, 0, 0]
    );
    let mut expected = vec![9u8];
    expected.extend_from_slice(&u64::MAX.to_le_bytes());
    expected.extend_from_slice(&0u64.to_le_bytes());
    let swap = AmmInstruction::SwapBaseIn(SwapInstructionBaseIn {
        amount_in: u64::MAX,
        minimum_amount_out: 0,
    });
    assert_eq!(swap.pack(), expected);
    assert_eq!(AmmInstruction::Reserved.pack(), Vec::<u8>::new());
    assert_eq!(AmmInstruction::Reserved10.pack(), Vec::<u8>::new());
}

fn swap_accounts() -> Swap {
    let account = |k: u8| TokenAccount { key: mkey(k), mint: mkey(k + 1), owner: mkey(50), amount: 0 };
    Swap {
        source_token_account: account(30),
        destination_token_account: account(40),
        swap_program: mkey(60),
        token_program: mkey(61),
        authority: mkey(50),
    }
}

#[test]
fn raydium_swap_names_its_accounts() {
    let pool: Vec<Pubkey> = (100..114).map(mkey).collect();
    let ix = swap_raydium(&swap_accounts(), &pool, 1_400, 101).unwrap();
    assert_eq!(ix.program_id, mkey(60));
    assert_eq!(ix.accounts.len(), 18);
    assert_eq!(ix.accounts[0], AccountMeta::new_readonly(mkey(61), false));
    for (i, meta) in ix.accounts[1..15].iter().enumerate() {
        assert_eq!(meta.pubkey, mkey(100 + i as u8));
        assert!(!meta.is_signer);
        // the pool's authority, the market's program and the market's signer are only read
        assert_eq!(meta.is_writable, ![1, 6, 13].contains(&i));
    }
    assert_eq!(ix.accounts[15], AccountMeta::new(mkey(30), false));
    assert_eq!(ix.accounts[16], AccountMeta::new(mkey(40), false));
    assert_eq!(ix.accounts[17], AccountMeta::new(mkey(50), true));
    assert_eq!(ix.data, vec![9, 120, 5, 0, 0, 0, 0, 0, 0, 101, 0, 0, 0, 0, 0, 0, 0]);
    assert_eq!(
        swap_raydium(&swap_accounts(), &pool[..13].to_vec(), 1, 1),
        Err(Error::SwapperRaydium(RaydiumErrorCode::NotEnoughRemainingAccounts))
    );
}

#[test]
fn orca_swap_checks_the_host_fee_account() {
    let host = |owner: u8| {
        Some(TokenAccount { key: mkey(106), mint: mkey(2), owner: mkey(owner), amount: 0 })
    };
    let pool: Vec<Pubkey> = (100..109).map(mkey).collect();
    assert!(swap_orca(&swap_accounts(), &pool, &host(50), 1, 1).is_ok());
    assert_eq!(
        swap_orca(&swap_accounts(), &pool[..8].to_vec(), &host(50), 1, 1),
        Err(Error::SwapperOrca(OrcaErrorCode::NotEnoughRemainingAccounts))
    );
    assert_eq!(
        swap_orca(&swap_accounts(), &pool, &None, 1, 1),
        Err(Error::Common(CommonErrorCode::WrongConvertionFromAccountInfoToTokenAccount))
    );
    assert_eq!(
        swap_orca(&swap_accounts(), &pool, &host(51), 1, 1),
        Err(Error::SwapperOrca(OrcaErrorCode::InvalidPoolHostFeeAccount))
    );
    assert_eq!(swap_accounts().checks(), Ok(()));
    let mut other = swap_accounts();
    other.destination_token_account.owner = mkey(1);
    assert_eq!(other.checks(), Err(Error::Common(CommonErrorCode::InvalidTokenAccountOwner)));
}

#[test]
fn orca_swap_names_its_accounts() {
    let host = Some(TokenAccount { key: mkey(106), mint: mkey(2), owner: mkey(50), amount: 0 });
    let pool: Vec<Pubkey> = (100..109).map(mkey).collect();
    let ix = swap_orca(&swap_accounts(), &pool, &host, 1_400, 101).unwrap();
    assert_eq!(ix.program_id, mkey(60));
    let read = |k: u8| AccountMeta::new_readonly(mkey(k), false);
    let write = |k: u8| AccountMeta::new(mkey(k), false);
    assert_eq!(
        ix.accounts,
        vec![
            read(100),
            read(101),
            AccountMeta::new_readonly(mkey(50), true),
            write(30),
            write(102),
            write(103),
            write(40),
            write(104),
            write(105),
            read(61),
            write(106),
        ]
    );
    assert_eq!(ix.data, vec![1, 120, 5, 0, 0, 0, 0, 0, 0, 101, 0, 0, 0, 0, 0, 0, 0]);
    // as the pool's own library makes it
    let chain = |k: u8| anchor_lang::prelude::Pubkey::new_from_array([k; 32]);
    let made = spl_token_swap::instruction::swap(
        &chain(60),
        &chain(61),
        &chain(100),
        &chain(101),
        &chain(50),
        &chain(30),
        &chain(102),
        &chain(103),
        &chain(40),
        &chain(104),
        &chain(105),
        Some(&chain(106)),
        spl_token_swap::instruction::Swap { amount_in: 1_400, minimum_amount_out: 101 },
    )
    .unwrap();
    assert_eq!(ix.data, made.data);
    assert_eq!(ix.accounts.len(), made.accounts.len());
    for (ours, theirs) in ix.accounts.iter().zip(made.accounts.iter()) {
        assert_eq!(ours.pubkey.bytes, theirs.pubkey.to_bytes());
        assert_eq!((ours.is_signer, ours.is_writable), (theirs.is_signer, theirs.is_writable));
    }
}

#[test]
fn stored_ledgers_convert_both_ways() {
    let r = Rebase { base: 3, elastic: 10 };
    assert_eq!(BentoboxRebase::from(r), BentoboxRebase { base: 3, elastic: 10 });
    assert_eq!(Rebase::from(BentoboxRebase { base: 3, elastic: 10 }), r);
    assert_eq!(CauldronRebase::from(r), CauldronRebase { base: 3, elastic: 10 });
    assert_eq!(Rebase::from(CauldronRebase { base: 3, elastic: 10 }), r);
    assert_eq!(Rebase::default(), Rebase { base: 0, elastic: 0 });
    assert_eq!(Rebase::SIZE, 32);
}

#[test]
fn swappers_are_known_by_their_address() {
    let at = |s: &str| Pubkey { bytes: anchor_lang::prelude::Pubkey::from_str(s).unwrap().to_bytes() };
    let orca = at("3Hm9snMqyCdNHXFZ6B3jgwnY1gE86N12WrcPsfniHyjf");
    let raydium = at("Bbh4JSnawctDsQZDgme2d9S8cH16nQoJSukPmAv8qLPM");
    assert_eq!(bento_cauldron::swapper_orca::utils::id(), orca);
    assert_eq!(bento_cauldron::swapper_raydium::utils::id(), raydium);
    assert_eq!(swapper_kind(&orca), Ok(SwapperKind::Orca));
    assert_eq!(swapper_kind(&raydium), Ok(SwapperKind::Raydium));
    assert_eq!(swapper_kind(&mkey(1)), Err(Error::Cauldron(MarketErrorCode::InvalidSwapper)));
}
