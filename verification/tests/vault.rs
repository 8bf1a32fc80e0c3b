use bento_cauldron::bentobox::admin::{
    claim_authority, create, create_master_contract_approval, create_master_contract_whitelist,
    create_vault, set_master_contract_approval, set_strategy_delay, transfer_authority,
    whitelist_master_contract,
};
use bento_cauldron::bentobox::context::{Conversion, Deposit, FlashLoan, TransferInternal, Withdraw};
use bento_cauldron::bentobox::error::ErrorCode;
use bento_cauldron::bentobox::flash::{flash_loan, settle_flash_loan};
use bento_cauldron::bentobox::instructions::{deposit, to_amount, to_share, transfer, withdraw};
use bento_cauldron::bentobox::state::{
    token_balance_of, AccountData, AccountInfo, AmountShareOut, Balance, BentoBox, Constants,
    MasterContractApproved, MasterContractWhitelisted, Reserve, ReserveFees, StrategyData, Total,
};
use bento_cauldron::bentobox::strategy_manager::create_strategy_data;
use bento_cauldron::bentobox::utils::allowed;
use bento_cauldron::common::errors::ErrorCode as CommonErrorCode;
use bento_cauldron::common::pubkey::Pubkey;
use bento_cauldron::common::rebase::Rebase;
use bento_cauldron::common::token::{Mint, TokenAccount};
use bento_cauldron::error::{Error, TokenError};

fn key(n: u8) -> Pubkey {
    Pubkey { bytes: [n; 32] }
}

const PROGRAM: u8 = 200;
const VAULT_KEY: u8 = 201;
const MINT: u8 = 202;
const VAULT_TOKENS: u8 = 203;
const ALICE: u8 = 1;
const ALICE_TOKENS: u8 = 2;

fn token_account(k: u8, owner: u8, amount: u64) -> TokenAccount {
    TokenAccount { key: key(k), mint: key(MINT), owner: key(owner), amount }
}

fn fresh_deposit(minimum_share_balance: u64, from_amount: u64) -> Deposit {
    Deposit {
        from: token_account(ALICE_TOKENS, ALICE, from_amount),
        bentobox_vault: token_account(VAULT_TOKENS, 210, 0),
        balance: Balance { amount: 0 },
        total_data: create_vault(key(VAULT_TOKENS), key(MINT)),
        authority: key(ALICE),
        bentobox_account: create(key(9), minimum_share_balance, 95),
        bentobox_key: key(VAULT_KEY),
        strategy_data: create_strategy_data(),
        mint: Mint { key: key(MINT), supply: 1_000_000_000, is_native: false },
    }
}

fn withdraw_after(d: &Deposit) -> Withdraw {
    Withdraw {
        bentobox_vault: d.bentobox_vault,
        to: d.from,
        balance: d.balance,
        total_data: d.total_data,
        authority: d.authority,
        vault_authority: d.bentobox_vault.owner,
        bentobox_account: d.bentobox_account,
        bentobox_key: d.bentobox_key,
    }
}

#[test]
fn deposit_withdraw_round_trip() {
    let mut d = fresh_deposit(1000, 5_000_000);
    let out = deposit(&key(PROGRAM), &mut d, &vec![], 1_000_000, 0).unwrap();
    assert_eq!(out, AmountShareOut { amount_out: 1_000_000, share_out: 1_000_000 });
    assert_eq!(d.total_data.amount, Rebase { base: 1_000_000, elastic: 1_000_000 });
    assert_eq!(d.balance.amount, 1_000_000);
    assert_eq!(d.from.amount, 4_000_000);
    assert_eq!(d.bentobox_vault.amount, 1_000_000);

    let mut w = withdraw_after(&d);
    let out = withdraw(&key(PROGRAM), &mut w, &vec![], &key(ALICE), 0, 1_000_000).unwrap();
    assert_eq!(out, AmountShareOut { amount_out: 1_000_000, share_out: 1_000_000 });
    assert_eq!(w.total_data.amount.base, 0);
    assert_eq!(w.total_data.amount.elastic, 0);
    assert_eq!(w.balance.amount, 0);
    assert_eq!(w.to.amount, 5_000_000);
    assert_eq!(w.bentobox_vault.amount, 0);
}

#[test]
fn deposit_below_minimum_moves_nothing() {
    let mut d = fresh_deposit(1000, 5_000_000);
    let before = d;
    let out = deposit(&key(PROGRAM), &mut d, &vec![], 999, 0).unwrap();
    assert_eq!(out, AmountShareOut { amount_out: 0, share_out: 0 });
    assert_eq!(d, before);
    let out = deposit(&key(PROGRAM), &mut d, &vec![], 1000, 0).unwrap();
    assert_eq!(out, AmountShareOut { amount_out: 1000, share_out: 1000 });
}

#[test]
fn deposit_by_share_rounds_amount_up() {
    let mut d = fresh_deposit(0, 5_000_000);
    d.total_data.amount = Rebase { base: 3, elastic: 10 };
    d.bentobox_vault.amount = 10;
    let out = deposit(&key(PROGRAM), &mut d, &vec![], 0, 2).unwrap();
    // 2 * 10 / 3 = 6.67
    assert_eq!(out, AmountShareOut { amount_out: 7, share_out: 2 });
    assert_eq!(d.total_data.amount, Rebase { base: 5, elastic: 17 });
    let out = deposit(&key(PROGRAM), &mut d, &vec![], 10, 0).unwrap();
    // 10 * 5 / 17 = 2.94
    assert_eq!(out, AmountShareOut { amount_out: 10, share_out: 2 });
}

#[test]
fn deposit_checks_come_in_order() {
    let p = key(PROGRAM);
    let mut d = fresh_deposit(0, 100);
    assert_eq!(
        deposit(&p, &mut d, &vec![], 101, 0),
        Err(Error::Bentobox(ErrorCode::DepositAmountTooHigh))
    );
    d.from.mint = key(77);
    assert_eq!(
        deposit(&p, &mut d, &vec![], 100, 0),
        Err(Error::Common(CommonErrorCode::IncompatibleTokenAccounts))
    );
    d.from.mint = key(MINT);
    d.total_data.token_account = key(78);
    assert_eq!(
        deposit(&p, &mut d, &vec![], 100, 0),
        Err(Error::Bentobox(ErrorCode::InvalidTotalTokenAccount))
    );
    d.total_data.token_account = key(VAULT_TOKENS);
    d.mint.supply = 0;
    assert_eq!(deposit(&p, &mut d, &vec![], 100, 0), Err(Error::Bentobox(ErrorCode::BentoBoxNoTokens)));
    d.mint.is_native = true;
    assert!(deposit(&p, &mut d, &vec![], 100, 0).is_ok());
    // shares by a holder's balance that cannot take them
    d.balance.amount = u64::MAX;
    let before = d;
    assert_eq!(
        deposit(&p, &mut d, &vec![], 0, 1),
        Err(Error::Common(CommonErrorCode::WrongIntegerAddition))
    );
    assert_eq!(d, before);
}

#[test]
fn deposit_more_shares_than_the_source_can_pay() {
    let mut d = fresh_deposit(0, 5);
    d.total_data.amount = Rebase { base: 1, elastic: 10 };
    d.bentobox_vault.amount = 10;
    // one share costs ten tokens, the source has five
    assert_eq!(
        deposit(&key(PROGRAM), &mut d, &vec![], 0, 1),
        Err(Error::Token(TokenError::InsufficientFunds))
    );
}

#[test]
fn skim_deposit_claims_only_the_surplus() {
    let p = key(PROGRAM);
    let mut d = fresh_deposit(0, 0);
    d.total_data.amount = Rebase { base: 100, elastic: 100 };
    // the vault's own account is the source; it holds 130, the ledger counts 100
    d.bentobox_vault.amount = 130;
    d.from = d.bentobox_vault;
    d.authority = d.from.owner;
    assert_eq!(
        deposit(&p, &mut d, &vec![], 31, 0),
        Err(Error::Bentobox(ErrorCode::DepositSkimTooMuch))
    );
    let out = deposit(&p, &mut d, &vec![], 30, 0).unwrap();
    assert_eq!(out, AmountShareOut { amount_out: 30, share_out: 30 });
    assert_eq!(d.total_data.amount, Rebase { base: 130, elastic: 130 });
    assert_eq!(d.bentobox_vault.amount, 130);
    // what the strategy is believed to hold counts as the vault's
    d.strategy_data.balance = 5;
    assert!(deposit(&p, &mut d, &vec![], 5, 0).is_ok());
    // a ledger that counts more than is there refuses every deposit
    d.total_data.amount.elastic = 1000;
    assert_eq!(
        deposit(&p, &mut d, &vec![], 0, 1),
        Err(Error::Common(CommonErrorCode::WrongIntegerSubtraction))
    );
}

#[test]
fn withdraw_respects_the_floor() {
    let p = key(PROGRAM);
    let mut d = fresh_deposit(1000, 5_000_000);
    deposit(&p, &mut d, &vec![], 10_000, 0).unwrap();
    let mut w = withdraw_after(&d);
    // leaving 999 shares is refused
    let before = w;
    assert_eq!(
        withdraw(&p, &mut w, &vec![], &key(ALICE), 0, 9_001),
        Err(Error::Bentobox(ErrorCode::WithdrawCannotEmpty))
    );
    assert_eq!(w, before);
    // leaving exactly the minimum is fine
    assert!(withdraw(&p, &mut w, &vec![], &key(ALICE), 0, 9_000).is_ok());
    assert_eq!(w.total_data.amount.base, 1000);
    // leaving one share is refused, taking the last thousand is fine
    assert_eq!(
        withdraw(&p, &mut w, &vec![], &key(ALICE), 0, 999),
        Err(Error::Bentobox(ErrorCode::WithdrawCannotEmpty))
    );
    assert!(withdraw(&p, &mut w, &vec![], &key(ALICE), 0, 1000).is_ok());
    assert_eq!(w.total_data.amount.base, 0);
}

#[test]
fn withdraw_by_amount_rounds_shares_up() {
    let p = key(PROGRAM);
    let mut d = fresh_deposit(0, 0);
    d.total_data.amount = Rebase { base: 3, elastic: 10 };
    d.bentobox_vault.amount = 10;
    d.balance.amount = 3;
    let mut w = withdraw_after(&d);
    let out = withdraw(&p, &mut w, &vec![], &key(ALICE), 7, 0).unwrap();
    // 7 * 3 / 10 = 2.1
    assert_eq!(out, AmountShareOut { amount_out: 7, share_out: 3 });
    assert_eq!(w.total_data.amount, Rebase { base: 0, elastic: 3 });
}

#[test]
fn withdraw_checks_and_errors() {
    let p = key(PROGRAM);
    let mut d = fresh_deposit(0, 1000);
    deposit(&p, &mut d, &vec![], 1000, 0).unwrap();
    let mut w = withdraw_after(&d);
    assert_eq!(
        withdraw(&p, &mut w, &vec![], &key(ALICE), 1001, 0),
        Err(Error::Bentobox(ErrorCode::WithdrawAmountToHigh))
    );
    w.vault_authority = key(99);
    assert_eq!(
        withdraw(&p, &mut w, &vec![], &key(ALICE), 1, 0),
        Err(Error::Bentobox(ErrorCode::WithdrawTokenAccountInvalidAuthority))
    );
    w.vault_authority = w.bentobox_vault.owner;
    w.to.mint = key(98);
    assert_eq!(
        withdraw(&p, &mut w, &vec![], &key(ALICE), 1, 0),
        Err(Error::Common(CommonErrorCode::IncompatibleTokenAccounts))
    );
    w.to.mint = key(MINT);
    // a holder with fewer shares than asked
    w.balance.amount = 10;
    assert_eq!(
        withdraw(&p, &mut w, &vec![], &key(ALICE), 0, 11),
        Err(Error::Common(CommonErrorCode::WrongIntegerSubtraction))
    );
    // more shares than the ledger has
    assert_eq!(
        withdraw(&p, &mut w, &vec![], &key(ALICE), 0, 1001),
        Err(Error::Common(CommonErrorCode::WrongIntegerSubtraction))
    );
    // someone else without approval
    assert_eq!(
        withdraw(&p, &mut w, &vec![], &key(50), 0, 1),
        Err(Error::Bentobox(ErrorCode::AllowedRemainingAccountsAreEmpty))
    );
}

#[test]
fn transfer_moves_shares_between_holders() {
    let p = key(PROGRAM);
    let mut t = TransferInternal {
        balance_from: Balance { amount: 70 },
        balance_to: Balance { amount: 5 },
        authority: key(ALICE),
        bentobox_key: key(VAULT_KEY),
    };
    transfer(&p, &mut t, &vec![], &key(ALICE), 30).unwrap();
    assert_eq!(t.balance_from.amount, 40);
    assert_eq!(t.balance_to.amount, 35);
    assert_eq!(
        transfer(&p, &mut t, &vec![], &key(ALICE), 41),
        Err(Error::Bentobox(ErrorCode::TransferAmountToHigh))
    );
    t.balance_to.amount = u64::MAX;
    assert_eq!(
        transfer(&p, &mut t, &vec![], &key(ALICE), 1),
        Err(Error::Common(CommonErrorCode::WrongIntegerAddition))
    );
    assert_eq!(t.balance_from.amount, 40);
}

#[test]
fn shares_are_conserved_over_a_sequence() {
    let p = key(PROGRAM);
    // two holders on one asset
    let mut d = fresh_deposit(100, 1_000_000);
    let mut alice = Balance { amount: 0 };
    let mut bob = Balance { amount: 0 };
    let check = |total: &Total, a: &Balance, b: &Balance| {
        assert_eq!(total.amount.base, (a.amount + b.amount) as u128);
    };
    d.balance = alice;
    deposit(&p, &mut d, &vec![], 5_000, 0).unwrap();
    alice = d.balance;
    check(&d.total_data, &alice, &bob);
    // profit makes shares worth more
    d.total_data.amount.elastic += 2_500;
    d.bentobox_vault.amount += 2_500;
    d.balance = bob;
    deposit(&p, &mut d, &vec![], 3_000, 0).unwrap();
    bob = d.balance;
    assert_eq!(bob.amount, 2_000);
    check(&d.total_data, &alice, &bob);
    let mut t = TransferInternal {
        balance_from: alice,
        balance_to: bob,
        authority: key(ALICE),
        bentobox_key: key(VAULT_KEY),
    };
    transfer(&p, &mut t, &vec![], &key(ALICE), 1_234).unwrap();
    alice = t.balance_from;
    bob = t.balance_to;
    check(&d.total_data, &alice, &bob);
    let mut w = withdraw_after(&d);
    w.balance = bob;
    withdraw(&p, &mut w, &vec![], &key(ALICE), 777, 0).unwrap();
    bob = w.balance;
    check(&w.total_data, &alice, &bob);
    w.balance = alice;
    let left = alice.amount;
    withdraw(&p, &mut w, &vec![], &key(ALICE), 0, left).unwrap();
    alice = w.balance;
    check(&w.total_data, &alice, &bob);
}

#[test]
fn conversions_name_the_asset() {
    let c = Conversion {
        mint: key(MINT),
        total_data: Total {
            mint_address: key(MINT),
            amount: Rebase { base: 100, elastic: 150 },
            token_account: key(VAULT_TOKENS),
        },
    };
    assert_eq!(to_share(&c, 30, false), Ok(20));
    assert_eq!(to_share(&c, 31, true), Ok(21));
    assert_eq!(to_amount(&c, 20, false), Ok(30));
    assert_eq!(to_amount(&c, 21, true), Ok(32));
    let wrong = Conversion { mint: key(1), ..c };
    assert_eq!(to_share(&wrong, 30, false), Err(Error::Bentobox(ErrorCode::BentoBoxWrongToken)));
    assert_eq!(to_amount(&wrong, 30, false), Err(Error::Bentobox(ErrorCode::BentoBoxWrongToken)));
}

#[test]
fn token_balance_counts_the_strategy() {
    let vault = token_account(VAULT_TOKENS, 210, 40);
    let mut data = create_strategy_data();
    data.balance = 2;
    assert_eq!(token_balance_of(&vault, &data), Ok(42));
    data.balance = u64::MAX;
    assert_eq!(token_balance_of(&vault, &data), Err(CommonErrorCode::WrongIntegerAddition));
}

fn derived(tag: &[u8], keys: &[Pubkey], program: &Pubkey) -> Pubkey {
    let mut seeds: Vec<&[u8]> = vec![tag];
    for k in keys {
        seeds.push(&k.bytes);
    }
    let id = anchor_lang::prelude::Pubkey::new_from_array(program.bytes);
    let (address, _) = anchor_lang::prelude::Pubkey::find_program_address(&seeds, &id);
    Pubkey { bytes: address.to_bytes() }
}

#[test]
fn allowed_for_the_holder_and_the_vault_authority() {
    let p = key(PROGRAM);
    let vault = key(VAULT_KEY);
    assert_eq!(allowed(&key(ALICE), &key(ALICE), &vault, &vec![], &p), Ok(()));
    let vault_authority = derived(b"bentobox", &[vault], &p);
    assert_ne!(vault_authority, vault);
    assert_eq!(allowed(&key(ALICE), &vault_authority, &vault, &vec![], &p), Ok(()));
    // the address derived for another vault is nobody
    let other = derived(b"bentobox", &[key(7)], &p);
    assert_eq!(
        allowed(&key(ALICE), &other, &vault, &vec![], &p),
        Err(Error::Bentobox(ErrorCode::AllowedRemainingAccountsAreEmpty))
    );
}

fn master_contract_setup() -> (Pubkey, Pubkey, Pubkey, Vec<AccountInfo>) {
    let p = key(PROGRAM);
    let vault = key(VAULT_KEY);
    let market_program = key(120);
    let market = key(121);
    let market_authority = derived(b"cauldron", &[market], &market_program);
    let whitelisted_key = key(122);
    let approved_key = derived(b"approvedmastercontractkey", &[vault, market, key(ALICE)], &p);
    let accounts = vec![
        AccountInfo {
            key: whitelisted_key,
            owner: p,
            data: AccountData::MasterContractWhitelisted(MasterContractWhitelisted {
                master_contract_account: market,
                whitelisted: true,
            }),
        },
        AccountInfo {
            key: approved_key,
            owner: p,
            data: AccountData::MasterContractApproved(MasterContractApproved {
                master_contract_whitelisted: whitelisted_key,
                approved: true,
            }),
        },
        AccountInfo { key: market, owner: market_program, data: AccountData::Other },
    ];
    (p, vault, market_authority, accounts)
}

#[test]
fn allowed_for_an_approved_master_contract() {
    let (p, vault, market_authority, accounts) = master_contract_setup();
    assert_eq!(allowed(&key(ALICE), &market_authority, &vault, &accounts, &p), Ok(()));
}

#[test]
fn allowed_refuses_what_is_not_approved() {
    let (p, vault, market_authority, accounts) = master_contract_setup();
    let alice = key(ALICE);
    let refuse = |accounts: &Vec<AccountInfo>, authority: &Pubkey, code: ErrorCode| {
        assert_eq!(allowed(&alice, authority, &vault, accounts, &p), Err(Error::Bentobox(code)));
    };
    refuse(&accounts[..2].to_vec(), &market_authority, ErrorCode::InvalidRemainingAccountsCount);
    let mut a = accounts.clone();
    a[0].owner = key(1);
    refuse(&a, &market_authority, ErrorCode::MasterContractWhitelistedAccountInvalid);
    let mut a = accounts.clone();
    a[0].data = AccountData::Other;
    refuse(&a, &market_authority, ErrorCode::MasterContractWhitelistedAccountInvalid);
    let mut a = accounts.clone();
    a[1].data = a[0].data;
    refuse(&a, &market_authority, ErrorCode::MasterContractApprovedAccountInvalid);
    let mut a = accounts.clone();
    a[2].key = key(3);
    refuse(&a, &market_authority, ErrorCode::InvalidCauldronAccount);
    // someone who is not the market's authority
    refuse(&accounts, &key(4), ErrorCode::CauldronSignMismatch);
    let mut a = accounts.clone();
    a[2].owner = key(5);
    refuse(&a, &market_authority, ErrorCode::CauldronSignMismatch);
    // approval switched off, at another address, or of another whitelist record
    let approval = |approved: bool, whitelisted: Pubkey| {
        AccountData::MasterContractApproved(MasterContractApproved {
            master_contract_whitelisted: whitelisted,
            approved,
        })
    };
    let mut a = accounts.clone();
    a[1].data = approval(false, a[0].key);
    refuse(&a, &market_authority, ErrorCode::MasterContractNotApproved);
    let mut a = accounts.clone();
    a[1].data = approval(true, key(6));
    refuse(&a, &market_authority, ErrorCode::MasterContractNotApproved);
    let mut a = accounts.clone();
    a[1].key = key(7);
    refuse(&a, &market_authority, ErrorCode::MasterContractNotApproved);
    // the approval of one holder does not serve another
    assert_eq!(
        allowed(&key(33), &market_authority, &vault, &accounts, &p),
        Err(Error::Bentobox(ErrorCode::MasterContractNotApproved))
    );
}

#[test]
fn master_contract_withdraws_for_a_holder() {
    let (p, vault, market_authority, accounts) = master_contract_setup();
    let mut d = fresh_deposit(0, 1000);
    d.bentobox_key = vault;
    deposit(&p, &mut d, &vec![], 1000, 0).unwrap();
    let mut w = withdraw_after(&d);
    w.authority = market_authority;
    assert!(withdraw(&p, &mut w, &accounts, &key(ALICE), 0, 400).is_ok());
    assert_eq!(w.balance.amount, 600);
}

fn flash_accounts() -> FlashLoan {
    FlashLoan {
        source_liquidity: token_account(30, 31, 1_000_000),
        destination_liquidity: token_account(32, 33, 0),
        flash_loan_fee_receiver: token_account(34, 35, 0),
        host_fee_receiver: token_account(VAULT_TOKENS, 210, 10_600),
        total_data: Total {
            mint_address: key(MINT),
            amount: Rebase { base: 10_000, elastic: 10_000 },
            token_account: key(VAULT_TOKENS),
        },
        strategy_data: create_strategy_data(),
    }
}

fn reserve() -> Reserve {
    Reserve {
        available_amount: 500_000,
        fees: ReserveFees {
            borrow_fee_wad: 0,
            flash_loan_fee_wad: 3_000_000_000_000_000,
            host_fee_percentage: 20,
        },
    }
}

#[test]
fn flash_loan_fee_follows_the_fee_schedule() {
    // 0.3% of a million, a fifth of it to the host
    assert_eq!(FlashLoan::flash_loan_fee(&reserve(), 1_000_000), Ok((3_000, 600)));
    // the largest amount stands for all the reserve has
    assert_eq!(FlashLoan::flash_loan_fee(&reserve(), u64::MAX), Ok((1_500, 300)));
    assert_eq!(FlashLoan::flash_loan_fee(&reserve(), 0), Ok((0, 0)));
    let free = Reserve {
        fees: ReserveFees { flash_loan_fee_wad: 0, ..reserve().fees },
        ..reserve()
    };
    assert_eq!(FlashLoan::flash_loan_fee(&free, 1_000_000), Ok((0, 0)));
    // an amount that its own fee would eat up
    assert_eq!(FlashLoan::flash_loan_fee(&reserve(), 1), Err(Error::FlashLoanFee));
}

#[test]
fn flash_loan_books_the_host_fee() {
    let mut f = flash_accounts();
    flash_loan(&mut f, &reserve(), 1_000_000).unwrap();
    assert_eq!(f.total_data.amount, Rebase { base: 10_000, elastic: 10_600 });
    // a receiver that left the vault short fails the loan
    let mut f = flash_accounts();
    f.host_fee_receiver.amount = 10_599;
    let before = f;
    assert_eq!(
        flash_loan(&mut f, &reserve(), 1_000_000),
        Err(Error::Bentobox(ErrorCode::BentoBoxWrongAmount))
    );
    assert_eq!(f, before);
    // what the strategy holds counts
    f.strategy_data.balance = 1;
    assert!(flash_loan(&mut f, &reserve(), 1_000_000).is_ok());
}

#[test]
fn flash_loan_checks() {
    let mut f = flash_accounts();
    assert_eq!(
        flash_loan(&mut f, &reserve(), 1_000_001),
        Err(Error::Bentobox(ErrorCode::InsufficientSourceLiquidity))
    );
    f.flash_loan_fee_receiver.mint = key(1);
    assert_eq!(
        flash_loan(&mut f, &reserve(), 1),
        Err(Error::Common(CommonErrorCode::IncompatibleTokenAccounts))
    );
    let mut f = flash_accounts();
    f.total_data.token_account = key(1);
    assert_eq!(f.checks(1), Err(Error::Bentobox(ErrorCode::InvalidTotalTokenAccount)));
    let mut f = flash_accounts();
    f.total_data.amount.elastic = u128::MAX;
    assert_eq!(
        settle_flash_loan(&mut f, 1),
        Err(Error::Common(CommonErrorCode::WrongIntegerAddition))
    );
}

#[test]
fn authority_is_handed_over() {
    let mut b = create(key(1), 1000, 95);
    assert_eq!(
        b,
        BentoBox {
            authority: key(1),
            pending_authority: None,
            strategy_delay: 0,
            constants: Constants { minimum_share_balance: 1000, max_target_percentage: 95 },
        }
    );
    set_strategy_delay(&mut b, 60);
    assert_eq!(b.strategy_delay, 60);
    assert_eq!(
        transfer_authority(&mut b, key(1), true, false),
        Err(Error::Bentobox(ErrorCode::SameAuthority))
    );
    assert_eq!(
        transfer_authority(&mut b, Pubkey::default(), true, false),
        Err(Error::Bentobox(ErrorCode::EmptyAuthorityAddress))
    );
    assert_eq!(
        claim_authority(&mut b, &key(2)),
        Err(Error::Bentobox(ErrorCode::EmptyPendingAuthorityAddress))
    );
    transfer_authority(&mut b, key(2), false, false).unwrap();
    assert_eq!(b.authority, key(1));
    assert_eq!(b.pending_authority, Some(key(2)));
    assert_eq!(
        claim_authority(&mut b, &key(3)),
        Err(Error::Bentobox(ErrorCode::InvalidClaimAuthority))
    );
    claim_authority(&mut b, &key(2)).unwrap();
    assert_eq!((b.authority, b.pending_authority), (key(2), None));
    transfer_authority(&mut b, key(4), false, false).unwrap();
    transfer_authority(&mut b, key(5), true, false).unwrap();
    assert_eq!((b.authority, b.pending_authority), (key(5), None));
    transfer_authority(&mut b, Pubkey::default(), true, true).unwrap();
    assert!(b.authority.is_default());
}

#[test]
fn master_contract_records() {
    let market = AccountInfo { key: key(1), owner: key(2), data: AccountData::Other };
    assert_eq!(
        create_master_contract_whitelist(&market, &key(3), true),
        Err(Error::Bentobox(ErrorCode::MasterContractAccountOwnerDoesNotMatchProgram))
    );
    let mut w = create_master_contract_whitelist(&market, &key(2), false).unwrap();
    assert_eq!(w, MasterContractWhitelisted { master_contract_account: key(1), whitelisted: false });
    let w_account = AccountInfo {
        key: key(4),
        owner: key(5),
        data: AccountData::MasterContractWhitelisted(w),
    };
    let mut a = MasterContractApproved { master_contract_whitelisted: key(0), approved: false };
    assert_eq!(
        create_master_contract_approval(&mut a, &w_account, &w, true),
        Err(Error::Bentobox(ErrorCode::MasterContractNotWhitelisted))
    );
    whitelist_master_contract(&mut w, true);
    create_master_contract_approval(&mut a, &w_account, &w, true).unwrap();
    assert_eq!(a, MasterContractApproved { master_contract_whitelisted: key(4), approved: true });
    set_master_contract_approval(&mut a, &w, false).unwrap();
    assert!(!a.approved);
    whitelist_master_contract(&mut w, false);
    assert_eq!(
        set_master_contract_approval(&mut a, &w, true),
        Err(Error::Bentobox(ErrorCode::MasterContractNotWhitelisted))
    );
}

#[test]
fn strategy_data_starts_empty() {
    assert_eq!(
        create_strategy_data(),
        StrategyData {
            strategy_start_date: 0,
            target_percentage: 0,
            balance: 0,
            pending_strategy: Pubkey::default(),
            active_strategy: Pubkey::default(),
        }
    );
}

#[test]
fn emptying_the_pool_succeeds_whatever_the_floor() {
    let p = key(PROGRAM);
    for (base, elastic) in [(5u64, 0u64), (5, 12), (1, 1), (999, 3), (1_000, 1_000_000)] {
        let mut d = fresh_deposit(1_000_000, 0);
        d.total_data.amount = Rebase { base: base as u128, elastic: elastic as u128 };
        d.bentobox_vault.amount = elastic;
        d.balance.amount = base;
        let mut w = withdraw_after(&d);
        let out = withdraw(&p, &mut w, &vec![], &key(ALICE), 0, base).unwrap();
        assert_eq!(out, AmountShareOut { amount_out: elastic, share_out: base });
        assert_eq!(w.total_data.amount, Rebase { base: 0, elastic: 0 });
        assert_eq!(w.balance.amount, 0);
        assert_eq!(w.to.amount, elastic);
    }
}

#[test]
fn deposit_into_a_ledger_with_amount_but_no_shares() {
    // fees were booked before anyone held a share: an amount buys no shares there
    let mut d = fresh_deposit(0, 100);
    d.total_data.amount = Rebase { base: 0, elastic: 10 };
    d.bentobox_vault.amount = 10;
    let out = deposit(&key(PROGRAM), &mut d, &vec![], 7, 0).unwrap();
    assert_eq!(out, AmountShareOut { amount_out: 7, share_out: 0 });
    assert_eq!(d.total_data.amount, Rebase { base: 0, elastic: 17 });
    // shares asked for by number cost one to one
    let out = deposit(&key(PROGRAM), &mut d, &vec![], 0, 4).unwrap();
    assert_eq!(out, AmountShareOut { amount_out: 4, share_out: 4 });
}

/// The fees as the fee schedule works them out, in plain numbers.
fn fees_by_hand(fee_wad: u64, percent: u8, amount: u64) -> Option<(u64, u64)> {
    let wad: u128 = 1_000_000_000_000_000_000;
    if fee_wad == 0 || amount == 0 {
        return Some((0, 0));
    }
    let least = if percent > 0 { 2 * wad } else { wad };
    let fee = (amount as u128 * fee_wad as u128).max(least);
    if fee >= amount as u128 * wad {
        return None;
    }
    // fee * percent / 100 without leaving 128 bits
    let part = fee / 100 * percent as u128 + fee % 100 * percent as u128 / 100;
    let host = if percent == 0 { 0 } else { ((part + wad / 2) / wad).max(1) };
    if host > u64::MAX as u128 {
        return None;
    }
    Some((((fee + wad / 2) / wad) as u64, host as u64))
}

#[test]
fn flash_loan_fee_agrees_with_plain_numbers() {
    let rates = [0u64, 1, 999, 500_000_000_000_000, 3_000_000_000_000_000, 499_999_999_999_999_999,
        500_000_000_000_000_000, 999_999_999_999_999_999, 1_000_000_000_000_000_000, u64::MAX];
    let amounts = [0u64, 1, 2, 3, 4, 10, 99, 100, 101, 333, 1_000, 1_000_000, 123_456_789,
        u64::MAX / 255, u64::MAX / 3, u64::MAX / 2, u64::MAX - 1];
    for rate in rates {
        for percent in [0u8, 1, 20, 33, 50, 99, 100, 101, 200, 255] {
            for amount in amounts {
                let r = Reserve {
                    available_amount: 0,
                    fees: ReserveFees {
                        borrow_fee_wad: 7,
                        flash_loan_fee_wad: rate,
                        host_fee_percentage: percent,
                    },
                };
                let expected = fees_by_hand(rate, percent, amount).ok_or(Error::FlashLoanFee);
                assert_eq!(FlashLoan::flash_loan_fee(&r, amount), expected, "{rate} {percent} {amount}");
            }
        }
    }
}
