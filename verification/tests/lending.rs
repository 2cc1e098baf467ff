use cash::accounts::AccountError;
use cash::address::{find_amm_address, Address};
use cash::instructions::create_amm::{create_amm, CreateAmm};
use cash::instructions::create_pool_1::{create_pool_1, CreatePool1};
use cash::instructions::lend::{lend, lend_expecting, Lend, LendError};
use cash::instructions::redeem::{redeem, redeem_expecting, Redeem, RedeemError};
use cash::ledger::Ledger;
use cash::state::{Account, TokenAccount};
use cash::token::TokenError;

fn key(n: u8) -> Address {
    Address { bytes: [n; 32] }
}

const MINT_A: u8 = 1;
const AMM_ID: u8 = 2;
const ADMIN: u8 = 3;
const LENDER: u8 = 4;
const OTHER: u8 = 5;
const ISSUER: u8 = 9;

struct World {
    ledger: Ledger,
    amm: Address,
    pool: CreatePool1,
    accounts: Lend,
}

fn world(funds: u64) -> World {
    let mut ledger = Ledger::new();
    ledger.create_mint(&key(MINT_A), &key(ISSUER), &key(ISSUER), 6).unwrap();
    let amm = find_amm_address(&key(AMM_ID)).unwrap();
    create_amm(&mut ledger, &CreateAmm { amm, admin: key(ADMIN) }, key(AMM_ID)).unwrap();
    let pool = CreatePool1::derive(&amm, &key(MINT_A), &key(ADMIN)).unwrap();
    create_pool_1(&mut ledger, &pool).unwrap();
    let accounts = Lend::derive(&amm, &key(MINT_A), &key(LENDER)).unwrap();
    ledger.open_account(&accounts.lender_token_a, &key(MINT_A), &key(LENDER)).unwrap();
    ledger.mint_to(&key(MINT_A), &accounts.lender_token_a, &key(ISSUER), funds).unwrap();
    World { ledger, amm, pool, accounts }
}

fn addresses(accounts: &Lend) -> Vec<Address> {
    vec![
        accounts.pool,
        accounts.pool_authority,
        accounts.pool_account_a,
        accounts.lending_receipt_token_mint,
        accounts.cash_token_mint,
        accounts.lender,
        accounts.lender_token_a,
        accounts.lender_authority,
        accounts.lender_lend_receipt_token,
        accounts.lender_cash_token,
        key(MINT_A),
        key(50),
    ]
}

fn snapshot(ledger: &Ledger, accounts: &Lend) -> Vec<Option<Account>> {
    addresses(accounts).iter().map(|address| ledger.get(address)).collect()
}

fn balance(ledger: &Ledger, address: &Address) -> u64 {
    match ledger.token(address) {
        Some(token) => token.amount,
        None => 0,
    }
}

fn supply(ledger: &Ledger, address: &Address) -> u64 {
    ledger.mint(address).unwrap().supply
}

fn lend_and_expect(funds: u64, amount: u64, cash: u64) {
    let World { mut ledger, accounts, .. } = world(funds);
    assert_eq!(lend(&mut ledger, &accounts, amount), Ok(()));
    assert_eq!(balance(&ledger, &accounts.lender_lend_receipt_token), amount);
    assert_eq!(balance(&ledger, &accounts.lender_cash_token), cash);
    assert_eq!(balance(&ledger, &accounts.pool_account_a), amount);
    assert_eq!(balance(&ledger, &accounts.lender_token_a), funds - amount);
    assert_eq!(supply(&ledger, &accounts.lending_receipt_token_mint), amount);
    assert_eq!(supply(&ledger, &accounts.cash_token_mint), cash);
    assert_eq!(supply(&ledger, &key(MINT_A)), funds);
}

#[test]
fn derived_accounts_agree_between_operations() {
    let World { amm, pool, accounts, .. } = world(0);
    assert_eq!(accounts.pool, pool.pool);
    assert_eq!(accounts.pool_authority, pool.pool_authority);
    assert_eq!(accounts.pool_account_a, pool.pool_account_a);
    assert_eq!(accounts.lending_receipt_token_mint, pool.lending_receipt_token_mint);
    assert_eq!(accounts.cash_token_mint, pool.cash_token_mint);
    assert_eq!(accounts.lender, key(LENDER));
    let back = Redeem::derive(&amm, &key(MINT_A), &key(LENDER)).unwrap();
    assert_eq!(back, Redeem::of(accounts, key(MINT_A)));
    assert_eq!(back.accounts(), accounts);
    assert_eq!(back.mint_a, key(MINT_A));
    assert!(accounts.same(&back.accounts()));
    assert!(back.same(&Redeem::of(accounts, key(MINT_A))));
    assert!(!back.same(&Redeem::of(accounts, key(50))));
}

#[test]
fn pool_authority_and_lender_authority_differ() {
    let World { amm, accounts, .. } = world(0);
    assert_ne!(accounts.pool_authority, accounts.lender_authority);
    assert_ne!(accounts.lender, accounts.lender_authority);
    assert_ne!(accounts.lender, accounts.pool_authority);
    assert!(accounts.is_separate(&key(MINT_A)));
    let other = Lend::derive(&amm, &key(MINT_A), &key(OTHER)).unwrap();
    assert_ne!(other.lender_authority, accounts.lender_authority);
    assert_ne!(other.lender_lend_receipt_token, accounts.lender_lend_receipt_token);
    assert_eq!(other.pool_authority, accounts.pool_authority);
    assert_eq!(other.pool_account_a, accounts.pool_account_a);
}

#[test]
fn lend_1200_issues_1200_receipts_and_1000_cash() {
    lend_and_expect(5_000, 1_200, 1_000);
}

#[test]
fn lend_119_issues_99_cash() {
    lend_and_expect(5_000, 119, 99);
}

#[test]
fn lend_120_issues_100_cash() {
    lend_and_expect(5_000, 120, 100);
}

#[test]
fn lend_1_issues_no_cash() {
    lend_and_expect(5_000, 1, 0);
}

#[test]
fn lend_all_that_is_held() {
    lend_and_expect(600, 600, 500);
}

#[test]
fn lend_the_largest_amount() {
    lend_and_expect(u64::MAX, u64::MAX, 15_372_286_728_091_293_012);
}

#[test]
fn lend_nothing_opens_and_locks_the_balances() {
    let World { mut ledger, accounts, .. } = world(5_000);
    assert_eq!(lend(&mut ledger, &accounts, 0), Ok(()));
    assert_eq!(
        ledger.token(&accounts.lender_cash_token),
        Some(TokenAccount {
            mint: accounts.cash_token_mint,
            owner: key(LENDER),
            amount: 0,
            locked: true
        })
    );
    assert_eq!(balance(&ledger, &accounts.lender_token_a), 5_000);
    assert_eq!(balance(&ledger, &accounts.pool_account_a), 0);
}

#[test]
fn lend_puts_the_receipts_under_the_lender_authority_and_locks() {
    let World { mut ledger, accounts, .. } = world(5_000);
    assert_eq!(ledger.get(&accounts.lender_lend_receipt_token), None);
    assert_eq!(ledger.get(&accounts.lender_cash_token), None);
    lend(&mut ledger, &accounts, 240).unwrap();
    assert_eq!(
        ledger.token(&accounts.lender_lend_receipt_token),
        Some(TokenAccount {
            mint: accounts.lending_receipt_token_mint,
            owner: accounts.lender_authority,
            amount: 240,
            locked: true
        })
    );
    assert_eq!(
        ledger.token(&accounts.lender_cash_token),
        Some(TokenAccount {
            mint: accounts.cash_token_mint,
            owner: key(LENDER),
            amount: 200,
            locked: true
        })
    );
    assert!(!ledger.token(&accounts.lender_token_a).unwrap().locked);
    assert!(!ledger.token(&accounts.pool_account_a).unwrap().locked);
}

#[test]
fn lend_twice_truncates_each_time() {
    let World { mut ledger, accounts, .. } = world(5_000);
    lend(&mut ledger, &accounts, 119).unwrap();
    lend(&mut ledger, &accounts, 119).unwrap();
    assert_eq!(balance(&ledger, &accounts.lender_lend_receipt_token), 238);
    assert_eq!(balance(&ledger, &accounts.lender_cash_token), 198);
    assert_eq!(balance(&ledger, &accounts.pool_account_a), 238);
    assert_eq!(supply(&ledger, &accounts.cash_token_mint), 198);
}

#[test]
fn two_lenders_have_separate_slots() {
    let World { mut ledger, amm, accounts, .. } = world(5_000);
    let other = Lend::derive(&amm, &key(MINT_A), &key(OTHER)).unwrap();
    ledger.open_account(&other.lender_token_a, &key(MINT_A), &key(OTHER)).unwrap();
    ledger.mint_to(&key(MINT_A), &other.lender_token_a, &key(ISSUER), 700).unwrap();
    lend(&mut ledger, &accounts, 1_200).unwrap();
    lend(&mut ledger, &other, 600).unwrap();
    assert_eq!(balance(&ledger, &accounts.lender_lend_receipt_token), 1_200);
    assert_eq!(balance(&ledger, &other.lender_lend_receipt_token), 600);
    assert_eq!(balance(&ledger, &accounts.pool_account_a), 1_800);
    assert_eq!(supply(&ledger, &accounts.lending_receipt_token_mint), 1_800);
    assert_eq!(supply(&ledger, &accounts.cash_token_mint), 1_500);
    let back = Redeem::of(other, key(MINT_A));
    assert_eq!(redeem(&mut ledger, &back), Ok(()));
    assert_eq!(balance(&ledger, &other.lender_token_a), 700);
    assert_eq!(balance(&ledger, &accounts.lender_lend_receipt_token), 1_200);
    assert_eq!(balance(&ledger, &accounts.pool_account_a), 1_200);
}

#[test]
fn lend_more_than_held_fails_with_insufficient_balance() {
    let World { mut ledger, accounts, .. } = world(100);
    let before = snapshot(&ledger, &accounts);
    assert_eq!(lend(&mut ledger, &accounts, 101), Err(LendError::InsufficientBalance));
    assert_eq!(snapshot(&ledger, &accounts), before);
    assert_eq!(ledger.get(&accounts.lender_lend_receipt_token), None);
}

#[test]
fn lend_refuses_each_substituted_address() {
    let World { ledger, amm, accounts, .. } = world(5_000);
    let other = Lend::derive(&amm, &key(MINT_A), &key(OTHER)).unwrap();
    let mut bad: Vec<Lend> = Vec::new();
    bad.push(Lend { pool_authority: key(50), ..accounts });
    bad.push(Lend { pool_account_a: key(50), ..accounts });
    bad.push(Lend { lending_receipt_token_mint: key(50), ..accounts });
    bad.push(Lend { cash_token_mint: key(50), ..accounts });
    bad.push(Lend { lender: key(OTHER), ..accounts });
    bad.push(Lend { lender_token_a: key(50), ..accounts });
    bad.push(Lend { lender_authority: key(50), ..accounts });
    bad.push(Lend { lender_lend_receipt_token: key(50), ..accounts });
    bad.push(Lend { lender_cash_token: key(50), ..accounts });
    bad.push(Lend { lender_authority: other.lender_authority, ..accounts });
    bad.push(Lend { lender_lend_receipt_token: other.lender_lend_receipt_token, ..accounts });
    bad.push(Lend { lender_cash_token: other.lender_cash_token, ..accounts });
    bad.push(Lend { pool_account_a: accounts.lender_token_a, ..accounts });
    bad.push(Lend { lender_authority: accounts.pool_authority, ..accounts });
    for ctx in bad.iter() {
        let mut attempt = ledger.duplicate();
        assert_eq!(
            lend(&mut attempt, ctx, 120),
            Err(LendError::Accounts(AccountError::SeedMismatch))
        );
        assert_eq!(snapshot(&attempt, &accounts), snapshot(&ledger, &accounts));
    }
}

#[test]
fn lend_into_a_pool_that_is_not_there_finds_nothing() {
    let World { mut ledger, accounts, .. } = world(5_000);
    let before = snapshot(&ledger, &accounts);
    assert_eq!(
        lend(&mut ledger, &Lend { pool: key(50), ..accounts }, 120),
        Err(LendError::Accounts(AccountError::NotFound))
    );
    assert_eq!(
        lend(&mut ledger, &Lend { pool: accounts.cash_token_mint, ..accounts }, 120),
        Err(LendError::Accounts(AccountError::NotFound))
    );
    assert_eq!(snapshot(&ledger, &accounts), before);
}

#[test]
fn lend_without_a_base_balance_finds_nothing() {
    let World { mut ledger, amm, .. } = world(5_000);
    let other = Lend::derive(&amm, &key(MINT_A), &key(OTHER)).unwrap();
    assert_eq!(lend(&mut ledger, &other, 1), Err(LendError::Accounts(AccountError::NotFound)));
    assert_eq!(ledger.get(&other.lender_lend_receipt_token), None);
    assert_eq!(ledger.get(&other.lender_cash_token), None);
}

#[test]
fn lend_expecting_goes_by_the_given_accounts() {
    let World { ledger, accounts, .. } = world(5_000);
    let mut attempt = ledger.duplicate();
    assert_eq!(
        lend_expecting(&mut attempt, &accounts, &None, 120),
        Err(LendError::Accounts(AccountError::SeedMismatch))
    );
    let other = Lend { lender_cash_token: key(50), ..accounts };
    assert_eq!(
        lend_expecting(&mut attempt, &accounts, &Some(other), 120),
        Err(LendError::Accounts(AccountError::SeedMismatch))
    );
    assert_eq!(snapshot(&attempt, &accounts), snapshot(&ledger, &accounts));
    assert_eq!(lend_expecting(&mut attempt, &other, &Some(other), 120), Ok(()));
    assert_eq!(balance(&attempt, &key(50)), 100);
    assert_eq!(attempt.get(&accounts.lender_cash_token), None);
    let mut second = ledger.duplicate();
    assert_eq!(lend_expecting(&mut second, &accounts, &Some(accounts), 120), Ok(()));
    assert_eq!(balance(&second, &accounts.lender_cash_token), 100);
}

#[test]
fn lend_expecting_refuses_roles_that_share_an_address() {
    let World { ledger, accounts, .. } = world(5_000);
    let mut attempt = ledger.duplicate();
    let merged = Lend { cash_token_mint: accounts.lending_receipt_token_mint, ..accounts };
    assert_eq!(
        lend_expecting(&mut attempt, &merged, &Some(merged), 120),
        Err(LendError::Accounts(AccountError::SeedMismatch))
    );
    let keyless = Lend { lender: accounts.pool_authority, ..accounts };
    assert_eq!(
        lend_expecting(&mut attempt, &keyless, &Some(keyless), 120),
        Err(LendError::Accounts(AccountError::SeedMismatch))
    );
    let single = Lend { lender_authority: accounts.pool_authority, ..accounts };
    assert_eq!(
        lend_expecting(&mut attempt, &single, &Some(single), 120),
        Err(LendError::Accounts(AccountError::SeedMismatch))
    );
    assert_eq!(snapshot(&attempt, &accounts), snapshot(&ledger, &accounts));
}

#[test]
fn lend_expecting_checks_the_records_behind_the_accounts() {
    let World { mut ledger, accounts, .. } = world(5_000);
    ledger.open_account(&key(50), &key(MINT_A), &key(OTHER)).unwrap();
    ledger.create_mint(&key(51), &key(ISSUER), &key(ISSUER), 6).unwrap();
    ledger.open_account(&key(52), &accounts.cash_token_mint, &key(LENDER)).unwrap();
    let foreign = Lend { lender_token_a: key(50), ..accounts };
    assert_eq!(
        lend_expecting(&mut ledger, &foreign, &Some(foreign), 1),
        Err(LendError::Accounts(AccountError::Unauthorized))
    );
    let custody = Lend { pool_account_a: key(50), ..accounts };
    assert_eq!(
        lend_expecting(&mut ledger, &custody, &Some(custody), 1),
        Err(LendError::Accounts(AccountError::Unauthorized))
    );
    let issuer = Lend { cash_token_mint: key(51), ..accounts };
    assert_eq!(
        lend_expecting(&mut ledger, &issuer, &Some(issuer), 1),
        Err(LendError::Accounts(AccountError::Unauthorized))
    );
    let missing = Lend { lending_receipt_token_mint: key(53), ..accounts };
    assert_eq!(
        lend_expecting(&mut ledger, &missing, &Some(missing), 1),
        Err(LendError::Accounts(AccountError::NotFound))
    );
    let slot = Lend { lender_lend_receipt_token: key(52), ..accounts };
    assert_eq!(
        lend_expecting(&mut ledger, &slot, &Some(slot), 1),
        Err(LendError::Accounts(AccountError::MintMismatch))
    );
    let wrong = Lend { lender_token_a: key(52), ..accounts };
    assert_eq!(
        lend_expecting(&mut ledger, &wrong, &Some(wrong), 1),
        Err(LendError::Accounts(AccountError::MintMismatch))
    );
    assert_eq!(balance(&ledger, &accounts.lender_token_a), 5_000);
    assert_eq!(balance(&ledger, &accounts.pool_account_a), 0);
}

#[test]
fn lend_reports_what_the_token_primitive_refuses() {
    let World { mut ledger, accounts, .. } = world(5_000);
    ledger.freeze(&accounts.lender_token_a, &key(ISSUER)).unwrap();
    let before = snapshot(&ledger, &accounts);
    assert_eq!(lend(&mut ledger, &accounts, 120), Err(LendError::Token(TokenError::AccountLocked)));
    assert_eq!(snapshot(&ledger, &accounts), before);
    ledger.thaw(&accounts.lender_token_a, &key(ISSUER)).unwrap();
    assert_eq!(lend(&mut ledger, &accounts, 120), Ok(()));
}

#[test]
fn lend_then_redeem_restores_the_lender() {
    let World { mut ledger, accounts, .. } = world(5_000);
    lend(&mut ledger, &accounts, 1_199).unwrap();
    assert_eq!(balance(&ledger, &accounts.lender_token_a), 3_801);
    assert_eq!(balance(&ledger, &accounts.lender_cash_token), 999);
    let back = Redeem::of(accounts, key(MINT_A));
    assert_eq!(redeem(&mut ledger, &back), Ok(()));
    assert_eq!(balance(&ledger, &accounts.lender_token_a), 5_000);
    assert_eq!(balance(&ledger, &accounts.lender_lend_receipt_token), 0);
    assert_eq!(balance(&ledger, &accounts.lender_cash_token), 0);
    assert_eq!(balance(&ledger, &accounts.pool_account_a), 0);
    assert_eq!(supply(&ledger, &accounts.lending_receipt_token_mint), 0);
    assert_eq!(supply(&ledger, &accounts.cash_token_mint), 0);
    assert_eq!(supply(&ledger, &key(MINT_A)), 5_000);
}

#[test]
fn redeem_takes_the_whole_slot_and_the_cash_for_it() {
    let World { mut ledger, accounts, .. } = world(5_000);
    lend(&mut ledger, &accounts, 119).unwrap();
    lend(&mut ledger, &accounts, 119).unwrap();
    lend(&mut ledger, &accounts, 2).unwrap();
    assert_eq!(balance(&ledger, &accounts.lender_lend_receipt_token), 240);
    assert_eq!(balance(&ledger, &accounts.lender_cash_token), 199);
    let back = Redeem::of(accounts, key(MINT_A));
    let before = snapshot(&ledger, &accounts);
    assert_eq!(redeem(&mut ledger, &back), Err(RedeemError::Token(TokenError::InsufficientBalance)));
    assert_eq!(snapshot(&ledger, &accounts), before);
}

#[test]
fn redeem_with_cash_to_spare_leaves_the_rest() {
    let World { mut ledger, amm, accounts, .. } = world(5_000);
    lend(&mut ledger, &accounts, 240).unwrap();
    let back = Redeem::of(accounts, key(MINT_A));
    redeem(&mut ledger, &back).unwrap();
    lend(&mut ledger, &accounts, 1_200).unwrap();
    let other = Lend::derive(&amm, &key(MINT_A), &key(OTHER)).unwrap();
    assert_eq!(balance(&ledger, &other.lender_cash_token), 0);
    assert_eq!(balance(&ledger, &accounts.lender_cash_token), 1_000);
    assert_eq!(redeem(&mut ledger, &back), Ok(()));
    assert_eq!(balance(&ledger, &accounts.lender_cash_token), 0);
    assert_eq!(balance(&ledger, &accounts.lender_token_a), 5_000);
}

#[test]
fn redeem_of_an_empty_slot_moves_nothing() {
    let World { mut ledger, accounts, .. } = world(5_000);
    lend(&mut ledger, &accounts, 240).unwrap();
    let back = Redeem::of(accounts, key(MINT_A));
    redeem(&mut ledger, &back).unwrap();
    let before = snapshot(&ledger, &accounts);
    assert_eq!(redeem(&mut ledger, &back), Ok(()));
    assert_eq!(snapshot(&ledger, &accounts), before);
}

#[test]
fn redeem_before_any_loan_finds_no_slot() {
    let World { mut ledger, accounts, .. } = world(5_000);
    let back = Redeem::of(accounts, key(MINT_A));
    let before = snapshot(&ledger, &accounts);
    assert_eq!(redeem(&mut ledger, &back), Err(RedeemError::Accounts(AccountError::NotFound)));
    assert_eq!(snapshot(&ledger, &accounts), before);
}

#[test]
fn redeem_refuses_each_substituted_address() {
    let World { mut ledger, amm, accounts, .. } = world(5_000);
    let other = Lend::derive(&amm, &key(MINT_A), &key(OTHER)).unwrap();
    ledger.open_account(&other.lender_token_a, &key(MINT_A), &key(OTHER)).unwrap();
    ledger.mint_to(&key(MINT_A), &other.lender_token_a, &key(ISSUER), 700).unwrap();
    lend(&mut ledger, &accounts, 1_200).unwrap();
    lend(&mut ledger, &other, 600).unwrap();
    let good = Redeem::of(accounts, key(MINT_A));
    let mut bad: Vec<Redeem> = Vec::new();
    bad.push(Redeem { pool_authority: key(50), ..good });
    bad.push(Redeem { mint_a: key(50), ..good });
    bad.push(Redeem { pool_account_a: key(50), ..good });
    bad.push(Redeem { lending_receipt_token_mint: key(50), ..good });
    bad.push(Redeem { lender: key(OTHER), ..good });
    bad.push(Redeem { lender_token_a: other.lender_token_a, ..good });
    bad.push(Redeem { lender_authority: other.lender_authority, ..good });
    bad.push(Redeem { lender_lend_receipt_token: other.lender_lend_receipt_token, ..good });
    bad.push(Redeem { cash_token_mint: key(50), ..good });
    bad.push(Redeem { lender_cash_token: other.lender_cash_token, ..good });
    bad.push(Redeem { lender_token_a: accounts.pool_account_a, ..good });
    bad.push(Redeem { pool_account_a: other.lender_token_a, ..good });
    for ctx in bad.iter() {
        let mut attempt = ledger.duplicate();
        assert_eq!(
            redeem(&mut attempt, ctx),
            Err(RedeemError::Accounts(AccountError::SeedMismatch))
        );
        assert_eq!(snapshot(&attempt, &accounts), snapshot(&ledger, &accounts));
        assert_eq!(snapshot(&attempt, &other), snapshot(&ledger, &other));
    }
    let mut attempt = ledger.duplicate();
    assert_eq!(
        redeem(&mut attempt, &Redeem { pool: key(50), ..good }),
        Err(RedeemError::Accounts(AccountError::NotFound))
    );
}

#[test]
fn a_lender_cannot_redeem_the_slot_of_another() {
    let World { mut ledger, amm, accounts, .. } = world(5_000);
    let other = Lend::derive(&amm, &key(MINT_A), &key(OTHER)).unwrap();
    ledger.open_account(&other.lender_token_a, &key(MINT_A), &key(OTHER)).unwrap();
    lend(&mut ledger, &accounts, 1_200).unwrap();
    let theft = Redeem {
        lender: key(OTHER),
        lender_token_a: other.lender_token_a,
        ..Redeem::of(accounts, key(MINT_A))
    };
    assert_eq!(redeem(&mut ledger, &theft), Err(RedeemError::Accounts(AccountError::SeedMismatch)));
    assert_eq!(
        redeem_expecting(&mut ledger, &theft, &Some(theft)),
        Err(RedeemError::Accounts(AccountError::Unauthorized))
    );
    assert_eq!(balance(&ledger, &accounts.lender_lend_receipt_token), 1_200);
    assert_eq!(balance(&ledger, &accounts.pool_account_a), 1_200);
    assert_eq!(balance(&ledger, &other.lender_token_a), 0);
}

#[test]
fn receipts_leave_the_slot_only_by_the_lender_authority() {
    let World { mut ledger, accounts, .. } = world(5_000);
    lend(&mut ledger, &accounts, 1_200).unwrap();
    ledger.open_account(&key(50), &accounts.lending_receipt_token_mint, &key(LENDER)).unwrap();
    assert_eq!(
        ledger.transfer(&accounts.lender_lend_receipt_token, &key(50), &key(LENDER), 1),
        Err(TokenError::Unauthorized)
    );
    assert_eq!(
        ledger.burn(
            &accounts.lending_receipt_token_mint,
            &accounts.lender_lend_receipt_token,
            &key(LENDER),
            1
        ),
        Err(TokenError::Unauthorized)
    );
    assert_eq!(
        ledger.transfer(&accounts.pool_account_a, &accounts.lender_token_a, &key(LENDER), 1),
        Err(TokenError::Unauthorized)
    );
    assert_eq!(balance(&ledger, &accounts.lender_lend_receipt_token), 1_200);
    assert_eq!(balance(&ledger, &accounts.pool_account_a), 1_200);
}

#[test]
fn locked_cash_does_not_pass_to_another_holder() {
    let World { mut ledger, accounts, .. } = world(5_000);
    lend(&mut ledger, &accounts, 1_200).unwrap();
    ledger.open_account(&key(50), &accounts.cash_token_mint, &key(OTHER)).unwrap();
    assert_eq!(
        ledger.transfer(&accounts.lender_cash_token, &key(50), &key(LENDER), 10),
        Err(TokenError::AccountLocked)
    );
    assert_eq!(balance(&ledger, &accounts.lender_cash_token), 1_000);
}

#[test]
fn redeem_expecting_goes_by_the_given_accounts() {
    let World { mut ledger, accounts, .. } = world(5_000);
    lend(&mut ledger, &accounts, 240).unwrap();
    let good = Redeem::of(accounts, key(MINT_A));
    assert_eq!(
        redeem_expecting(&mut ledger, &good, &None),
        Err(RedeemError::Accounts(AccountError::SeedMismatch))
    );
    let wrong = Redeem { mint_a: key(50), ..good };
    assert_eq!(
        redeem_expecting(&mut ledger, &wrong, &Some(wrong)),
        Err(RedeemError::Accounts(AccountError::SeedMismatch))
    );
    assert_eq!(balance(&ledger, &accounts.lender_lend_receipt_token), 240);
    assert_eq!(redeem_expecting(&mut ledger, &good, &Some(good)), Ok(()));
    assert_eq!(balance(&ledger, &accounts.lender_token_a), 5_000);
}

#[test]
fn no_key_pair_signs_for_the_authorities() {
    let World { accounts, .. } = world(0);
    assert!(!accounts.pool_authority.is_on_curve());
    assert!(!accounts.lender_authority.is_on_curve());
}
