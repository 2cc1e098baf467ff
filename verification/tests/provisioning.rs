use cash::accounts::AccountError;
use cash::address::{find_amm_address, Address};
use cash::instructions::create_amm::{create_amm, create_amm_expecting, CreateAmm};
use cash::instructions::create_cash_pool::{
    create_cash_pool, create_cash_pool_expecting, CreateCashPool,
};
use cash::instructions::create_pool_1::{
    create_pool_1, create_pool_1_expecting, CreatePool1, PoolError,
};
use cash::ledger::Ledger;
use cash::state::{Account, Amm, Mint, Pool, TokenAccount, BASE_POOL, CASH_POOL_TYPE};
use cash::token::TokenError;

fn key(n: u8) -> Address {
    Address { bytes: [n; 32] }
}

const MINT_A: u8 = 1;
const AMM_ID: u8 = 2;
const ADMIN: u8 = 3;
const ISSUER: u8 = 9;

fn with_amm() -> (Ledger, Address) {
    let mut ledger = Ledger::new();
    ledger.create_mint(&key(MINT_A), &key(ISSUER), &key(ISSUER), 6).unwrap();
    let amm = find_amm_address(&key(AMM_ID)).unwrap();
    create_amm(&mut ledger, &CreateAmm { amm, admin: key(ADMIN) }, key(AMM_ID)).unwrap();
    (ledger, amm)
}

fn with_pool() -> (Ledger, Address, CreatePool1) {
    let (mut ledger, amm) = with_amm();
    let ctx = CreatePool1::derive(&amm, &key(MINT_A), &key(ADMIN)).unwrap();
    create_pool_1(&mut ledger, &ctx).unwrap();
    (ledger, amm, ctx)
}

fn snapshot(ledger: &Ledger, addresses: &[Address]) -> Vec<Option<Account>> {
    addresses.iter().map(|address| ledger.get(address)).collect()
}

fn pool_mint(authority: Address) -> Mint {
    Mint { authority, freeze_authority: authority, decimals: 6, supply: 0 }
}

#[test]
fn create_amm_writes_the_record() {
    let (ledger, amm) = with_amm();
    assert_eq!(
        ledger.amm(&amm),
        Some(Amm {
            id: key(AMM_ID),
            admin: key(ADMIN),
            liquidity_fee: 0,
            protocol_fee_percentage: 0
        })
    );
}

#[test]
fn create_amm_twice_fails_and_keeps_the_first() {
    let (mut ledger, amm) = with_amm();
    assert_eq!(
        create_amm(&mut ledger, &CreateAmm { amm, admin: key(77) }, key(AMM_ID)),
        Err(PoolError::Accounts(AccountError::AlreadyExists))
    );
    assert_eq!(ledger.amm(&amm).unwrap().admin, key(ADMIN));
}

#[test]
fn create_amm_at_another_address_is_refused() {
    let mut ledger = Ledger::new();
    assert_eq!(
        create_amm(&mut ledger, &CreateAmm { amm: key(50), admin: key(ADMIN) }, key(AMM_ID)),
        Err(PoolError::Accounts(AccountError::SeedMismatch))
    );
    assert_eq!(ledger.get(&key(50)), None);
    let other = find_amm_address(&key(AMM_ID + 1)).unwrap();
    assert_eq!(
        create_amm(&mut ledger, &CreateAmm { amm: other, admin: key(ADMIN) }, key(AMM_ID)),
        Err(PoolError::Accounts(AccountError::SeedMismatch))
    );
    assert_eq!(ledger.get(&other), None);
}

#[test]
fn create_amm_expecting_goes_by_the_given_address() {
    let mut ledger = Ledger::new();
    let ctx = CreateAmm { amm: key(50), admin: key(ADMIN) };
    assert_eq!(
        create_amm_expecting(&mut ledger, &ctx, key(AMM_ID), &None),
        Err(PoolError::Accounts(AccountError::SeedMismatch))
    );
    assert_eq!(
        create_amm_expecting(&mut ledger, &ctx, key(AMM_ID), &Some(key(51))),
        Err(PoolError::Accounts(AccountError::SeedMismatch))
    );
    assert_eq!(create_amm_expecting(&mut ledger, &ctx, key(AMM_ID), &Some(key(50))), Ok(()));
    assert_eq!(ledger.amm(&key(50)).unwrap().id, key(AMM_ID));
    assert_eq!(
        create_amm_expecting(&mut ledger, &ctx, key(AMM_ID), &Some(key(50))),
        Err(PoolError::Accounts(AccountError::AlreadyExists))
    );
}

#[test]
fn create_pool_1_creates_record_custody_and_three_mints() {
    let (ledger, amm, ctx) = with_pool();
    assert_eq!(
        ledger.pool(&ctx.pool),
        Some(Pool {
            amm,
            mint_a: key(MINT_A),
            token_a_amount: 0,
            token_b_amount: 0,
            pool_type: 0
        })
    );
    assert_eq!(BASE_POOL, 0);
    assert_eq!(
        ledger.token(&ctx.pool_account_a),
        Some(TokenAccount {
            mint: key(MINT_A),
            owner: ctx.pool_authority,
            amount: 0,
            locked: false
        })
    );
    assert_eq!(ledger.mint(&ctx.lending_receipt_token_mint), Some(pool_mint(ctx.pool_authority)));
    assert_eq!(ledger.mint(&ctx.cash_token_mint), Some(pool_mint(ctx.pool_authority)));
    assert_eq!(ledger.mint(&ctx.s_cash_token_mint), Some(pool_mint(ctx.pool_authority)));
    assert_eq!(ledger.get(&ctx.pool_authority), None);
}

#[test]
fn create_pool_1_leaves_other_records_as_they_were() {
    let (before, amm) = with_amm();
    let (after, _, _) = with_pool();
    assert_eq!(after.get(&amm), before.get(&amm));
    assert_eq!(after.get(&key(MINT_A)), before.get(&key(MINT_A)));
}

#[test]
fn create_pool_1_twice_fails_and_overwrites_nothing() {
    let (mut ledger, _, ctx) = with_pool();
    ledger.open_account(&key(60), &key(MINT_A), &key(61)).unwrap();
    ledger.mint_to(&key(MINT_A), &key(60), &key(ISSUER), 500).unwrap();
    ledger.transfer(&key(60), &ctx.pool_account_a, &key(61), 200).unwrap();
    let touched = [
        ctx.pool,
        ctx.pool_account_a,
        ctx.lending_receipt_token_mint,
        ctx.cash_token_mint,
        ctx.s_cash_token_mint,
    ];
    let before = snapshot(&ledger, &touched);
    assert_eq!(
        create_pool_1(&mut ledger, &ctx),
        Err(PoolError::Accounts(AccountError::AlreadyExists))
    );
    assert_eq!(snapshot(&ledger, &touched), before);
    assert_eq!(ledger.token(&ctx.pool_account_a).unwrap().amount, 200);
}

#[test]
fn create_pool_1_for_another_asset_of_the_same_amm_succeeds() {
    let (mut ledger, amm, first) = with_pool();
    ledger.create_mint(&key(70), &key(ISSUER), &key(ISSUER), 6).unwrap();
    let second = CreatePool1::derive(&amm, &key(70), &key(ADMIN)).unwrap();
    assert_ne!(first.pool, second.pool);
    assert_ne!(first.pool_authority, second.pool_authority);
    assert_ne!(first.cash_token_mint, second.cash_token_mint);
    assert_eq!(create_pool_1(&mut ledger, &second), Ok(()));
    assert_eq!(ledger.pool(&second.pool).unwrap().mint_a, key(70));
    assert_eq!(ledger.pool(&first.pool).unwrap().mint_a, key(MINT_A));
}

#[test]
fn create_pool_1_needs_the_amm() {
    let mut ledger = Ledger::new();
    ledger.create_mint(&key(MINT_A), &key(ISSUER), &key(ISSUER), 6).unwrap();
    let amm = find_amm_address(&key(AMM_ID)).unwrap();
    let ctx = CreatePool1::derive(&amm, &key(MINT_A), &key(ADMIN)).unwrap();
    assert_eq!(create_pool_1(&mut ledger, &ctx), Err(PoolError::Accounts(AccountError::NotFound)));
    assert_eq!(ledger.get(&ctx.pool), None);
}

#[test]
fn create_pool_1_needs_the_base_mint() {
    let (mut ledger, amm) = with_amm();
    let ctx = CreatePool1::derive(&amm, &key(70), &key(ADMIN)).unwrap();
    assert_eq!(create_pool_1(&mut ledger, &ctx), Err(PoolError::Accounts(AccountError::NotFound)));
    assert_eq!(ledger.get(&ctx.pool), None);
    assert_eq!(ledger.get(&ctx.cash_token_mint), None);
}

#[test]
fn create_pool_1_needs_the_admin_of_the_amm() {
    let (mut ledger, amm) = with_amm();
    let ctx = CreatePool1::derive(&amm, &key(MINT_A), &key(77)).unwrap();
    assert_eq!(
        create_pool_1(&mut ledger, &ctx),
        Err(PoolError::Accounts(AccountError::Unauthorized))
    );
    assert_eq!(ledger.get(&ctx.pool), None);
    assert_eq!(ledger.get(&ctx.pool_account_a), None);
    assert_eq!(ledger.get(&ctx.lending_receipt_token_mint), None);
}

#[test]
fn create_pool_1_refuses_each_substituted_address() {
    let (ledger, amm) = with_amm();
    let good = CreatePool1::derive(&amm, &key(MINT_A), &key(ADMIN)).unwrap();
    let mut bad: Vec<CreatePool1> = Vec::new();
    bad.push(CreatePool1 { pool: key(50), ..good });
    bad.push(CreatePool1 { pool_authority: key(50), ..good });
    bad.push(CreatePool1 { pool_account_a: key(50), ..good });
    bad.push(CreatePool1 { lending_receipt_token_mint: key(50), ..good });
    bad.push(CreatePool1 { cash_token_mint: key(50), ..good });
    bad.push(CreatePool1 { s_cash_token_mint: key(50), ..good });
    bad.push(CreatePool1 {
        lending_receipt_token_mint: good.cash_token_mint,
        cash_token_mint: good.lending_receipt_token_mint,
        ..good
    });
    for ctx in bad.iter() {
        let mut attempt = ledger.duplicate();
        assert_eq!(
            create_pool_1(&mut attempt, ctx),
            Err(PoolError::Accounts(AccountError::SeedMismatch))
        );
        assert_eq!(attempt.get(&key(50)), None);
        assert_eq!(attempt.get(&good.pool), None);
        assert_eq!(attempt.get(&good.pool_account_a), None);
        assert_eq!(attempt.get(&good.cash_token_mint), None);
    }
}

#[test]
fn create_pool_1_stops_at_an_address_in_use_and_undoes_its_steps() {
    let (mut ledger, amm) = with_amm();
    let ctx = CreatePool1::derive(&amm, &key(MINT_A), &key(ADMIN)).unwrap();
    ledger.create_mint(&ctx.cash_token_mint, &key(ISSUER), &key(ISSUER), 6).unwrap();
    assert_eq!(
        create_pool_1(&mut ledger, &ctx),
        Err(PoolError::Token(TokenError::AlreadyExists))
    );
    assert_eq!(ledger.get(&ctx.pool), None);
    assert_eq!(ledger.get(&ctx.pool_account_a), None);
    assert_eq!(ledger.get(&ctx.lending_receipt_token_mint), None);
    assert_eq!(ledger.get(&ctx.s_cash_token_mint), None);
    assert_eq!(ledger.mint(&ctx.cash_token_mint).unwrap().authority, key(ISSUER));
}

#[test]
fn create_pool_1_expecting_goes_by_the_given_accounts() {
    let (ledger, amm) = with_amm();
    let ctx = CreatePool1 {
        amm,
        mint_a: key(MINT_A),
        pool: key(40),
        pool_authority: key(41),
        pool_account_a: key(42),
        lending_receipt_token_mint: key(43),
        cash_token_mint: key(44),
        s_cash_token_mint: key(45),
        admin: key(ADMIN),
    };
    let mut first = ledger.duplicate();
    assert_eq!(create_pool_1_expecting(&mut first, &ctx, &Some(ctx)), Ok(()));
    assert_eq!(first.pool(&key(40)).unwrap().amm, amm);
    assert_eq!(first.token(&key(42)).unwrap().owner, key(41));
    assert_eq!(first.mint(&key(45)), Some(pool_mint(key(41))));
    let mut second = ledger.duplicate();
    assert_eq!(
        create_pool_1_expecting(&mut second, &ctx, &None),
        Err(PoolError::Accounts(AccountError::SeedMismatch))
    );
    let other = CreatePool1 { pool: key(46), ..ctx };
    assert_eq!(
        create_pool_1_expecting(&mut second, &ctx, &Some(other)),
        Err(PoolError::Accounts(AccountError::SeedMismatch))
    );
    let merged = CreatePool1 { cash_token_mint: key(43), ..ctx };
    assert_eq!(
        create_pool_1_expecting(&mut second, &merged, &Some(merged)),
        Err(PoolError::Accounts(AccountError::SeedMismatch))
    );
    assert_eq!(second.get(&key(40)), None);
    let shared = CreatePool1 { pool_account_a: key(40), ..ctx };
    assert_eq!(
        create_pool_1_expecting(&mut second, &shared, &Some(shared)),
        Err(PoolError::Token(TokenError::AlreadyExists))
    );
    assert_eq!(second.get(&key(40)), None);
}

#[test]
fn create_cash_pool_writes_a_record_of_type_one() {
    let (mut ledger, amm, base) = with_pool();
    let ctx = CreateCashPool::derive(&amm, &key(MINT_A), &key(ADMIN)).unwrap();
    assert_eq!(ctx.cash_token_mint, base.cash_token_mint);
    assert_eq!(ctx.s_cash_token_mint, base.s_cash_token_mint);
    assert_eq!(ctx.pool_authority, base.pool_authority);
    assert_ne!(ctx.cash_pool, base.pool);
    assert_eq!(create_cash_pool(&mut ledger, &ctx), Ok(()));
    assert_eq!(
        ledger.pool(&ctx.cash_pool),
        Some(Pool {
            amm,
            mint_a: key(MINT_A),
            token_a_amount: 0,
            token_b_amount: 0,
            pool_type: 1
        })
    );
    assert_eq!(CASH_POOL_TYPE, 1);
    assert_eq!(ledger.pool(&base.pool).unwrap().pool_type, 0);
    assert_eq!(ledger.mint(&ctx.cash_token_mint), Some(pool_mint(ctx.pool_authority)));
    assert_eq!(ledger.mint(&ctx.s_cash_token_mint), Some(pool_mint(ctx.pool_authority)));
}

#[test]
fn create_cash_pool_before_the_base_pool_finds_no_cash_mint() {
    let (mut ledger, amm) = with_amm();
    let ctx = CreateCashPool::derive(&amm, &key(MINT_A), &key(ADMIN)).unwrap();
    assert_eq!(
        create_cash_pool(&mut ledger, &ctx),
        Err(PoolError::Accounts(AccountError::NotFound))
    );
    assert_eq!(ledger.get(&ctx.cash_pool), None);
}

#[test]
fn create_cash_pool_twice_fails_and_keeps_the_first() {
    let (mut ledger, amm, _) = with_pool();
    let ctx = CreateCashPool::derive(&amm, &key(MINT_A), &key(ADMIN)).unwrap();
    create_cash_pool(&mut ledger, &ctx).unwrap();
    let before = ledger.get(&ctx.cash_pool);
    assert_eq!(
        create_cash_pool(&mut ledger, &ctx),
        Err(PoolError::Accounts(AccountError::AlreadyExists))
    );
    assert_eq!(ledger.get(&ctx.cash_pool), before);
}

#[test]
fn create_cash_pool_needs_amm_admin_and_derived_addresses() {
    let (ledger, amm, _) = with_pool();
    let good = CreateCashPool::derive(&amm, &key(MINT_A), &key(ADMIN)).unwrap();
    let mut attempt = ledger.duplicate();
    assert_eq!(
        create_cash_pool(&mut attempt, &CreateCashPool { admin: key(77), ..good }),
        Err(PoolError::Accounts(AccountError::Unauthorized))
    );
    let stranger = CreateCashPool::derive(&amm, &key(MINT_A), &key(77)).unwrap();
    assert_eq!(
        create_cash_pool(&mut attempt, &stranger),
        Err(PoolError::Accounts(AccountError::Unauthorized))
    );
    assert_eq!(
        create_cash_pool(&mut attempt, &CreateCashPool { cash_pool: key(50), ..good }),
        Err(PoolError::Accounts(AccountError::SeedMismatch))
    );
    assert_eq!(
        create_cash_pool(&mut attempt, &CreateCashPool { pool_authority: key(50), ..good }),
        Err(PoolError::Accounts(AccountError::SeedMismatch))
    );
    assert_eq!(
        create_cash_pool(&mut attempt, &CreateCashPool { cash_token_mint: key(50), ..good }),
        Err(PoolError::Accounts(AccountError::SeedMismatch))
    );
    assert_eq!(
        create_cash_pool(&mut attempt, &CreateCashPool { s_cash_token_mint: key(50), ..good }),
        Err(PoolError::Accounts(AccountError::SeedMismatch))
    );
    assert_eq!(
        create_cash_pool(&mut attempt, &CreateCashPool { amm: key(50), ..good }),
        Err(PoolError::Accounts(AccountError::NotFound))
    );
    assert_eq!(attempt.get(&good.cash_pool), None);
    assert_eq!(attempt.get(&key(50)), None);
}

#[test]
fn create_cash_pool_expecting_checks_the_cash_mint() {
    let (ledger, amm) = with_amm();
    let ctx = CreateCashPool {
        amm,
        mint_a: key(MINT_A),
        cash_token_mint: key(44),
        s_cash_token_mint: key(45),
        cash_pool: key(47),
        pool_authority: key(41),
        admin: key(ADMIN),
    };
    let mut attempt = ledger.duplicate();
    assert_eq!(
        create_cash_pool_expecting(&mut attempt, &ctx, &Some(ctx)),
        Err(PoolError::Accounts(AccountError::NotFound))
    );
    attempt.create_mint(&key(44), &key(ISSUER), &key(41), 6).unwrap();
    assert_eq!(
        create_cash_pool_expecting(&mut attempt, &ctx, &Some(ctx)),
        Err(PoolError::Accounts(AccountError::Unauthorized))
    );
    let mut nine = ledger.duplicate();
    nine.create_mint(&key(44), &key(41), &key(41), 9).unwrap();
    assert_eq!(
        create_cash_pool_expecting(&mut nine, &ctx, &Some(ctx)),
        Err(PoolError::Accounts(AccountError::MintMismatch))
    );
    let mut right = ledger.duplicate();
    right.create_mint(&key(44), &key(41), &key(41), 6).unwrap();
    assert_eq!(create_cash_pool_expecting(&mut right, &ctx, &Some(ctx)), Ok(()));
    assert_eq!(right.pool(&key(47)).unwrap().pool_type, 1);
    assert_eq!(right.mint(&key(45)), Some(pool_mint(key(41))));
    assert_eq!(right.mint(&key(44)), Some(pool_mint(key(41))));
}

#[test]
fn create_cash_pool_expecting_keeps_or_creates_the_scash_mint() {
    let (ledger, amm) = with_amm();
    let ctx = CreateCashPool {
        amm,
        mint_a: key(MINT_A),
        cash_token_mint: key(44),
        s_cash_token_mint: key(45),
        cash_pool: key(47),
        pool_authority: key(41),
        admin: key(ADMIN),
    };
    let mut kept = ledger.duplicate();
    kept.create_mint(&key(44), &key(41), &key(41), 6).unwrap();
    kept.create_mint(&key(45), &key(41), &key(41), 6).unwrap();
    kept.open_account(&key(48), &key(45), &key(49)).unwrap();
    kept.mint_to(&key(45), &key(48), &key(41), 30).unwrap();
    assert_eq!(create_cash_pool_expecting(&mut kept, &ctx, &Some(ctx)), Ok(()));
    assert_eq!(kept.mint(&key(45)).unwrap().supply, 30);
    assert_eq!(kept.token(&key(48)).unwrap().amount, 30);
    let mut foreign = ledger.duplicate();
    foreign.create_mint(&key(44), &key(41), &key(41), 6).unwrap();
    foreign.create_mint(&key(45), &key(ISSUER), &key(41), 6).unwrap();
    assert_eq!(
        create_cash_pool_expecting(&mut foreign, &ctx, &Some(ctx)),
        Err(PoolError::Accounts(AccountError::Unauthorized))
    );
    assert_eq!(foreign.get(&key(47)), None);
    let mut taken = ledger.duplicate();
    taken.create_mint(&key(44), &key(41), &key(41), 6).unwrap();
    taken.open_account(&key(45), &key(44), &key(49)).unwrap();
    assert_eq!(
        create_cash_pool_expecting(&mut taken, &ctx, &Some(ctx)),
        Err(PoolError::Accounts(AccountError::NotFound))
    );
    assert_eq!(taken.get(&key(47)), None);
    let mut merged = ledger.duplicate();
    merged.create_mint(&key(44), &key(41), &key(41), 6).unwrap();
    let shared = CreateCashPool { s_cash_token_mint: key(47), ..ctx };
    assert_eq!(
        create_cash_pool_expecting(&mut merged, &shared, &Some(shared)),
        Err(PoolError::Accounts(AccountError::SeedMismatch))
    );
    let single = CreateCashPool { s_cash_token_mint: key(44), ..ctx };
    assert_eq!(
        create_cash_pool_expecting(&mut merged, &single, &Some(single)),
        Err(PoolError::Accounts(AccountError::SeedMismatch))
    );
    assert_eq!(merged.get(&key(47)), None);
    assert_eq!(merged.get(&key(45)), None);
}

#[test]
fn record_sizes_are_those_of_the_stored_layout() {
    assert_eq!(Amm::LEN, 76);
    assert_eq!(Pool::LEN, 104);
}
