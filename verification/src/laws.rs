//! What holds of the operations taken together.

use crate::accounts::{balance_fault, pool_mint_fault, AccountError};
use crate::address::{amm_address, Address};
use crate::instructions::create_amm::{create_amm_outcome, new_amm, CreateAmm};
use crate::instructions::create_cash_pool::{
    create_cash_pool_outcome, lemma_create_cash_pool_result, CreateCashPool,
};
use crate::instructions::create_pool_1::{
    create_pool_1_outcome, lemma_create_pool_1_result, CreatePool1, PoolError,
};
use crate::instructions::lend::{
    lemma_lend_balances, lend_accounts_fault, lend_outcome, Lend, LendError,
};
use crate::instructions::lendcash::{
    lemma_lend_cash_balances, lend_cash_accounts_fault, lend_cash_outcome, LendCash,
};
use crate::instructions::redeem::{lemma_redeem_balances, redeem_outcome, Redeem, RedeemError};
use crate::instructions::redeemcash::{lemma_redeem_cash_balances, redeem_cash_outcome, RedeemCash};
use crate::state::{amm_at, balance_at, pool_at, supply_at, token_at, State};
use vstd::prelude::*;

verus! {

/// Lending into an empty receipt slot and redeeming at once succeeds, and
/// gives back what was there before the loan: the lender's base balance, the
/// pool's custody, the lender's cash and both supplies are as they were, and
/// the receipt slot is empty again.
pub proof fn lemma_lend_then_redeem(s: State, ctx: Lend, amount: u64)
    requires
        lend_outcome(s, ctx, Lend::expected(s, ctx), amount) is Ok,
        balance_at(s, ctx.lender_lend_receipt_token) == 0,
    ensures
        ({
            let lent = lend_outcome(s, ctx, Lend::expected(s, ctx), amount)->Ok_0;
            let back = Redeem::spec_of(ctx, pool_at(s, ctx.pool)->Some_0.mint_a);
            let redeemed = redeem_outcome(lent, back, Redeem::expected(lent, back));
            &&& redeemed is Ok
            &&& balance_at(redeemed->Ok_0, ctx.lender_token_a) == balance_at(s, ctx.lender_token_a)
            &&& balance_at(redeemed->Ok_0, ctx.lender_lend_receipt_token) == 0
            &&& balance_at(redeemed->Ok_0, ctx.pool_account_a) == balance_at(s, ctx.pool_account_a)
            &&& balance_at(redeemed->Ok_0, ctx.lender_cash_token) == balance_at(s, ctx.lender_cash_token)
            &&& supply_at(redeemed->Ok_0, ctx.lending_receipt_token_mint) == supply_at(
                s,
                ctx.lending_receipt_token_mint,
            )
            &&& supply_at(redeemed->Ok_0, ctx.cash_token_mint) == supply_at(s, ctx.cash_token_mint)
        }),
{
    let expected = Lend::expected(s, ctx);
    let pool = pool_at(s, ctx.pool)->Some_0;
    let lent = lend_outcome(s, ctx, expected, amount)->Ok_0;
    let back = Redeem::spec_of(ctx, pool.mint_a);
    lemma_lend_balances(s, ctx, expected, amount);
    assert(pool_at(lent, ctx.pool) == Some(pool));
    assert(back.spec_accounts() == ctx);
    assert(Redeem::expected(lent, back) == Some(back));
    let redeemed = redeem_outcome(lent, back, Redeem::expected(lent, back));
    assert(redeemed is Ok);
    lemma_redeem_balances(lent, back, Redeem::expected(lent, back));
}

/// Lending cash from an empty scash balance and redeeming at once succeeds,
/// and gives back exactly the cash that was lent: the holder's cash, the
/// pool's custody and the scash supply are as they were, and the scash
/// balance is empty again.
pub proof fn lemma_lend_cash_then_redeem_cash(s: State, ctx: LendCash, amount: u64)
    requires
        lend_cash_outcome(s, ctx, LendCash::expected(s, ctx), amount) is Ok,
        balance_at(s, ctx.lender_scash_token) == 0,
    ensures
        ({
            let lent = lend_cash_outcome(s, ctx, LendCash::expected(s, ctx), amount)->Ok_0;
            let back = RedeemCash::spec_of(ctx);
            let redeemed = redeem_cash_outcome(lent, back, RedeemCash::expected(lent, back));
            &&& redeemed is Ok
            &&& balance_at(lent, ctx.lender_cash_token) == balance_at(s, ctx.lender_cash_token) - amount
            &&& balance_at(redeemed->Ok_0, ctx.lender_cash_token) == balance_at(lent, ctx.lender_cash_token)
                + amount
            &&& balance_at(redeemed->Ok_0, ctx.lender_cash_token) == balance_at(s, ctx.lender_cash_token)
            &&& balance_at(redeemed->Ok_0, ctx.lender_scash_token) == 0
            &&& balance_at(redeemed->Ok_0, ctx.pool_account_cash) == balance_at(s, ctx.pool_account_cash)
            &&& supply_at(redeemed->Ok_0, ctx.s_cash_token_mint) == supply_at(s, ctx.s_cash_token_mint)
        }),
{
    let expected = LendCash::expected(s, ctx);
    let pool = pool_at(s, ctx.cash_pool)->Some_0;
    let lent = lend_cash_outcome(s, ctx, expected, amount)->Ok_0;
    let back = RedeemCash::spec_of(ctx);
    lemma_lend_cash_balances(s, ctx, expected, amount);
    assert(pool_at(lent, ctx.cash_pool) == Some(pool));
    assert(RedeemCash::expected(lent, back) == Some(back));
    let redeemed = redeem_cash_outcome(lent, back, RedeemCash::expected(lent, back));
    assert(redeemed is Ok);
    lemma_redeem_cash_balances(lent, back, RedeemCash::expected(lent, back));
}

/// A base lending pool can be lent into as soon as it is created: a request
/// that presents the accounts derived for a lender in the pool is accepted
/// where the lender's base balance is in order, unlocked and holds the amount,
/// and the receipt slot and the cash balance are two free addresses.
pub proof fn lemma_created_pool_lends(s: State, pool: CreatePool1, ctx: Lend, amount: u64)
    requires
        create_pool_1_outcome(s, pool, CreatePool1::expected(s, pool)) is Ok,
        Lend::derived(pool.amm, pool.mint_a, ctx.lender) == Some(ctx),
        ctx.separate(pool.mint_a),
        ctx.lender_lend_receipt_token != ctx.lender_cash_token,
        ({
            let created = create_pool_1_outcome(s, pool, CreatePool1::expected(s, pool))->Ok_0;
            &&& balance_fault(created, ctx.lender_token_a, pool.mint_a, ctx.lender) is None
            &&& !token_at(created, ctx.lender_token_a)->Some_0.locked
            &&& balance_at(created, ctx.lender_token_a) >= amount
            &&& !created.contains_key(ctx.lender_lend_receipt_token)
            &&& !created.contains_key(ctx.lender_cash_token)
        }),
    ensures
        ({
            let created = create_pool_1_outcome(s, pool, CreatePool1::expected(s, pool))->Ok_0;
            &&& ctx.pool == pool.pool
            &&& ctx.pool_authority == pool.pool_authority
            &&& ctx.pool_account_a == pool.pool_account_a
            &&& ctx.lending_receipt_token_mint == pool.lending_receipt_token_mint
            &&& ctx.cash_token_mint == pool.cash_token_mint
            &&& Lend::expected(created, ctx) == Some(ctx)
            &&& lend_outcome(created, ctx, Lend::expected(created, ctx), amount) is Ok
        }),
{
    let created = create_pool_1_outcome(s, pool, CreatePool1::expected(s, pool))->Ok_0;
    lemma_create_pool_1_result(s, pool, CreatePool1::expected(s, pool));
    assert(CreatePool1::derived(pool.amm, pool.mint_a, pool.admin) == Some(pool));
    assert(pool_mint_fault(created, ctx.lending_receipt_token_mint, ctx.pool_authority) is None);
    assert(pool_mint_fault(created, ctx.cash_token_mint, ctx.pool_authority) is None);
    assert(balance_fault(created, ctx.pool_account_a, pool.mint_a, ctx.pool_authority) is None);
    assert(lend_accounts_fault(created, ctx, pool.mint_a) is None);
    assert(ctx.lender_token_a != ctx.pool_account_a);
}

/// A cash pool can be lent into as soon as it is created: a request that
/// presents the accounts derived for a holder of cash in the pool is accepted
/// where the holder's cash balance is in order and holds the amount, the
/// pool's custody and the holder's scash balance are two free addresses, and
/// the supply of scash has room for the amount. A lock on the holder's cash
/// does not bar it.
pub proof fn lemma_created_cash_pool_lends(s: State, pool: CreateCashPool, ctx: LendCash, amount: u64)
    requires
        create_cash_pool_outcome(s, pool, CreateCashPool::expected(s, pool)) is Ok,
        LendCash::derived(pool.amm, pool.mint_a, ctx.lender) == Some(ctx),
        ctx.separate(),
        ctx.pool_account_cash != ctx.lender_scash_token,
        ({
            let created = create_cash_pool_outcome(s, pool, CreateCashPool::expected(s, pool))->Ok_0;
            &&& balance_fault(created, ctx.lender_cash_token, ctx.cash_token_mint, ctx.lender) is None
            &&& balance_at(created, ctx.lender_cash_token) >= amount
            &&& !created.contains_key(ctx.pool_account_cash)
            &&& !created.contains_key(ctx.lender_scash_token)
            &&& supply_at(created, ctx.s_cash_token_mint) + amount <= u64::MAX
        }),
    ensures
        ({
            let created = create_cash_pool_outcome(s, pool, CreateCashPool::expected(s, pool))->Ok_0;
            &&& ctx.cash_pool == pool.cash_pool
            &&& ctx.pool_authority == pool.pool_authority
            &&& ctx.cash_token_mint == pool.cash_token_mint
            &&& ctx.s_cash_token_mint == pool.s_cash_token_mint
            &&& LendCash::expected(created, ctx) == Some(ctx)
            &&& lend_cash_outcome(created, ctx, LendCash::expected(created, ctx), amount) is Ok
        }),
{
    let created = create_cash_pool_outcome(s, pool, CreateCashPool::expected(s, pool))->Ok_0;
    lemma_create_cash_pool_result(s, pool, CreateCashPool::expected(s, pool));
    assert(CreateCashPool::derived(pool.amm, pool.mint_a, pool.admin) == Some(pool));
    assert(lend_cash_accounts_fault(created, ctx) is None);
    assert(ctx.lender_cash_token != ctx.pool_account_cash);
}

/// An AMM is created once: after a creation has succeeded, every further
/// request to create the AMM of the same identity is refused, whatever
/// accounts it presents, and the record stays as it was written.
pub proof fn lemma_create_amm_once(s: State, first: CreateAmm, second: CreateAmm, id: Address)
    requires
        create_amm_outcome(s, first, id, amm_address(id)) is Ok,
    ensures
        ({
            let created = create_amm_outcome(s, first, id, amm_address(id))->Ok_0;
            &&& amm_at(created, first.amm) == Some(new_amm(id, first.admin))
            &&& create_amm_outcome(created, second, id, amm_address(id)) is Err
            &&& second.amm == first.amm ==> create_amm_outcome(created, second, id, amm_address(id))
                == Err::<State, PoolError>(PoolError::Accounts(AccountError::AlreadyExists))
        }),
{
}

/// A base lending pool is created once: after a creation has succeeded, every
/// further request to create the pool of the same AMM and base asset is
/// refused, whatever accounts it presents.
pub proof fn lemma_create_pool_1_once(s: State, first: CreatePool1, second: CreatePool1)
    requires
        create_pool_1_outcome(s, first, CreatePool1::expected(s, first)) is Ok,
        second.amm == first.amm,
        second.mint_a == first.mint_a,
    ensures
        ({
            let created = create_pool_1_outcome(s, first, CreatePool1::expected(s, first))->Ok_0;
            let again = create_pool_1_outcome(created, second, CreatePool1::expected(created, second));
            &&& again is Err
            &&& second == first ==> again == Err::<State, PoolError>(
                PoolError::Accounts(AccountError::AlreadyExists),
            )
        }),
{
    let created = create_pool_1_outcome(s, first, CreatePool1::expected(s, first))->Ok_0;
    assert(created.contains_key(first.pool));
    assert(created.contains_key(first.amm) && created[first.amm] == s[first.amm]);
    assert(created.contains_key(first.mint_a) && created[first.mint_a] == s[first.mint_a]);
    if CreatePool1::expected(created, second) == Some(second) {
        assert(second.pool == first.pool);
    }
}

/// A cash pool is created once: after a creation has succeeded, every further
/// request to create the cash pool of the same AMM and base asset is refused,
/// whatever accounts it presents.
pub proof fn lemma_create_cash_pool_once(s: State, first: CreateCashPool, second: CreateCashPool)
    requires
        create_cash_pool_outcome(s, first, CreateCashPool::expected(s, first)) is Ok,
        second.amm == first.amm,
        second.mint_a == first.mint_a,
    ensures
        ({
            let created = create_cash_pool_outcome(s, first, CreateCashPool::expected(s, first))->Ok_0;
            let again = create_cash_pool_outcome(
                created,
                second,
                CreateCashPool::expected(created, second),
            );
            &&& again is Err
            &&& second == first ==> again == Err::<State, PoolError>(
                PoolError::Accounts(AccountError::AlreadyExists),
            )
        }),
{
    let created = create_cash_pool_outcome(s, first, CreateCashPool::expected(s, first))->Ok_0;
    assert(created.contains_key(first.cash_pool));
    assert(created.contains_key(first.amm) && created[first.amm] == s[first.amm]);
    if CreateCashPool::expected(created, second) == Some(second) {
        assert(second.cash_pool == first.cash_pool);
    }
}

/// Tokens move only on the accounts that the seed scheme derives. A request
/// to lend, redeem, lend cash or redeem cash that names a pool and presents
/// any address other than the derived one is refused for a seed mismatch, so
/// that a request that succeeds has presented the derived accounts; and among
/// those the lender, the pool authority and the lender authority are three
/// different addresses.
pub proof fn lemma_only_derived_accounts_move_tokens(
    s: State,
    lend: Lend,
    redeem: Redeem,
    lend_cash: LendCash,
    redeem_cash: RedeemCash,
    amount: u64,
)
    ensures
        pool_at(s, lend.pool) is Some && Lend::expected(s, lend) != Some(lend) ==> lend_outcome(
            s,
            lend,
            Lend::expected(s, lend),
            amount,
        ) == Err::<State, LendError>(LendError::Accounts(AccountError::SeedMismatch)),
        lend_outcome(s, lend, Lend::expected(s, lend), amount) is Ok ==> {
            &&& Lend::expected(s, lend) == Some(lend)
            &&& lend.pool_authority != lend.lender_authority
            &&& lend.lender != lend.pool_authority
            &&& lend.lender != lend.lender_authority
        },
        pool_at(s, redeem.pool) is Some && Redeem::expected(s, redeem) != Some(redeem)
            ==> redeem_outcome(s, redeem, Redeem::expected(s, redeem)) == Err::<State, RedeemError>(
            RedeemError::Accounts(AccountError::SeedMismatch),
        ),
        redeem_outcome(s, redeem, Redeem::expected(s, redeem)) is Ok ==> {
            &&& Redeem::expected(s, redeem) == Some(redeem)
            &&& redeem.pool_authority != redeem.lender_authority
            &&& redeem.lender != redeem.pool_authority
            &&& redeem.lender != redeem.lender_authority
        },
        pool_at(s, lend_cash.cash_pool) is Some && LendCash::expected(s, lend_cash) != Some(lend_cash)
            ==> lend_cash_outcome(s, lend_cash, LendCash::expected(s, lend_cash), amount) == Err::<
            State,
            LendError,
        >(LendError::Accounts(AccountError::SeedMismatch)),
        lend_cash_outcome(s, lend_cash, LendCash::expected(s, lend_cash), amount) is Ok ==> {
            &&& LendCash::expected(s, lend_cash) == Some(lend_cash)
            &&& lend_cash.lender != lend_cash.pool_authority
        },
        pool_at(s, redeem_cash.cash_pool) is Some && RedeemCash::expected(s, redeem_cash) != Some(
            redeem_cash,
        ) ==> redeem_cash_outcome(s, redeem_cash, RedeemCash::expected(s, redeem_cash)) == Err::<
            State,
            RedeemError,
        >(RedeemError::Accounts(AccountError::SeedMismatch)),
        redeem_cash_outcome(s, redeem_cash, RedeemCash::expected(s, redeem_cash)) is Ok ==> {
            &&& RedeemCash::expected(s, redeem_cash) == Some(redeem_cash)
            &&& redeem_cash.lender != redeem_cash.pool_authority
        },
{
}

/// Receipts stand for the principal in custody: where the supply of receipts
/// equals the pool's custody balance, it does so again after a loan and after
/// a redemption.
pub proof fn lemma_receipts_match_custody(s: State, lend: Lend, redeem: Redeem, amount: u64)
    ensures
        ({
            let lent = lend_outcome(s, lend, Lend::expected(s, lend), amount);
            let mint = lend.lending_receipt_token_mint;
            let custody = lend.pool_account_a;
            lent is Ok && supply_at(s, mint) == balance_at(s, custody) ==> supply_at(lent->Ok_0, mint)
                == balance_at(lent->Ok_0, custody)
        }),
        ({
            let redeemed = redeem_outcome(s, redeem, Redeem::expected(s, redeem));
            let mint = redeem.lending_receipt_token_mint;
            let custody = redeem.pool_account_a;
            redeemed is Ok && supply_at(s, mint) == balance_at(s, custody) ==> supply_at(
                redeemed->Ok_0,
                mint,
            ) == balance_at(redeemed->Ok_0, custody)
        }),
{
    if lend_outcome(s, lend, Lend::expected(s, lend), amount) is Ok {
        lemma_lend_balances(s, lend, Lend::expected(s, lend), amount);
    }
    if redeem_outcome(s, redeem, Redeem::expected(s, redeem)) is Ok {
        lemma_redeem_balances(s, redeem, Redeem::expected(s, redeem));
    }
}

/// Scash stands for the cash in custody: where the supply of scash equals the
/// cash pool's custody balance, it does so again after cash is lent and after
/// it is redeemed.
pub proof fn lemma_scash_matches_custody(
    s: State,
    lend_cash: LendCash,
    redeem_cash: RedeemCash,
    amount: u64,
)
    ensures
        ({
            let lent = lend_cash_outcome(s, lend_cash, LendCash::expected(s, lend_cash), amount);
            let mint = lend_cash.s_cash_token_mint;
            let custody = lend_cash.pool_account_cash;
            lent is Ok && supply_at(s, mint) == balance_at(s, custody) ==> supply_at(lent->Ok_0, mint)
                == balance_at(lent->Ok_0, custody)
        }),
        ({
            let redeemed = redeem_cash_outcome(
                s,
                redeem_cash,
                RedeemCash::expected(s, redeem_cash),
            );
            let mint = redeem_cash.s_cash_token_mint;
            let custody = redeem_cash.pool_account_cash;
            redeemed is Ok && supply_at(s, mint) == balance_at(s, custody) ==> supply_at(
                redeemed->Ok_0,
                mint,
            ) == balance_at(redeemed->Ok_0, custody)
        }),
{
    if lend_cash_outcome(s, lend_cash, LendCash::expected(s, lend_cash), amount) is Ok {
        lemma_lend_cash_balances(s, lend_cash, LendCash::expected(s, lend_cash), amount);
    }
    if redeem_cash_outcome(s, redeem_cash, RedeemCash::expected(s, redeem_cash)) is Ok {
        lemma_redeem_cash_balances(s, redeem_cash, RedeemCash::expected(s, redeem_cash));
    }
}

} // verus!
