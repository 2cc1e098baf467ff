//! Lending cash: cash is locked in the cash pool against scash, one for one.

use crate::accounts::{balance_fault, first_fault, fresh_balance_fault, pool_mint_fault, provided, AccountError};
use crate::address::{
    associated_token_address, cash_mint_address, cash_pool_address, find_associated_token_address,
    find_tagged_address, keyless, pool_authority_address, scash_mint_address, Address,
};
use crate::constants::{AUTHORITY_SEED, CASH_POOL, CASH_TOKEN_SEED, SCASH_TOKEN_SEED};
use crate::instructions::lend::LendError;
use crate::ledger::Ledger;
use crate::state::{balance_at, pool_at, same_outside, supply_at, token_at, State};
use crate::token::{mint_and_freeze_outcome, settles, transfer_outcome};
use vstd::prelude::*;

verus! {

/// The accounts that a holder of cash presents to lend it into the cash pool.
#[derive(Clone, Copy, Debug, PartialEq, Eq)]
pub struct LendCash {
    /// Mint of the base asset.
    pub mint_a: Address,
    /// Record of the cash pool.
    pub cash_pool: Address,
    /// Authority over the pool's mints and custody.
    pub pool_authority: Address,
    /// The cash pool's custody balance of cash.
    pub pool_account_cash: Address,
    /// Mint of the cash token.
    pub cash_token_mint: Address,
    /// Mint of the scash token.
    pub s_cash_token_mint: Address,
    /// The holder, in whose name the request is made.
    pub lender: Address,
    /// The holder's balance of cash.
    pub lender_cash_token: Address,
    /// The holder's balance of scash.
    pub lender_scash_token: Address,
}

impl LendCash {
    /// The accounts that the seed scheme derives for a holder of cash in the
    /// cash pool of an AMM and a base asset; `None` where a derivation fails.
    pub open spec fn derived(amm: Address, mint_a: Address, lender: Address) -> Option<LendCash> {
        match (
            cash_pool_address(amm, mint_a),
            pool_authority_address(amm, mint_a),
            cash_mint_address(amm, mint_a),
            scash_mint_address(amm, mint_a),
        ) {
            (Some(cash_pool), Some(pool_authority), Some(cash_mint), Some(scash_mint)) => match (
                associated_token_address(pool_authority, cash_mint),
                associated_token_address(lender, cash_mint),
                associated_token_address(lender, scash_mint),
            ) {
                (Some(pool_account_cash), Some(lender_cash_token), Some(lender_scash_token)) => Some(
                    LendCash {
                        mint_a,
                        cash_pool,
                        pool_authority,
                        pool_account_cash,
                        cash_token_mint: cash_mint,
                        s_cash_token_mint: scash_mint,
                        lender,
                        lender_cash_token,
                        lender_scash_token,
                    },
                ),
                _ => None,
            },
            _ => None,
        }
    }

    /// The accounts that the seed scheme derives for the holder of a request
    /// in the cash pool that the request names.
    pub open spec fn expected(s: State, ctx: LendCash) -> Option<LendCash> {
        match pool_at(s, ctx.cash_pool) {
            Some(pool) => LendCash::derived(pool.amm, pool.mint_a, ctx.lender),
            None => None,
        }
    }

    /// Whether the roles of the accounts are held by different addresses: the
    /// two mints differ, and the holder is not the pool authority.
    pub open spec fn separate(self) -> bool {
        &&& self.cash_token_mint != self.s_cash_token_mint
        &&& self.lender != self.pool_authority
    }

    /// The addresses at which a request on these accounts writes.
    pub open spec fn written(self) -> Set<Address> {
        set![
            self.lender_cash_token,
            self.pool_account_cash,
            self.lender_scash_token,
            self.s_cash_token_mint,
        ]
    }

    /// Derives the accounts of a holder of cash in the cash pool of an AMM and a base asset.
    pub fn derive(amm: &Address, mint_a: &Address, lender: &Address) -> (found: Option<LendCash>)
        ensures
            found == LendCash::derived(*amm, *mint_a, *lender),
            found matches Some(ctx) ==> keyless(ctx.pool_authority),
    {
        let cash_pool = find_tagged_address(amm, mint_a, &CASH_POOL);
        let pool_authority = find_tagged_address(amm, mint_a, &AUTHORITY_SEED);
        let cash_mint = find_tagged_address(amm, mint_a, &CASH_TOKEN_SEED);
        let scash_mint = find_tagged_address(amm, mint_a, &SCASH_TOKEN_SEED);
        match (cash_pool, pool_authority, cash_mint, scash_mint) {
            (Some(cash_pool), Some(pool_authority), Some(cash_mint), Some(scash_mint)) => {
                let pool_account_cash = find_associated_token_address(&pool_authority, &cash_mint);
                let lender_cash_token = find_associated_token_address(lender, &cash_mint);
                let lender_scash_token = find_associated_token_address(lender, &scash_mint);
                match (pool_account_cash, lender_cash_token, lender_scash_token) {
                    (Some(pool_account_cash), Some(lender_cash_token), Some(lender_scash_token)) => Some(
                        LendCash {
                            mint_a: *mint_a,
                            cash_pool,
                            pool_authority,
                            pool_account_cash,
                            cash_token_mint: cash_mint,
                            s_cash_token_mint: scash_mint,
                            lender: *lender,
                            lender_cash_token,
                            lender_scash_token,
                        },
                    ),
                    _ => None,
                }
            },
            _ => None,
        }
    }

    /// Whether two sets of accounts are the same, address by address.
    pub fn same(&self, other: &LendCash) -> (r: bool)
        ensures
            r == (*self == *other),
    {
        self.mint_a.same(&other.mint_a) && self.cash_pool.same(&other.cash_pool)
            && self.pool_authority.same(&other.pool_authority) && self.pool_account_cash.same(
            &other.pool_account_cash,
        ) && self.cash_token_mint.same(&other.cash_token_mint) && self.s_cash_token_mint.same(
            &other.s_cash_token_mint,
        ) && self.lender.same(&other.lender) && self.lender_cash_token.same(&other.lender_cash_token)
            && self.lender_scash_token.same(&other.lender_scash_token)
    }

    /// Whether the roles of the accounts are held by different addresses.
    pub fn is_separate(&self) -> (r: bool)
        ensures
            r == self.separate(),
    {
        !self.cash_token_mint.same(&self.s_cash_token_mint) && !self.lender.same(&self.pool_authority)
    }
}

/// What is wrong with the records behind the accounts of a request to lend
/// cash. The pool's custody and the holder's scash balance may be absent:
/// they are opened on first use.
pub open spec fn lend_cash_accounts_fault(s: State, ctx: LendCash) -> Option<AccountError> {
    first_fault(
        pool_mint_fault(s, ctx.cash_token_mint, ctx.pool_authority),
        first_fault(
            pool_mint_fault(s, ctx.s_cash_token_mint, ctx.pool_authority),
            first_fault(
                fresh_balance_fault(s, ctx.pool_account_cash, ctx.cash_token_mint, ctx.pool_authority),
                first_fault(
                    balance_fault(s, ctx.lender_cash_token, ctx.cash_token_mint, ctx.lender),
                    fresh_balance_fault(s, ctx.lender_scash_token, ctx.s_cash_token_mint, ctx.lender),
                ),
            ),
        ),
    )
}

/// The contents with the pool's custody of cash and the holder's scash balance in place.
pub open spec fn lend_cash_provided(s: State, ctx: LendCash) -> State {
    provided(
        provided(s, ctx.pool_account_cash, ctx.cash_token_mint, ctx.pool_authority),
        ctx.lender_scash_token,
        ctx.s_cash_token_mint,
        ctx.lender,
    )
}

/// The steps of lending cash on accepted accounts. Where the holder has less
/// cash than the amount, the request is refused for want of balance. Else the
/// cash moves into the pool's custody, and the same amount of scash is issued
/// to the holder, whose scash balance is locked.
pub open spec fn lend_cash_steps(s: State, ctx: LendCash, amount: u64) -> Result<State, LendError> {
    if balance_at(s, ctx.lender_cash_token) < amount {
        Err(LendError::InsufficientBalance)
    } else {
        match transfer_outcome(
            lend_cash_provided(s, ctx),
            ctx.lender_cash_token,
            ctx.pool_account_cash,
            ctx.lender,
            amount,
        ) {
            Err(e) => Err(LendError::Token(e)),
            Ok(moved) => match mint_and_freeze_outcome(
                moved,
                ctx.s_cash_token_mint,
                ctx.lender_scash_token,
                ctx.pool_authority,
                amount,
            ) {
                Err(e) => Err(LendError::Token(e)),
                Ok(issued) => Ok(issued),
            },
        }
    }
}

/// What a request to lend `amount` of cash comes to, given the accounts that
/// the seed scheme derives for it.
pub open spec fn lend_cash_outcome(
    s: State,
    ctx: LendCash,
    expected: Option<LendCash>,
    amount: u64,
) -> Result<State, LendError> {
    match pool_at(s, ctx.cash_pool) {
        None => Err(LendError::Accounts(AccountError::NotFound)),
        Some(pool) => if expected != Some(ctx) || !ctx.separate() {
            Err(LendError::Accounts(AccountError::SeedMismatch))
        } else {
            match lend_cash_accounts_fault(s, ctx) {
                Some(fault) => Err(LendError::Accounts(fault)),
                None => lend_cash_steps(s, ctx, amount),
            }
        },
    }
}

/// What lending `amount` of cash changes: the holder's cash falls and the
/// pool's custody rises by the amount, the holder's scash and the scash
/// supply rise by the amount, and the scash balance is locked. Nothing
/// changes at any other address.
pub open spec fn lent_cash(before: State, after: State, ctx: LendCash, amount: u64) -> bool {
    &&& balance_at(after, ctx.lender_cash_token) == balance_at(before, ctx.lender_cash_token) - amount
    &&& balance_at(after, ctx.pool_account_cash) == balance_at(before, ctx.pool_account_cash) + amount
    &&& balance_at(after, ctx.lender_scash_token) == balance_at(before, ctx.lender_scash_token)
        + amount
    &&& supply_at(after, ctx.s_cash_token_mint) == supply_at(before, ctx.s_cash_token_mint) + amount
    &&& supply_at(after, ctx.cash_token_mint) == supply_at(before, ctx.cash_token_mint)
    &&& token_at(after, ctx.lender_scash_token) matches Some(scash) && scash.locked
    &&& same_outside(before, after, ctx.written())
}

/// Every request to lend cash that succeeds changes the balances as `lent_cash` says.
pub proof fn lemma_lend_cash_balances(s: State, ctx: LendCash, expected: Option<LendCash>, amount: u64)
    requires
        lend_cash_outcome(s, ctx, expected, amount) is Ok,
    ensures
        lent_cash(s, lend_cash_outcome(s, ctx, expected, amount)->Ok_0, ctx, amount),
{
    assert(lend_cash_accounts_fault(s, ctx) is None);
    assert(ctx.lender_cash_token != ctx.pool_account_cash);
    assert(ctx.lender_scash_token != ctx.lender_cash_token);
    assert(ctx.lender_scash_token != ctx.pool_account_cash);
}

/// Lends `amount` of cash into the cash pool, given the accounts that the
/// seed scheme derives for the request. The request is refused, and the
/// ledger left as it was, unless the presented accounts are the derived ones.
pub fn lend_cash_expecting(
    ledger: &mut Ledger,
    ctx: &LendCash,
    expected: &Option<LendCash>,
    amount: u64,
) -> (reported: Result<(), LendError>)
    ensures
        settles(
            lend_cash_outcome(old(ledger)@, *ctx, *expected, amount),
            old(ledger)@,
            final(ledger)@,
            reported,
        ),
        reported is Ok ==> lent_cash(old(ledger)@, final(ledger)@, *ctx, amount),
{
    proof {
        if lend_cash_outcome(old(ledger)@, *ctx, *expected, amount) is Ok {
            lemma_lend_cash_balances(old(ledger)@, *ctx, *expected, amount);
        }
    }
    if ledger.pool(&ctx.cash_pool).is_none() {
        return Err(LendError::Accounts(AccountError::NotFound));
    }
    let derived = match expected {
        Some(derived) => derived.same(ctx),
        None => false,
    };
    if !derived || !ctx.is_separate() {
        return Err(LendError::Accounts(AccountError::SeedMismatch));
    }
    if let Some(fault) = ledger.pool_mint_fault(&ctx.cash_token_mint, &ctx.pool_authority) {
        return Err(LendError::Accounts(fault));
    }
    if let Some(fault) = ledger.pool_mint_fault(&ctx.s_cash_token_mint, &ctx.pool_authority) {
        return Err(LendError::Accounts(fault));
    }
    if let Some(fault) = ledger.fresh_balance_fault(
        &ctx.pool_account_cash,
        &ctx.cash_token_mint,
        &ctx.pool_authority,
    ) {
        return Err(LendError::Accounts(fault));
    }
    let source = match ledger.token(&ctx.lender_cash_token) {
        Some(source) => source,
        None => { return Err(LendError::Accounts(AccountError::NotFound)); },
    };
    if let Some(fault) = ledger.balance_fault(&ctx.lender_cash_token, &ctx.cash_token_mint, &ctx.lender) {
        return Err(LendError::Accounts(fault));
    }
    if let Some(fault) = ledger.fresh_balance_fault(
        &ctx.lender_scash_token,
        &ctx.s_cash_token_mint,
        &ctx.lender,
    ) {
        return Err(LendError::Accounts(fault));
    }
    if source.amount < amount {
        return Err(LendError::InsufficientBalance);
    }
    let mut work = ledger.duplicate();
    work.provide(&ctx.pool_account_cash, &ctx.cash_token_mint, &ctx.pool_authority);
    work.provide(&ctx.lender_scash_token, &ctx.s_cash_token_mint, &ctx.lender);
    if let Err(e) = work.transfer(&ctx.lender_cash_token, &ctx.pool_account_cash, &ctx.lender, amount) {
        return Err(LendError::Token(e));
    }
    if let Err(e) = work.mint_and_freeze(
        &ctx.s_cash_token_mint,
        &ctx.lender_scash_token,
        &ctx.pool_authority,
        amount,
    ) {
        return Err(LendError::Token(e));
    }
    *ledger = work;
    Ok(())
}

/// Lends `amount` of cash into the cash pool that the request names. The
/// working accounts are derived again from the seed scheme, and the request is
/// refused, with the ledger left as it was, unless the presented accounts are
/// the derived ones.
pub fn lend_cash(ledger: &mut Ledger, ctx: &LendCash, amount: u64) -> (reported: Result<(), LendError>)
    ensures
        settles(
            lend_cash_outcome(old(ledger)@, *ctx, LendCash::expected(old(ledger)@, *ctx), amount),
            old(ledger)@,
            final(ledger)@,
            reported,
        ),
        reported is Ok ==> lent_cash(old(ledger)@, final(ledger)@, *ctx, amount),
{
    let expected = match ledger.pool(&ctx.cash_pool) {
        Some(pool) => LendCash::derive(&pool.amm, &pool.mint_a, &ctx.lender),
        None => None,
    };
    lend_cash_expecting(ledger, ctx, &expected, amount)
}

} // verus!
