//! Redeeming cash: scash is surrendered and the cash behind it is released.

use crate::accounts::{balance_fault, first_fault, pool_mint_fault, AccountError};
use crate::address::{keyless, Address};
use crate::instructions::lendcash::LendCash;
use crate::instructions::redeem::RedeemError;
use crate::ledger::Ledger;
use crate::state::{balance_at, pool_at, same_outside, supply_at, State};
use crate::token::{burn_outcome, settles, transfer_outcome};
use vstd::prelude::*;

verus! {

/// The accounts that a holder of scash presents to redeem it from the cash pool.
#[derive(Clone, Copy, Debug, PartialEq, Eq)]
pub struct RedeemCash {
    /// Record of the cash pool.
    pub cash_pool: Address,
    /// Authority over the pool's mints and custody.
    pub pool_authority: Address,
    /// The cash pool's custody balance of cash.
    pub pool_account_cash: Address,
    /// Mint of the cash token.
    pub cash_token_mint: Address,
    /// Mint of the scash token.
    pub s_cash_token_mint: Address,
    /// The holder, in whose name the request is made.
    pub lender: Address,
    /// The holder's balance of cash.
    pub lender_cash_token: Address,
    /// The holder's balance of scash.
    pub lender_scash_token: Address,
}

impl RedeemCash {
    /// The accounts of a holder in the cash pool, as presented to redeem.
    pub open spec fn spec_of(accounts: LendCash) -> RedeemCash {
        RedeemCash {
            cash_pool: accounts.cash_pool,
            pool_authority: accounts.pool_authority,
            pool_account_cash: accounts.pool_account_cash,
            cash_token_mint: accounts.cash_token_mint,
            s_cash_token_mint: accounts.s_cash_token_mint,
            lender: accounts.lender,
            lender_cash_token: accounts.lender_cash_token,
            lender_scash_token: accounts.lender_scash_token,
        }
    }

    /// The accounts of a holder in the cash pool, as presented to redeem.
    #[verifier::when_used_as_spec(spec_of)]
    pub fn of(accounts: LendCash) -> (ctx: RedeemCash)
        ensures
            ctx == RedeemCash::spec_of(accounts),
    {
        RedeemCash {
            cash_pool: accounts.cash_pool,
            pool_authority: accounts.pool_authority,
            pool_account_cash: accounts.pool_account_cash,
            cash_token_mint: accounts.cash_token_mint,
            s_cash_token_mint: accounts.s_cash_token_mint,
            lender: accounts.lender,
            lender_cash_token: accounts.lender_cash_token,
            lender_scash_token: accounts.lender_scash_token,
        }
    }

    /// The accounts that the seed scheme derives for a holder of scash in the
    /// cash pool of an AMM and a base asset; `None` where a derivation fails.
    pub open spec fn derived(amm: Address, mint_a: Address, lender: Address) -> Option<RedeemCash> {
        match LendCash::derived(amm, mint_a, lender) {
            Some(accounts) => Some(RedeemCash::spec_of(accounts)),
            None => None,
        }
    }

    /// The accounts that the seed scheme derives for the holder of a request
    /// in the cash pool that the request names.
    pub open spec fn expected(s: State, ctx: RedeemCash) -> Option<RedeemCash> {
        match pool_at(s, ctx.cash_pool) {
            Some(pool) => RedeemCash::derived(pool.amm, pool.mint_a, ctx.lender),
            None => None,
        }
    }

    /// Whether the roles of the accounts are held by different addresses: the
    /// two mints differ, and the holder is not the pool authority.
    pub open spec fn separate(self) -> bool {
        &&& self.cash_token_mint != self.s_cash_token_mint
        &&& self.lender != self.pool_authority
    }

    /// The addresses at which a request on these accounts writes.
    pub open spec fn written(self) -> Set<Address> {
        set![
            self.lender_cash_token,
            self.pool_account_cash,
            self.lender_scash_token,
            self.s_cash_token_mint,
        ]
    }

    /// Derives the accounts of a holder of scash in the cash pool of an AMM and a base asset.
    pub fn derive(amm: &Address, mint_a: &Address, lender: &Address) -> (found: Option<RedeemCash>)
        ensures
            found == RedeemCash::derived(*amm, *mint_a, *lender),
            found matches Some(ctx) ==> keyless(ctx.pool_authority),
    {
        match LendCash::derive(amm, mint_a, lender) {
            Some(accounts) => Some(RedeemCash::of(accounts)),
            None => None,
        }
    }

    /// Whether two sets of accounts are the same, address by address.
    pub fn same(&self, other: &RedeemCash) -> (r: bool)
        ensures
            r == (*self == *other),
    {
        self.cash_pool.same(&other.cash_pool) && self.pool_authority.same(&other.pool_authority)
            && self.pool_account_cash.same(&other.pool_account_cash) && self.cash_token_mint.same(
            &other.cash_token_mint,
        ) && self.s_cash_token_mint.same(&other.s_cash_token_mint) && self.lender.same(&other.lender)
            && self.lender_cash_token.same(&other.lender_cash_token) && self.lender_scash_token.same(
            &other.lender_scash_token,
        )
    }

    /// Whether the roles of the accounts are held by different addresses.
    pub fn is_separate(&self) -> (r: bool)
        ensures
            r == self.separate(),
    {
        !self.cash_token_mint.same(&self.s_cash_token_mint) && !self.lender.same(&self.pool_authority)
    }
}

/// What is wrong with the records behind the accounts of a request to redeem cash.
pub open spec fn redeem_cash_accounts_fault(s: State, ctx: RedeemCash) -> Option<AccountError> {
    first_fault(
        pool_mint_fault(s, ctx.cash_token_mint, ctx.pool_authority),
        first_fault(
            pool_mint_fault(s, ctx.s_cash_token_mint, ctx.pool_authority),
            first_fault(
                balance_fault(s, ctx.pool_account_cash, ctx.cash_token_mint, ctx.pool_authority),
                first_fault(
                    balance_fault(s, ctx.lender_cash_token, ctx.cash_token_mint, ctx.lender),
                    balance_fault(s, ctx.lender_scash_token, ctx.s_cash_token_mint, ctx.lender),
                ),
            ),
        ),
    )
}

/// The scash that a request to redeem cash surrenders: all that the holder has.
pub open spec fn redeemable_cash(s: State, ctx: RedeemCash) -> u64 {
    balance_at(s, ctx.lender_scash_token) as u64
}

/// The steps of redeeming cash on accepted accounts: all scash of the holder
/// is burned, and the same amount of cash moves from the pool's custody back
/// to the holder.
pub open spec fn redeem_cash_steps(s: State, ctx: RedeemCash) -> Result<State, RedeemError> {
    let amount = redeemable_cash(s, ctx);
    match burn_outcome(s, ctx.s_cash_token_mint, ctx.lender_scash_token, ctx.lender, amount) {
        Err(e) => Err(RedeemError::Token(e)),
        Ok(surrendered) => match transfer_outcome(
            surrendered,
            ctx.pool_account_cash,
            ctx.lender_cash_token,
            ctx.pool_authority,
            amount,
        ) {
            Err(e) => Err(RedeemError::Token(e)),
            Ok(released) => Ok(released),
        },
    }
}

/// What a request to redeem cash comes to, given the accounts that the seed
/// scheme derives for it.
pub open spec fn redeem_cash_outcome(
    s: State,
    ctx: RedeemCash,
    expected: Option<RedeemCash>,
) -> Result<State, RedeemError> {
    match pool_at(s, ctx.cash_pool) {
        None => Err(RedeemError::Accounts(AccountError::NotFound)),
        Some(pool) => if expected != Some(ctx) || !ctx.separate() {
            Err(RedeemError::Accounts(AccountError::SeedMismatch))
        } else {
            match redeem_cash_accounts_fault(s, ctx) {
                Some(fault) => Err(RedeemError::Accounts(fault)),
                None => redeem_cash_steps(s, ctx),
            }
        },
    }
}

/// What redeeming cash changes, for the scash `amount` that the holder had:
/// the scash balance is empty, the scash supply has fallen by the amount, and
/// the amount of cash has moved from the pool's custody to the holder.
/// Nothing changes at any other address.
pub open spec fn redeemed_cash(before: State, after: State, ctx: RedeemCash) -> bool {
    let amount = redeemable_cash(before, ctx);
    &&& balance_at(after, ctx.lender_scash_token) == 0
    &&& supply_at(after, ctx.s_cash_token_mint) == supply_at(before, ctx.s_cash_token_mint) - amount
    &&& supply_at(after, ctx.cash_token_mint) == supply_at(before, ctx.cash_token_mint)
    &&& balance_at(after, ctx.pool_account_cash) == balance_at(before, ctx.pool_account_cash) - amount
    &&& balance_at(after, ctx.lender_cash_token) == balance_at(before, ctx.lender_cash_token) + amount
    &&& same_outside(before, after, ctx.written())
}

/// Every request to redeem cash that succeeds changes the balances as
/// `redeemed_cash` says.
pub proof fn lemma_redeem_cash_balances(s: State, ctx: RedeemCash, expected: Option<RedeemCash>)
    requires
        redeem_cash_outcome(s, ctx, expected) is Ok,
    ensures
        redeemed_cash(s, redeem_cash_outcome(s, ctx, expected)->Ok_0, ctx),
{
    assert(redeem_cash_accounts_fault(s, ctx) is None);
    assert(ctx.lender_cash_token != ctx.pool_account_cash);
    assert(ctx.lender_scash_token != ctx.lender_cash_token);
    assert(ctx.lender_scash_token != ctx.pool_account_cash);
}

/// Redeems all scash of the holder, given the accounts that the seed scheme
/// derives for the request. The request is refused, and the ledger left as it
/// was, unless the presented accounts are the derived ones.
pub fn redeem_cash_expecting(
    ledger: &mut Ledger,
    ctx: &RedeemCash,
    expected: &Option<RedeemCash>,
) -> (reported: Result<(), RedeemError>)
    ensures
        settles(
            redeem_cash_outcome(old(ledger)@, *ctx, *expected),
            old(ledger)@,
            final(ledger)@,
            reported,
        ),
        reported is Ok ==> redeemed_cash(old(ledger)@, final(ledger)@, *ctx),
{
    proof {
        if redeem_cash_outcome(old(ledger)@, *ctx, *expected) is Ok {
            lemma_redeem_cash_balances(old(ledger)@, *ctx, *expected);
        }
    }
    if ledger.pool(&ctx.cash_pool).is_none() {
        return Err(RedeemError::Accounts(AccountError::NotFound));
    }
    let derived = match expected {
        Some(derived) => derived.same(ctx),
        None => false,
    };
    if !derived || !ctx.is_separate() {
        return Err(RedeemError::Accounts(AccountError::SeedMismatch));
    }
    if let Some(fault) = ledger.pool_mint_fault(&ctx.cash_token_mint, &ctx.pool_authority) {
        return Err(RedeemError::Accounts(fault));
    }
    if let Some(fault) = ledger.pool_mint_fault(&ctx.s_cash_token_mint, &ctx.pool_authority) {
        return Err(RedeemError::Accounts(fault));
    }
    if let Some(fault) = ledger.balance_fault(
        &ctx.pool_account_cash,
        &ctx.cash_token_mint,
        &ctx.pool_authority,
    ) {
        return Err(RedeemError::Accounts(fault));
    }
    if let Some(fault) = ledger.balance_fault(&ctx.lender_cash_token, &ctx.cash_token_mint, &ctx.lender) {
        return Err(RedeemError::Accounts(fault));
    }
    let scash = match ledger.token(&ctx.lender_scash_token) {
        Some(scash) => scash,
        None => { return Err(RedeemError::Accounts(AccountError::NotFound)); },
    };
    if let Some(fault) = ledger.balance_fault(&ctx.lender_scash_token, &ctx.s_cash_token_mint, &ctx.lender) {
        return Err(RedeemError::Accounts(fault));
    }
    let amount = scash.amount;
    let mut work = ledger.duplicate();
    if let Err(e) = work.burn(&ctx.s_cash_token_mint, &ctx.lender_scash_token, &ctx.lender, amount) {
        return Err(RedeemError::Token(e));
    }
    if let Err(e) = work.transfer(&ctx.pool_account_cash, &ctx.lender_cash_token, &ctx.pool_authority, amount) {
        return Err(RedeemError::Token(e));
    }
    *ledger = work;
    Ok(())
}

/// Redeems all scash of the holder in the cash pool that the request names.
/// The working accounts are derived again from the seed scheme, and the
/// request is refused, with the ledger left as it was, unless the presented
/// accounts are the derived ones.
pub fn redeem_cash(ledger: &mut Ledger, ctx: &RedeemCash) -> (reported: Result<(), RedeemError>)
    ensures
        settles(
            redeem_cash_outcome(old(ledger)@, *ctx, RedeemCash::expected(old(ledger)@, *ctx)),
            old(ledger)@,
            final(ledger)@,
            reported,
        ),
        reported is Ok ==> redeemed_cash(old(ledger)@, final(ledger)@, *ctx),
{
    let expected = match ledger.pool(&ctx.cash_pool) {
        Some(pool) => RedeemCash::derive(&pool.amm, &pool.mint_a, &ctx.lender),
        None => None,
    };
    redeem_cash_expecting(ledger, ctx, &expected)
}

} // verus!
