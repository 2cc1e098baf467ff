//! Redeeming: receipts and cash are surrendered and the principal is released.

use crate::accounts::{balance_fault, first_fault, pool_mint_fault, AccountError};
use crate::address::{keyless, Address};
use crate::constants::{cash_amount, spec_cash_amount};
use crate::instructions::lend::Lend;
use crate::ledger::Ledger;
use crate::state::{balance_at, pool_at, same_outside, supply_at, State};
use crate::token::{burn_outcome, settles, transfer_outcome, TokenError};
use vstd::prelude::*;

verus! {

/// The accounts that a lender presents to redeem from a pool.
#[derive(Clone, Copy, Debug, PartialEq, Eq)]
pub struct Redeem {
    /// Record of the pool.
    pub pool: Address,
    /// Authority over the pool's mints and custody.
    pub pool_authority: Address,
    /// Mint of the base asset.
    pub mint_a: Address,
    /// The pool's custody balance of the base asset.
    pub pool_account_a: Address,
    /// Mint of the receipt token.
    pub lending_receipt_token_mint: Address,
    /// The lender, in whose name the request is made.
    pub lender: Address,
    /// The lender's balance of the base asset.
    pub lender_token_a: Address,
    /// Authority over the lender's receipt slot.
    pub lender_authority: Address,
    /// The lender's receipt slot.
    pub lender_lend_receipt_token: Address,
    /// Mint of the cash token.
    pub cash_token_mint: Address,
    /// The lender's balance of the cash token.
    pub lender_cash_token: Address,
}

/// Why a request to redeem was refused.
#[derive(Clone, Copy, Debug, PartialEq, Eq)]
pub enum RedeemError {
    /// Reserved; no operation reports it.
    CalculationError,
    /// The presented accounts were refused.
    Accounts(AccountError),
    /// The token primitive refused a step.
    Token(TokenError),
}

impl RedeemError {
    /// The refusal in words.
    pub open spec fn spec_message(&self) -> Seq<char> {
        match self {
            RedeemError::CalculationError => "Calculation error"@,
            RedeemError::Accounts(fault) => fault.spec_message(),
            RedeemError::Token(fault) => fault.spec_message(),
        }
    }

    /// The refusal in words.
    pub fn message(&self) -> (text: &'static str)
        ensures
            text@ == self.spec_message(),
    {
        match self {
            RedeemError::CalculationError => "Calculation error",
            RedeemError::Accounts(fault) => fault.message(),
            RedeemError::Token(fault) => fault.message(),
        }
    }
}

impl Redeem {
    /// The accounts of a lender in a pool, with the mint of the pool's base asset.
    pub open spec fn spec_of(accounts: Lend, mint_a: Address) -> Redeem {
        Redeem {
            pool: accounts.pool,
            pool_authority: accounts.pool_authority,
            mint_a,
            pool_account_a: accounts.pool_account_a,
            lending_receipt_token_mint: accounts.lending_receipt_token_mint,
            lender: accounts.lender,
            lender_token_a: accounts.lender_token_a,
            lender_authority: accounts.lender_authority,
            lender_lend_receipt_token: accounts.lender_lend_receipt_token,
            cash_token_mint: accounts.cash_token_mint,
            lender_cash_token: accounts.lender_cash_token,
        }
    }

    /// The accounts of a lender in a pool, with the mint of the pool's base asset.
    #[verifier::when_used_as_spec(spec_of)]
    pub fn of(accounts: Lend, mint_a: Address) -> (ctx: Redeem)
        ensures
            ctx == Redeem::spec_of(accounts, mint_a),
    {
        Redeem {
            pool: accounts.pool,
            pool_authority: accounts.pool_authority,
            mint_a,
            pool_account_a: accounts.pool_account_a,
            lending_receipt_token_mint: accounts.lending_receipt_token_mint,
            lender: accounts.lender,
            lender_token_a: accounts.lender_token_a,
            lender_authority: accounts.lender_authority,
            lender_lend_receipt_token: accounts.lender_lend_receipt_token,
            cash_token_mint: accounts.cash_token_mint,
            lender_cash_token: accounts.lender_cash_token,
        }
    }

    /// The same accounts as a lender presents them to lend.
    pub open spec fn spec_accounts(&self) -> Lend {
        Lend {
            pool: self.pool,
            pool_authority: self.pool_authority,
            pool_account_a: self.pool_account_a,
            lending_receipt_token_mint: self.lending_receipt_token_mint,
            cash_token_mint: self.cash_token_mint,
            lender: self.lender,
            lender_token_a: self.lender_token_a,
            lender_authority: self.lender_authority,
            lender_lend_receipt_token: self.lender_lend_receipt_token,
            lender_cash_token: self.lender_cash_token,
        }
    }

    /// The same accounts as a lender presents them to lend.
    #[verifier::when_used_as_spec(spec_accounts)]
    pub fn accounts(&self) -> (accounts: Lend)
        ensures
            accounts == self.spec_accounts(),
    {
        Lend {
            pool: self.pool,
            pool_authority: self.pool_authority,
            pool_account_a: self.pool_account_a,
            lending_receipt_token_mint: self.lending_receipt_token_mint,
            cash_token_mint: self.cash_token_mint,
            lender: self.lender,
            lender_token_a: self.lender_token_a,
            lender_authority: self.lender_authority,
            lender_lend_receipt_token: self.lender_lend_receipt_token,
            lender_cash_token: self.lender_cash_token,
        }
    }

    /// The accounts that the seed scheme derives for a lender in the pool of
    /// an AMM and a base asset; `None` where a derivation fails.
    pub open spec fn derived(amm: Address, mint_a: Address, lender: Address) -> Option<Redeem> {
        match Lend::derived(amm, mint_a, lender) {
            Some(accounts) => Some(Redeem::spec_of(accounts, mint_a)),
            None => None,
        }
    }

    /// The accounts that the seed scheme derives for the lender of a request
    /// in the pool that the request names.
    pub open spec fn expected(s: State, ctx: Redeem) -> Option<Redeem> {
        match pool_at(s, ctx.pool) {
            Some(pool) => Redeem::derived(pool.amm, pool.mint_a, ctx.lender),
            None => None,
        }
    }

    /// The addresses at which a request on these accounts writes.
    pub open spec fn written(self) -> Set<Address> {
        self.spec_accounts().written()
    }

    /// Derives the accounts of a lender in the pool of an AMM and a base asset.
    pub fn derive(amm: &Address, mint_a: &Address, lender: &Address) -> (found: Option<Redeem>)
        ensures
            found == Redeem::derived(*amm, *mint_a, *lender),
            found matches Some(ctx) ==> keyless(ctx.pool_authority) && keyless(ctx.lender_authority),
    {
        match Lend::derive(amm, mint_a, lender) {
            Some(accounts) => Some(Redeem::of(accounts, *mint_a)),
            None => None,
        }
    }

    /// Whether two sets of accounts are the same, address by address.
    pub fn same(&self, other: &Redeem) -> (r: bool)
        ensures
            r == (*self == *other),
    {
        self.mint_a.same(&other.mint_a) && self.accounts().same(&other.accounts())
    }
}

/// What is wrong with the records behind the accounts of a request to redeem.
pub open spec fn redeem_accounts_fault(s: State, ctx: Redeem) -> Option<AccountError> {
    first_fault(
        balance_fault(s, ctx.pool_account_a, ctx.mint_a, ctx.pool_authority),
        first_fault(
            pool_mint_fault(s, ctx.lending_receipt_token_mint, ctx.pool_authority),
            first_fault(
                balance_fault(s, ctx.lender_token_a, ctx.mint_a, ctx.lender),
                first_fault(
                    balance_fault(
                        s,
                        ctx.lender_lend_receipt_token,
                        ctx.lending_receipt_token_mint,
                        ctx.lender_authority,
                    ),
                    first_fault(
                        pool_mint_fault(s, ctx.cash_token_mint, ctx.pool_authority),
                        balance_fault(s, ctx.lender_cash_token, ctx.cash_token_mint, ctx.lender),
                    ),
                ),
            ),
        ),
    )
}

/// The receipts that a request to redeem surrenders: all that the slot holds.
pub open spec fn redeemable(s: State, ctx: Redeem) -> u64 {
    balance_at(s, ctx.lender_lend_receipt_token) as u64
}

/// The steps of redeeming on accepted accounts. Where the lender holds less
/// cash than stands for the receipts of the slot, the request is refused for
/// want of balance, as the token primitive refuses the burn. Else all
/// receipts of the slot are burned in the name of the lender authority, the
/// cash for them is burned from the lender's balance, and the same amount of
/// principal as receipts moves from the pool's custody back to the lender.
pub open spec fn redeem_steps(s: State, ctx: Redeem) -> Result<State, RedeemError> {
    let amount = redeemable(s, ctx);
    if balance_at(s, ctx.lender_cash_token) < spec_cash_amount(amount) {
        Err(RedeemError::Token(TokenError::InsufficientBalance))
    } else {
        match burn_outcome(
            s,
            ctx.lending_receipt_token_mint,
            ctx.lender_lend_receipt_token,
            ctx.lender_authority,
            amount,
        ) {
            Err(e) => Err(RedeemError::Token(e)),
            Ok(surrendered) => match burn_outcome(
                surrendered,
                ctx.cash_token_mint,
                ctx.lender_cash_token,
                ctx.lender,
                spec_cash_amount(amount),
            ) {
                Err(e) => Err(RedeemError::Token(e)),
                Ok(paid) => match transfer_outcome(
                    paid,
                    ctx.pool_account_a,
                    ctx.lender_token_a,
                    ctx.pool_authority,
                    amount,
                ) {
                    Err(e) => Err(RedeemError::Token(e)),
                    Ok(released) => Ok(released),
                },
            },
        }
    }
}

/// What a request to redeem comes to, given the accounts that the seed scheme
/// derives for it.
pub open spec fn redeem_outcome(
    s: State,
    ctx: Redeem,
    expected: Option<Redeem>,
) -> Result<State, RedeemError> {
    match pool_at(s, ctx.pool) {
        None => Err(RedeemError::Accounts(AccountError::NotFound)),
        Some(pool) => if expected != Some(ctx) || ctx.mint_a != pool.mint_a
            || !ctx.spec_accounts().separate(ctx.mint_a) {
            Err(RedeemError::Accounts(AccountError::SeedMismatch))
        } else {
            match redeem_accounts_fault(s, ctx) {
                Some(fault) => Err(RedeemError::Accounts(fault)),
                None => redeem_steps(s, ctx),
            }
        },
    }
}

/// What redeeming changes, for the receipts `amount` that the slot held: the
/// slot is empty, the receipt supply has fallen by the amount, the lender's
/// cash and the cash supply have fallen by the cash for the amount, and the
/// amount has moved from the pool's custody to the lender. Nothing changes at
/// any other address.
pub open spec fn redeemed(before: State, after: State, ctx: Redeem) -> bool {
    let amount = redeemable(before, ctx);
    &&& balance_at(after, ctx.lender_lend_receipt_token) == 0
    &&& supply_at(after, ctx.lending_receipt_token_mint) == supply_at(
        before,
        ctx.lending_receipt_token_mint,
    ) - amount
    &&& balance_at(after, ctx.lender_cash_token) == balance_at(before, ctx.lender_cash_token)
        - spec_cash_amount(amount)
    &&& supply_at(after, ctx.cash_token_mint) == supply_at(before, ctx.cash_token_mint)
        - spec_cash_amount(amount)
    &&& balance_at(after, ctx.pool_account_a) == balance_at(before, ctx.pool_account_a) - amount
    &&& balance_at(after, ctx.lender_token_a) == balance_at(before, ctx.lender_token_a) + amount
    &&& same_outside(before, after, ctx.written())
}

/// Every request to redeem that succeeds changes the balances as `redeemed` says.
pub proof fn lemma_redeem_balances(s: State, ctx: Redeem, expected: Option<Redeem>)
    requires
        redeem_outcome(s, ctx, expected) is Ok,
    ensures
        redeemed(s, redeem_outcome(s, ctx, expected)->Ok_0, ctx),
{
    assert(redeem_accounts_fault(s, ctx) is None);
    assert(ctx.lender_token_a != ctx.pool_account_a);
    assert(ctx.lender_lend_receipt_token != ctx.lender_cash_token);
}

/// A request to redeem on accepted accounts is refused for want of balance
/// where the lender holds less cash than stands for the receipts of the slot,
/// and the ledger is then left as it was.
pub proof fn lemma_redeem_needs_cash(s: State, ctx: Redeem, expected: Option<Redeem>)
    requires
        pool_at(s, ctx.pool) is Some,
        expected == Some(ctx),
        ctx.mint_a == pool_at(s, ctx.pool)->Some_0.mint_a,
        ctx.spec_accounts().separate(ctx.mint_a),
        redeem_accounts_fault(s, ctx) is None,
        balance_at(s, ctx.lender_cash_token) < spec_cash_amount(redeemable(s, ctx)),
    ensures
        redeem_outcome(s, ctx, expected) == Err::<State, RedeemError>(
            RedeemError::Token(TokenError::InsufficientBalance),
        ),
{
}

/// Redeems all receipts of the lender's slot, given the accounts that the
/// seed scheme derives for the request. The request is refused, and the
/// ledger left as it was, unless the presented accounts are the derived ones.
pub fn redeem_expecting(
    ledger: &mut Ledger,
    ctx: &Redeem,
    expected: &Option<Redeem>,
) -> (reported: Result<(), RedeemError>)
    ensures
        settles(redeem_outcome(old(ledger)@, *ctx, *expected), old(ledger)@, final(ledger)@, reported),
        reported is Ok ==> redeemed(old(ledger)@, final(ledger)@, *ctx),
{
    proof {
        if redeem_outcome(old(ledger)@, *ctx, *expected) is Ok {
            lemma_redeem_balances(old(ledger)@, *ctx, *expected);
        }
    }
    let pool = match ledger.pool(&ctx.pool) {
        Some(pool) => pool,
        None => { return Err(RedeemError::Accounts(AccountError::NotFound)); },
    };
    let derived = match expected {
        Some(derived) => derived.same(ctx),
        None => false,
    };
    if !derived || !ctx.mint_a.same(&pool.mint_a) || !ctx.accounts().is_separate(&ctx.mint_a) {
        return Err(RedeemError::Accounts(AccountError::SeedMismatch));
    }
    if let Some(fault) = ledger.balance_fault(&ctx.pool_account_a, &ctx.mint_a, &ctx.pool_authority) {
        return Err(RedeemError::Accounts(fault));
    }
    if let Some(fault) = ledger.pool_mint_fault(&ctx.lending_receipt_token_mint, &ctx.pool_authority) {
        return Err(RedeemError::Accounts(fault));
    }
    if let Some(fault) = ledger.balance_fault(&ctx.lender_token_a, &ctx.mint_a, &ctx.lender) {
        return Err(RedeemError::Accounts(fault));
    }
    let slot = match ledger.token(&ctx.lender_lend_receipt_token) {
        Some(slot) => slot,
        None => { return Err(RedeemError::Accounts(AccountError::NotFound)); },
    };
    if let Some(fault) = ledger.balance_fault(
        &ctx.lender_lend_receipt_token,
        &ctx.lending_receipt_token_mint,
        &ctx.lender_authority,
    ) {
        return Err(RedeemError::Accounts(fault));
    }
    if let Some(fault) = ledger.pool_mint_fault(&ctx.cash_token_mint, &ctx.pool_authority) {
        return Err(RedeemError::Accounts(fault));
    }
    let cash = match ledger.token(&ctx.lender_cash_token) {
        Some(cash) => cash,
        None => { return Err(RedeemError::Accounts(AccountError::NotFound)); },
    };
    if let Some(fault) = ledger.balance_fault(&ctx.lender_cash_token, &ctx.cash_token_mint, &ctx.lender) {
        return Err(RedeemError::Accounts(fault));
    }
    let amount = slot.amount;
    if cash.amount < cash_amount(amount) {
        return Err(RedeemError::Token(TokenError::InsufficientBalance));
    }
    let mut work = ledger.duplicate();
    if let Err(e) = work.burn(
        &ctx.lending_receipt_token_mint,
        &ctx.lender_lend_receipt_token,
        &ctx.lender_authority,
        amount,
    ) {
        return Err(RedeemError::Token(e));
    }
    if let Err(e) = work.burn(&ctx.cash_token_mint, &ctx.lender_cash_token, &ctx.lender, cash_amount(amount)) {
        return Err(RedeemError::Token(e));
    }
    if let Err(e) = work.transfer(&ctx.pool_account_a, &ctx.lender_token_a, &ctx.pool_authority, amount) {
        return Err(RedeemError::Token(e));
    }
    *ledger = work;
    Ok(())
}

/// Redeems all receipts of the lender's slot in the pool that the request
/// names. The working accounts are derived again from the seed scheme, and
/// the request is refused, with the ledger left as it was, unless the
/// presented accounts are the derived ones.
pub fn redeem(ledger: &mut Ledger, ctx: &Redeem) -> (reported: Result<(), RedeemError>)
    ensures
        settles(
            redeem_outcome(old(ledger)@, *ctx, Redeem::expected(old(ledger)@, *ctx)),
            old(ledger)@,
            final(ledger)@,
            reported,
        ),
        reported is Ok ==> redeemed(old(ledger)@, final(ledger)@, *ctx),
{
    let expected = match ledger.pool(&ctx.pool) {
        Some(pool) => Redeem::derive(&pool.amm, &pool.mint_a, &ctx.lender),
        None => None,
    };
    redeem_expecting(ledger, ctx, &expected)
}

} // verus!
