//! Lending: principal is locked in a pool against a receipt and cash.

use crate::accounts::{balance_fault, first_fault, fresh_balance_fault, pool_mint_fault, provided, AccountError};
use crate::address::{
    associated_token_address, cash_mint_address, find_associated_token_address, find_pool_address,
    find_tagged_address, keyless, lender_authority_address, pool_address, pool_authority_address,
    receipt_mint_address, Address,
};
use crate::constants::{cash_amount, spec_cash_amount, AUTHORITY_SEED, CASH_TOKEN_SEED, LENDING_TOKEN_SEED};
use crate::ledger::Ledger;
use crate::state::{balance_at, pool_at, same_outside, supply_at, token_at, State};
use crate::token::{mint_and_freeze_outcome, settles, transfer_outcome, TokenError};
use vstd::prelude::*;

verus! {

/// The accounts that a lender presents to lend into a pool, or to redeem from it.
#[derive(Clone, Copy, Debug, PartialEq, Eq)]
pub struct Lend {
    /// Record of the pool.
    pub pool: Address,
    /// Authority over the pool's mints and custody.
    pub pool_authority: Address,
    /// The pool's custody balance of the base asset.
    pub pool_account_a: Address,
    /// Mint of the receipt token.
    pub lending_receipt_token_mint: Address,
    /// Mint of the cash token.
    pub cash_token_mint: Address,
    /// The lender, in whose name the request is made.
    pub lender: Address,
    /// The lender's balance of the base asset.
    pub lender_token_a: Address,
    /// Authority over the lender's receipt slot.
    pub lender_authority: Address,
    /// The lender's receipt slot: a balance of the receipt token under the lender authority.
    pub lender_lend_receipt_token: Address,
    /// The lender's balance of the cash token.
    pub lender_cash_token: Address,
}

/// Why a request to lend was refused.
#[derive(Clone, Copy, Debug, PartialEq, Eq)]
pub enum LendError {
    /// Reserved; no operation reports it.
    ExistingLending,
    /// The lender holds less than the amount to lend.
    InsufficientBalance,
    /// The presented accounts were refused.
    Accounts(AccountError),
    /// The token primitive refused a step.
    Token(TokenError),
}

impl LendError {
    /// The refusal in words.
    pub open spec fn spec_message(&self) -> Seq<char> {
        match self {
            LendError::ExistingLending => "Existing lending"@,
            LendError::InsufficientBalance => "Insufficient balance"@,
            LendError::Accounts(fault) => fault.spec_message(),
            LendError::Token(fault) => fault.spec_message(),
        }
    }

    /// The refusal in words.
    pub fn message(&self) -> (text: &'static str)
        ensures
            text@ == self.spec_message(),
    {
        match self {
            LendError::ExistingLending => "Existing lending",
            LendError::InsufficientBalance => "Insufficient balance",
            LendError::Accounts(fault) => fault.message(),
            LendError::Token(fault) => fault.message(),
        }
    }
}

impl Lend {
    /// The accounts that the seed scheme derives for a lender in the pool of
    /// an AMM and a base asset; `None` where a derivation fails.
    pub open spec fn derived(amm: Address, mint_a: Address, lender: Address) -> Option<Lend> {
        match (
            pool_address(amm, mint_a),
            pool_authority_address(amm, mint_a),
            receipt_mint_address(amm, mint_a),
            cash_mint_address(amm, mint_a),
        ) {
            (Some(pool), Some(pool_authority), Some(receipt_mint), Some(cash_mint)) => match (
                associated_token_address(pool_authority, mint_a),
                associated_token_address(lender, mint_a),
                lender_authority_address(pool, lender),
                associated_token_address(lender, cash_mint),
            ) {
                (
                    Some(pool_account_a),
                    Some(lender_token_a),
                    Some(lender_authority),
                    Some(lender_cash_token),
                ) => match associated_token_address(lender_authority, receipt_mint) {
                    Some(lender_lend_receipt_token) => Some(
                        Lend {
                            pool,
                            pool_authority,
                            pool_account_a,
                            lending_receipt_token_mint: receipt_mint,
                            cash_token_mint: cash_mint,
                            lender,
                            lender_token_a,
                            lender_authority,
                            lender_lend_receipt_token,
                            lender_cash_token,
                        },
                    ),
                    None => None,
                },
                _ => None,
            },
            _ => None,
        }
    }

    /// The accounts that the seed scheme derives for the lender of a request
    /// in the pool that the request names.
    pub open spec fn expected(s: State, ctx: Lend) -> Option<Lend> {
        match pool_at(s, ctx.pool) {
            Some(pool) => Lend::derived(pool.amm, pool.mint_a, ctx.lender),
            None => None,
        }
    }

    /// Whether the roles of the accounts are held by different addresses: the
    /// three mints differ, and the lender and the two authorities differ.
    pub open spec fn separate(self, mint_a: Address) -> bool {
        &&& mint_a != self.lending_receipt_token_mint
        &&& mint_a != self.cash_token_mint
        &&& self.lending_receipt_token_mint != self.cash_token_mint
        &&& self.lender != self.pool_authority
        &&& self.lender != self.lender_authority
        &&& self.pool_authority != self.lender_authority
    }

    /// The addresses at which a request on these accounts writes.
    pub open spec fn written(self) -> Set<Address> {
        set![
            self.lender_token_a,
            self.pool_account_a,
            self.lender_lend_receipt_token,
            self.lender_cash_token,
            self.lending_receipt_token_mint,
            self.cash_token_mint,
        ]
    }

    /// Derives the accounts of a lender in the pool of an AMM and a base asset.
    pub fn derive(amm: &Address, mint_a: &Address, lender: &Address) -> (found: Option<Lend>)
        ensures
            found == Lend::derived(*amm, *mint_a, *lender),
            found matches Some(ctx) ==> keyless(ctx.pool_authority) && keyless(ctx.lender_authority),
    {
        let pool = find_pool_address(amm, mint_a);
        let pool_authority = find_tagged_address(amm, mint_a, &AUTHORITY_SEED);
        let receipt_mint = find_tagged_address(amm, mint_a, &LENDING_TOKEN_SEED);
        let cash_mint = find_tagged_address(amm, mint_a, &CASH_TOKEN_SEED);
        match (pool, pool_authority, receipt_mint, cash_mint) {
            (Some(pool), Some(pool_authority), Some(receipt_mint), Some(cash_mint)) => {
                let pool_account_a = find_associated_token_address(&pool_authority, mint_a);
                let lender_token_a = find_associated_token_address(lender, mint_a);
                let lender_authority = find_tagged_address(&pool, lender, &AUTHORITY_SEED);
                let lender_cash_token = find_associated_token_address(lender, &cash_mint);
                match (pool_account_a, lender_token_a, lender_authority, lender_cash_token) {
                    (
                        Some(pool_account_a),
                        Some(lender_token_a),
                        Some(lender_authority),
                        Some(lender_cash_token),
                    ) => match find_associated_token_address(&lender_authority, &receipt_mint) {
                        Some(lender_lend_receipt_token) => Some(
                            Lend {
                                pool,
                                pool_authority,
                                pool_account_a,
                                lending_receipt_token_mint: receipt_mint,
                                cash_token_mint: cash_mint,
                                lender: *lender,
                                lender_token_a,
                                lender_authority,
                                lender_lend_receipt_token,
                                lender_cash_token,
                            },
                        ),
                        None => None,
                    },
                    _ => None,
                }
            },
            _ => None,
        }
    }

    /// Whether two sets of accounts are the same, address by address.
    pub fn same(&self, other: &Lend) -> (r: bool)
        ensures
            r == (*self == *other),
    {
        self.pool.same(&other.pool) && self.pool_authority.same(&other.pool_authority)
            && self.pool_account_a.same(&other.pool_account_a)
            && self.lending_receipt_token_mint.same(&other.lending_receipt_token_mint)
            && self.cash_token_mint.same(&other.cash_token_mint) && self.lender.same(&other.lender)
            && self.lender_token_a.same(&other.lender_token_a) && self.lender_authority.same(
            &other.lender_authority,
        ) && self.lender_lend_receipt_token.same(&other.lender_lend_receipt_token)
            && self.lender_cash_token.same(&other.lender_cash_token)
    }

    /// Whether the roles of the accounts are held by different addresses.
    pub fn is_separate(&self, mint_a: &Address) -> (r: bool)
        ensures
            r == self.separate(*mint_a),
    {
        !mint_a.same(&self.lending_receipt_token_mint) && !mint_a.same(&self.cash_token_mint)
            && !self.lending_receipt_token_mint.same(&self.cash_token_mint) && !self.lender.same(
            &self.pool_authority,
        ) && !self.lender.same(&self.lender_authority) && !self.pool_authority.same(
            &self.lender_authority,
        )
    }
}

/// What is wrong with the records behind the accounts of a request to lend.
/// The receipt slot and the cash balance may be absent: they are opened on
/// first use.
pub open spec fn lend_accounts_fault(s: State, ctx: Lend, mint_a: Address) -> Option<AccountError> {
    first_fault(
        balance_fault(s, ctx.pool_account_a, mint_a, ctx.pool_authority),
        first_fault(
            pool_mint_fault(s, ctx.lending_receipt_token_mint, ctx.pool_authority),
            first_fault(
                pool_mint_fault(s, ctx.cash_token_mint, ctx.pool_authority),
                first_fault(
                    balance_fault(s, ctx.lender_token_a, mint_a, ctx.lender),
                    first_fault(
                        fresh_balance_fault(
                            s,
                            ctx.lender_lend_receipt_token,
                            ctx.lending_receipt_token_mint,
                            ctx.lender_authority,
                        ),
                        fresh_balance_fault(s, ctx.lender_cash_token, ctx.cash_token_mint, ctx.lender),
                    ),
                ),
            ),
        ),
    )
}

/// The contents with the lender's receipt slot and cash balance in place.
pub open spec fn lend_provided(s: State, ctx: Lend) -> State {
    provided(
        provided(s, ctx.lender_lend_receipt_token, ctx.lending_receipt_token_mint, ctx.lender_authority),
        ctx.lender_cash_token,
        ctx.cash_token_mint,
        ctx.lender,
    )
}

/// The steps of lending on accepted accounts. Where the lender holds less
/// than the amount, the request is refused for want of balance. Else the
/// principal moves into the pool's custody, the same amount of receipts is
/// issued into the receipt slot, and cash for the principal is issued to the
/// lender; both issued balances are locked.
pub open spec fn lend_steps(s: State, ctx: Lend, amount: u64) -> Result<State, LendError> {
    if balance_at(s, ctx.lender_token_a) < amount {
        Err(LendError::InsufficientBalance)
    } else {
        match transfer_outcome(
            lend_provided(s, ctx),
            ctx.lender_token_a,
            ctx.pool_account_a,
            ctx.lender,
            amount,
        ) {
            Err(e) => Err(LendError::Token(e)),
            Ok(moved) => match mint_and_freeze_outcome(
                moved,
                ctx.lending_receipt_token_mint,
                ctx.lender_lend_receipt_token,
                ctx.pool_authority,
                amount,
            ) {
                Err(e) => Err(LendError::Token(e)),
                Ok(receipted) => match mint_and_freeze_outcome(
                    receipted,
                    ctx.cash_token_mint,
                    ctx.lender_cash_token,
                    ctx.pool_authority,
                    spec_cash_amount(amount),
                ) {
                    Err(e) => Err(LendError::Token(e)),
                    Ok(issued) => Ok(issued),
                },
            },
        }
    }
}

/// What a request to lend `amount` comes to, given the accounts that the seed
/// scheme derives for it.
pub open spec fn lend_outcome(
    s: State,
    ctx: Lend,
    expected: Option<Lend>,
    amount: u64,
) -> Result<State, LendError> {
    match pool_at(s, ctx.pool) {
        None => Err(LendError::Accounts(AccountError::NotFound)),
        Some(pool) => if expected != Some(ctx) || !ctx.separate(pool.mint_a) {
            Err(LendError::Accounts(AccountError::SeedMismatch))
        } else {
            match lend_accounts_fault(s, ctx, pool.mint_a) {
                Some(fault) => Err(LendError::Accounts(fault)),
                None => lend_steps(s, ctx, amount),
            }
        },
    }
}

/// What lending `amount` changes: the lender's base balance falls and the
/// pool's custody rises by the amount, the receipt slot and the receipt supply
/// rise by the amount, the lender's cash and the cash supply rise by the cash
/// for the amount, and the receipt slot and the cash balance are locked.
/// Nothing changes at any other address.
pub open spec fn lent(before: State, after: State, ctx: Lend, amount: u64) -> bool {
    &&& balance_at(after, ctx.lender_token_a) == balance_at(before, ctx.lender_token_a) - amount
    &&& balance_at(after, ctx.pool_account_a) == balance_at(before, ctx.pool_account_a) + amount
    &&& balance_at(after, ctx.lender_lend_receipt_token) == balance_at(
        before,
        ctx.lender_lend_receipt_token,
    ) + amount
    &&& balance_at(after, ctx.lender_cash_token) == balance_at(before, ctx.lender_cash_token)
        + spec_cash_amount(amount)
    &&& supply_at(after, ctx.lending_receipt_token_mint) == supply_at(
        before,
        ctx.lending_receipt_token_mint,
    ) + amount
    &&& supply_at(after, ctx.cash_token_mint) == supply_at(before, ctx.cash_token_mint)
        + spec_cash_amount(amount)
    &&& token_at(after, ctx.lender_lend_receipt_token) matches Some(slot) && slot.locked
        && slot.owner == ctx.lender_authority
    &&& token_at(after, ctx.lender_cash_token) matches Some(cash) && cash.locked
    &&& same_outside(before, after, ctx.written())
}

/// Every request to lend that succeeds changes the balances as `lent` says.
pub proof fn lemma_lend_balances(s: State, ctx: Lend, expected: Option<Lend>, amount: u64)
    requires
        lend_outcome(s, ctx, expected, amount) is Ok,
    ensures
        lent(s, lend_outcome(s, ctx, expected, amount)->Ok_0, ctx, amount),
        balance_at(s, ctx.lender_lend_receipt_token) == 0 ==> balance_at(
            lend_outcome(s, ctx, expected, amount)->Ok_0,
            ctx.lender_lend_receipt_token,
        ) == amount,
{
    let pool = pool_at(s, ctx.pool)->Some_0;
    assert(lend_accounts_fault(s, ctx, pool.mint_a) is None);
    assert(ctx.lender_token_a != ctx.pool_account_a);
    assert(ctx.lender_lend_receipt_token != ctx.lender_cash_token);
}

/// Lends `amount` of the base asset into a pool, given the accounts that the
/// seed scheme derives for the request. The request is refused, and the ledger
/// left as it was, unless the presented accounts are the derived ones.
pub fn lend_expecting(
    ledger: &mut Ledger,
    ctx: &Lend,
    expected: &Option<Lend>,
    amount: u64,
) -> (reported: Result<(), LendError>)
    ensures
        settles(
            lend_outcome(old(ledger)@, *ctx, *expected, amount),
            old(ledger)@,
            final(ledger)@,
            reported,
        ),
        reported is Ok ==> lent(old(ledger)@, final(ledger)@, *ctx, amount),
{
    proof {
        if lend_outcome(old(ledger)@, *ctx, *expected, amount) is Ok {
            lemma_lend_balances(old(ledger)@, *ctx, *expected, amount);
        }
    }
    let pool = match ledger.pool(&ctx.pool) {
        Some(pool) => pool,
        None => { return Err(LendError::Accounts(AccountError::NotFound)); },
    };
    let derived = match expected {
        Some(derived) => derived.same(ctx),
        None => false,
    };
    if !derived || !ctx.is_separate(&pool.mint_a) {
        return Err(LendError::Accounts(AccountError::SeedMismatch));
    }
    if let Some(fault) = ledger.balance_fault(&ctx.pool_account_a, &pool.mint_a, &ctx.pool_authority) {
        return Err(LendError::Accounts(fault));
    }
    if let Some(fault) = ledger.pool_mint_fault(&ctx.lending_receipt_token_mint, &ctx.pool_authority) {
        return Err(LendError::Accounts(fault));
    }
    if let Some(fault) = ledger.pool_mint_fault(&ctx.cash_token_mint, &ctx.pool_authority) {
        return Err(LendError::Accounts(fault));
    }
    let source = match ledger.token(&ctx.lender_token_a) {
        Some(source) => source,
        None => { return Err(LendError::Accounts(AccountError::NotFound)); },
    };
    if let Some(fault) = ledger.balance_fault(&ctx.lender_token_a, &pool.mint_a, &ctx.lender) {
        return Err(LendError::Accounts(fault));
    }
    if let Some(fault) = ledger.fresh_balance_fault(
        &ctx.lender_lend_receipt_token,
        &ctx.lending_receipt_token_mint,
        &ctx.lender_authority,
    ) {
        return Err(LendError::Accounts(fault));
    }
    if let Some(fault) = ledger.fresh_balance_fault(
        &ctx.lender_cash_token,
        &ctx.cash_token_mint,
        &ctx.lender,
    ) {
        return Err(LendError::Accounts(fault));
    }
    if source.amount < amount {
        return Err(LendError::InsufficientBalance);
    }
    let mut work = ledger.duplicate();
    work.provide(&ctx.lender_lend_receipt_token, &ctx.lending_receipt_token_mint, &ctx.lender_authority);
    work.provide(&ctx.lender_cash_token, &ctx.cash_token_mint, &ctx.lender);
    if let Err(e) = work.transfer(&ctx.lender_token_a, &ctx.pool_account_a, &ctx.lender, amount) {
        return Err(LendError::Token(e));
    }
    if let Err(e) = work.mint_and_freeze(
        &ctx.lending_receipt_token_mint,
        &ctx.lender_lend_receipt_token,
        &ctx.pool_authority,
        amount,
    ) {
        return Err(LendError::Token(e));
    }
    if let Err(e) = work.mint_and_freeze(
        &ctx.cash_token_mint,
        &ctx.lender_cash_token,
        &ctx.pool_authority,
        cash_amount(amount),
    ) {
        return Err(LendError::Token(e));
    }
    *ledger = work;
    Ok(())
}

/// Lends `amount` of the base asset into the pool that the request names.
/// The working accounts are derived again from the seed scheme, and the
/// request is refused, with the ledger left as it was, unless the presented
/// accounts are the derived ones.
pub fn lend(ledger: &mut Ledger, ctx: &Lend, amount: u64) -> (reported: Result<(), LendError>)
    ensures
        settles(
            lend_outcome(old(ledger)@, *ctx, Lend::expected(old(ledger)@, *ctx), amount),
            old(ledger)@,
            final(ledger)@,
            reported,
        ),
        reported is Ok ==> lent(old(ledger)@, final(ledger)@, *ctx, amount),
{
    let expected = match ledger.pool(&ctx.pool) {
        Some(pool) => Lend::derive(&pool.amm, &pool.mint_a, &ctx.lender),
        None => None,
    };
    lend_expecting(ledger, ctx, &expected, amount)
}

} // verus!
