//! Creating a base lending pool: its record, its custody, and its mints.

use crate::accounts::AccountError;
use crate::address::{
    amm_address, associated_token_address, cash_mint_address, find_amm_address,
    find_associated_token_address, find_pool_address, find_tagged_address, keyless, pool_address,
    pool_authority_address, receipt_mint_address, scash_mint_address, Address,
};
use crate::constants::{
    AUTHORITY_SEED, CASH_TOKEN_SEED, LENDING_TOKEN_SEED, MINT_DECIMALS, SCASH_TOKEN_SEED,
};
use crate::ledger::Ledger;
use crate::state::{
    amm_at, mint_at, pool_at, same_outside, token_at, Account, Mint, Pool, State, TokenAccount,
    BASE_POOL,
};
use crate::token::{create_mint_outcome, open_account_outcome, settles, TokenError};
use vstd::prelude::*;

verus! {

/// The accounts presented to create the base lending pool of an AMM and a base asset.
#[derive(Clone, Copy, Debug, PartialEq, Eq)]
pub struct CreatePool1 {
    /// Record of the AMM.
    pub amm: Address,
    /// Mint of the base asset.
    pub mint_a: Address,
    /// Where the record of the pool is to stand.
    pub pool: Address,
    /// Authority over the pool's mints and custody.
    pub pool_authority: Address,
    /// Where the pool's custody balance of the base asset is to stand.
    pub pool_account_a: Address,
    /// Where the mint of the receipt token is to stand.
    pub lending_receipt_token_mint: Address,
    /// Where the mint of the cash token is to stand.
    pub cash_token_mint: Address,
    /// Where the mint of the scash token is to stand.
    pub s_cash_token_mint: Address,
    /// The admin of the AMM.
    pub admin: Address,
}

/// Why a request to create an AMM or a pool was refused.
#[derive(Clone, Copy, Debug, PartialEq, Eq)]
pub enum PoolError {
    /// Reserved; no operation reports it.
    InvalidFee,
    /// The presented accounts were refused.
    Accounts(AccountError),
    /// The token primitive refused a step.
    Token(TokenError),
}

impl PoolError {
    /// The refusal in words.
    pub open spec fn spec_message(&self) -> Seq<char> {
        match self {
            PoolError::InvalidFee => "Invalid fee"@,
            PoolError::Accounts(fault) => fault.spec_message(),
            PoolError::Token(fault) => fault.spec_message(),
        }
    }

    /// The refusal in words.
    pub fn message(&self) -> (text: &'static str)
        ensures
            text@ == self.spec_message(),
    {
        match self {
            PoolError::InvalidFee => "Invalid fee",
            PoolError::Accounts(fault) => fault.message(),
            PoolError::Token(fault) => fault.message(),
        }
    }
}

impl CreatePool1 {
    /// The accounts that the seed scheme derives for the base lending pool of
    /// an AMM and a base asset; `None` where a derivation fails.
    pub open spec fn derived(amm: Address, mint_a: Address, admin: Address) -> Option<CreatePool1> {
        match (
            pool_address(amm, mint_a),
            pool_authority_address(amm, mint_a),
            receipt_mint_address(amm, mint_a),
            cash_mint_address(amm, mint_a),
            scash_mint_address(amm, mint_a),
        ) {
            (Some(pool), Some(pool_authority), Some(receipt_mint), Some(cash_mint), Some(scash_mint)) => {
                match associated_token_address(pool_authority, mint_a) {
                    Some(pool_account_a) => Some(
                        CreatePool1 {
                            amm,
                            mint_a,
                            pool,
                            pool_authority,
                            pool_account_a,
                            lending_receipt_token_mint: receipt_mint,
                            cash_token_mint: cash_mint,
                            s_cash_token_mint: scash_mint,
                            admin,
                        },
                    ),
                    None => None,
                }
            },
            _ => None,
        }
    }

    /// The accounts that the seed scheme derives for a request, where the
    /// record of the AMM stands at the address that its identity derives.
    pub open spec fn expected(s: State, ctx: CreatePool1) -> Option<CreatePool1> {
        match amm_at(s, ctx.amm) {
            Some(amm) => if amm_address(amm.id) == Some(ctx.amm) {
                CreatePool1::derived(ctx.amm, ctx.mint_a, ctx.admin)
            } else {
                None
            },
            None => None,
        }
    }

    /// Whether the four mints are held by different addresses.
    pub open spec fn separate(self) -> bool {
        &&& self.mint_a != self.lending_receipt_token_mint
        &&& self.mint_a != self.cash_token_mint
        &&& self.mint_a != self.s_cash_token_mint
        &&& self.lending_receipt_token_mint != self.cash_token_mint
        &&& self.lending_receipt_token_mint != self.s_cash_token_mint
        &&& self.cash_token_mint != self.s_cash_token_mint
    }

    /// The addresses at which a request on these accounts writes.
    pub open spec fn written(self) -> Set<Address> {
        set![
            self.pool,
            self.pool_account_a,
            self.lending_receipt_token_mint,
            self.cash_token_mint,
            self.s_cash_token_mint,
        ]
    }

    /// Derives the accounts of the base lending pool of an AMM and a base asset.
    pub fn derive(amm: &Address, mint_a: &Address, admin: &Address) -> (found: Option<CreatePool1>)
        ensures
            found == CreatePool1::derived(*amm, *mint_a, *admin),
            found matches Some(ctx) ==> keyless(ctx.pool_authority),
    {
        let pool = find_pool_address(amm, mint_a);
        let pool_authority = find_tagged_address(amm, mint_a, &AUTHORITY_SEED);
        let receipt_mint = find_tagged_address(amm, mint_a, &LENDING_TOKEN_SEED);
        let cash_mint = find_tagged_address(amm, mint_a, &CASH_TOKEN_SEED);
        let scash_mint = find_tagged_address(amm, mint_a, &SCASH_TOKEN_SEED);
        match (pool, pool_authority, receipt_mint, cash_mint, scash_mint) {
            (Some(pool), Some(pool_authority), Some(receipt_mint), Some(cash_mint), Some(scash_mint)) => {
                match find_associated_token_address(&pool_authority, mint_a) {
                    Some(pool_account_a) => Some(
                        CreatePool1 {
                            amm: *amm,
                            mint_a: *mint_a,
                            pool,
                            pool_authority,
                            pool_account_a,
                            lending_receipt_token_mint: receipt_mint,
                            cash_token_mint: cash_mint,
                            s_cash_token_mint: scash_mint,
                            admin: *admin,
                        },
                    ),
                    None => None,
                }
            },
            _ => None,
        }
    }

    /// Whether two sets of accounts are the same, address by address.
    pub fn same(&self, other: &CreatePool1) -> (r: bool)
        ensures
            r == (*self == *other),
    {
        self.amm.same(&other.amm) && self.mint_a.same(&other.mint_a) && self.pool.same(&other.pool)
            && self.pool_authority.same(&other.pool_authority) && self.pool_account_a.same(
            &other.pool_account_a,
        ) && self.lending_receipt_token_mint.same(&other.lending_receipt_token_mint)
            && self.cash_token_mint.same(&other.cash_token_mint) && self.s_cash_token_mint.same(
            &other.s_cash_token_mint,
        ) && self.admin.same(&other.admin)
    }

    /// Whether the four mints are held by different addresses.
    pub fn is_separate(&self) -> (r: bool)
        ensures
            r == self.separate(),
    {
        !self.mint_a.same(&self.lending_receipt_token_mint) && !self.mint_a.same(&self.cash_token_mint)
            && !self.mint_a.same(&self.s_cash_token_mint) && !self.lending_receipt_token_mint.same(
            &self.cash_token_mint,
        ) && !self.lending_receipt_token_mint.same(&self.s_cash_token_mint)
            && !self.cash_token_mint.same(&self.s_cash_token_mint)
    }
}

/// The record of a new pool: its aggregate amounts are zero.
pub open spec fn new_pool(amm: Address, mint_a: Address, pool_type: u64) -> Pool {
    Pool { amm, mint_a, token_a_amount: 0, token_b_amount: 0, pool_type }
}

/// A mint as a pool creates it: six decimals, nothing issued, and the pool
/// authority as both its mint authority and its freeze authority.
pub open spec fn new_pool_mint(pool_authority: Address) -> Mint {
    Mint {
        authority: pool_authority,
        freeze_authority: pool_authority,
        decimals: MINT_DECIMALS,
        supply: 0,
    }
}

/// The steps of creating a base lending pool on accepted accounts, each at an
/// address that must be free: the record, the custody balance of the base
/// asset under the pool authority, and the mints of the receipt, cash and
/// scash tokens.
pub open spec fn create_pool_1_steps(s: State, ctx: CreatePool1) -> Result<State, PoolError> {
    if s.contains_key(ctx.pool) {
        Err(PoolError::Accounts(AccountError::AlreadyExists))
    } else {
        match open_account_outcome(
            s.insert(ctx.pool, Account::Pool(new_pool(ctx.amm, ctx.mint_a, BASE_POOL))),
            ctx.pool_account_a,
            ctx.mint_a,
            ctx.pool_authority,
        ) {
            Err(e) => Err(PoolError::Token(e)),
            Ok(opened) => match create_mint_outcome(
                opened,
                ctx.lending_receipt_token_mint,
                ctx.pool_authority,
                ctx.pool_authority,
                MINT_DECIMALS,
            ) {
                Err(e) => Err(PoolError::Token(e)),
                Ok(first) => match create_mint_outcome(
                    first,
                    ctx.cash_token_mint,
                    ctx.pool_authority,
                    ctx.pool_authority,
                    MINT_DECIMALS,
                ) {
                    Err(e) => Err(PoolError::Token(e)),
                    Ok(second) => match create_mint_outcome(
                        second,
                        ctx.s_cash_token_mint,
                        ctx.pool_authority,
                        ctx.pool_authority,
                        MINT_DECIMALS,
                    ) {
                        Err(e) => Err(PoolError::Token(e)),
                        Ok(third) => Ok(third),
                    },
                },
            },
        }
    }
}

/// What a request to create a base lending pool comes to, given the accounts
/// that the seed scheme derives for it.
pub open spec fn create_pool_1_outcome(
    s: State,
    ctx: CreatePool1,
    expected: Option<CreatePool1>,
) -> Result<State, PoolError> {
    match amm_at(s, ctx.amm) {
        None => Err(PoolError::Accounts(AccountError::NotFound)),
        Some(amm) => if expected != Some(ctx) || !ctx.separate() {
            Err(PoolError::Accounts(AccountError::SeedMismatch))
        } else if mint_at(s, ctx.mint_a) is None {
            Err(PoolError::Accounts(AccountError::NotFound))
        } else if ctx.admin != amm.admin {
            Err(PoolError::Accounts(AccountError::Unauthorized))
        } else {
            create_pool_1_steps(s, ctx)
        },
    }
}

/// What creating a base lending pool changes: in addresses that were free
/// stand the record of the pool, an empty unlocked custody balance of the
/// base asset under the pool authority, and the three mints with nothing
/// issued. Nothing changes at any other address.
pub open spec fn pool_created(before: State, after: State, ctx: CreatePool1) -> bool {
    &&& forall|address: Address| #[trigger]
        ctx.written().contains(address) ==> !before.contains_key(address)
    &&& pool_at(after, ctx.pool) == Some(new_pool(ctx.amm, ctx.mint_a, BASE_POOL))
    &&& token_at(after, ctx.pool_account_a) == Some(
        TokenAccount { mint: ctx.mint_a, owner: ctx.pool_authority, amount: 0, locked: false },
    )
    &&& mint_at(after, ctx.lending_receipt_token_mint) == Some(new_pool_mint(ctx.pool_authority))
    &&& mint_at(after, ctx.cash_token_mint) == Some(new_pool_mint(ctx.pool_authority))
    &&& mint_at(after, ctx.s_cash_token_mint) == Some(new_pool_mint(ctx.pool_authority))
    &&& same_outside(before, after, ctx.written())
}

/// Every request to create a base lending pool that succeeds changes the
/// ledger as `pool_created` says.
pub proof fn lemma_create_pool_1_result(s: State, ctx: CreatePool1, expected: Option<CreatePool1>)
    requires
        create_pool_1_outcome(s, ctx, expected) is Ok,
    ensures
        pool_created(s, create_pool_1_outcome(s, ctx, expected)->Ok_0, ctx),
{
}

/// Creates a base lending pool, given the accounts that the seed scheme
/// derives for the request. The request is refused, and the ledger left as it
/// was, unless the presented accounts are the derived ones and are free.
pub fn create_pool_1_expecting(
    ledger: &mut Ledger,
    ctx: &CreatePool1,
    expected: &Option<CreatePool1>,
) -> (reported: Result<(), PoolError>)
    ensures
        settles(
            create_pool_1_outcome(old(ledger)@, *ctx, *expected),
            old(ledger)@,
            final(ledger)@,
            reported,
        ),
        reported is Ok ==> pool_created(old(ledger)@, final(ledger)@, *ctx),
{
    proof {
        if create_pool_1_outcome(old(ledger)@, *ctx, *expected) is Ok {
            lemma_create_pool_1_result(old(ledger)@, *ctx, *expected);
        }
    }
    let amm = match ledger.amm(&ctx.amm) {
        Some(amm) => amm,
        None => { return Err(PoolError::Accounts(AccountError::NotFound)); },
    };
    let derived = match expected {
        Some(derived) => derived.same(ctx),
        None => false,
    };
    if !derived || !ctx.is_separate() {
        return Err(PoolError::Accounts(AccountError::SeedMismatch));
    }
    if ledger.mint(&ctx.mint_a).is_none() {
        return Err(PoolError::Accounts(AccountError::NotFound));
    }
    if !ctx.admin.same(&amm.admin) {
        return Err(PoolError::Accounts(AccountError::Unauthorized));
    }
    if ledger.get(&ctx.pool).is_some() {
        return Err(PoolError::Accounts(AccountError::AlreadyExists));
    }
    let mut work = ledger.duplicate();
    work.put(
        ctx.pool,
        Account::Pool(
            Pool {
                amm: ctx.amm,
                mint_a: ctx.mint_a,
                token_a_amount: 0,
                token_b_amount: 0,
                pool_type: BASE_POOL,
            },
        ),
    );
    if let Err(e) = work.open_account(&ctx.pool_account_a, &ctx.mint_a, &ctx.pool_authority) {
        return Err(PoolError::Token(e));
    }
    if let Err(e) = work.create_mint(
        &ctx.lending_receipt_token_mint,
        &ctx.pool_authority,
        &ctx.pool_authority,
        MINT_DECIMALS,
    ) {
        return Err(PoolError::Token(e));
    }
    if let Err(e) = work.create_mint(
        &ctx.cash_token_mint,
        &ctx.pool_authority,
        &ctx.pool_authority,
        MINT_DECIMALS,
    ) {
        return Err(PoolError::Token(e));
    }
    if let Err(e) = work.create_mint(
        &ctx.s_cash_token_mint,
        &ctx.pool_authority,
        &ctx.pool_authority,
        MINT_DECIMALS,
    ) {
        return Err(PoolError::Token(e));
    }
    *ledger = work;
    Ok(())
}

/// Creates the base lending pool of an AMM and a base asset. The working
/// accounts are derived again from the seed scheme, and the request is
/// refused, with the ledger left as it was, unless the presented accounts are
/// the derived ones and are free.
pub fn create_pool_1(ledger: &mut Ledger, ctx: &CreatePool1) -> (reported: Result<(), PoolError>)
    ensures
        settles(
            create_pool_1_outcome(old(ledger)@, *ctx, CreatePool1::expected(old(ledger)@, *ctx)),
            old(ledger)@,
            final(ledger)@,
            reported,
        ),
        reported is Ok ==> pool_created(old(ledger)@, final(ledger)@, *ctx),
{
    let expected = match ledger.amm(&ctx.amm) {
        Some(amm) => {
            let at = find_amm_address(&amm.id);
            let stands = match at {
                Some(at) => at.same(&ctx.amm),
                None => false,
            };
            if stands {
                CreatePool1::derive(&ctx.amm, &ctx.mint_a, &ctx.admin)
            } else {
                None
            }
        },
        None => None,
    };
    create_pool_1_expecting(ledger, ctx, &expected)
}

} // verus!
