//! Creating a cash pool: the record of the market that wraps the cash token,
//! and the mint of its scash token.

use crate::accounts::{pool_mint_fault, AccountError};
use crate::address::{
    amm_address, cash_mint_address, cash_pool_address, find_amm_address, find_tagged_address,
    keyless, pool_authority_address, scash_mint_address, Address,
};
use crate::constants::{
    AUTHORITY_SEED, CASH_POOL, CASH_TOKEN_SEED, MINT_DECIMALS, SCASH_TOKEN_SEED,
};
use crate::instructions::create_pool_1::{new_pool, new_pool_mint, PoolError};
use crate::ledger::Ledger;
use crate::state::{
    amm_at, mint_at, pool_at, same_outside, Account, Mint, Pool, State, CASH_POOL_TYPE,
};
use crate::token::settles;
use vstd::prelude::*;

verus! {

/// The accounts presented to create the cash pool of an AMM and a base asset.
#[derive(Clone, Copy, Debug, PartialEq, Eq)]
pub struct CreateCashPool {
    /// Record of the AMM.
    pub amm: Address,
    /// Mint of the base asset.
    pub mint_a: Address,
    /// Mint of the cash token, which the base lending pool has created.
    pub cash_token_mint: Address,
    /// Mint of the scash token.
    pub s_cash_token_mint: Address,
    /// Where the record of the cash pool is to stand.
    pub cash_pool: Address,
    /// Authority over the pool's mints and custody.
    pub pool_authority: Address,
    /// The admin of the AMM.
    pub admin: Address,
}

impl CreateCashPool {
    /// The accounts that the seed scheme derives for the cash pool of an AMM
    /// and a base asset; `None` where a derivation fails.
    pub open spec fn derived(amm: Address, mint_a: Address, admin: Address) -> Option<CreateCashPool> {
        match (
            cash_mint_address(amm, mint_a),
            scash_mint_address(amm, mint_a),
            cash_pool_address(amm, mint_a),
            pool_authority_address(amm, mint_a),
        ) {
            (Some(cash_token_mint), Some(s_cash_token_mint), Some(cash_pool), Some(pool_authority)) => {
                Some(
                    CreateCashPool {
                        amm,
                        mint_a,
                        cash_token_mint,
                        s_cash_token_mint,
                        cash_pool,
                        pool_authority,
                        admin,
                    },
                )
            },
            _ => None,
        }
    }

    /// The accounts that the seed scheme derives for a request, where the
    /// record of the AMM stands at the address that its identity derives.
    pub open spec fn expected(s: State, ctx: CreateCashPool) -> Option<CreateCashPool> {
        match amm_at(s, ctx.amm) {
            Some(amm) => if amm_address(amm.id) == Some(ctx.amm) {
                CreateCashPool::derived(ctx.amm, ctx.mint_a, ctx.admin)
            } else {
                None
            },
            None => None,
        }
    }

    /// Whether the roles of the accounts are held by different addresses: the
    /// two mints differ, and the record of the pool is no mint.
    pub open spec fn separate(self) -> bool {
        &&& self.cash_token_mint != self.s_cash_token_mint
        &&& self.cash_pool != self.cash_token_mint
        &&& self.cash_pool != self.s_cash_token_mint
    }

    /// The addresses at which a request on these accounts writes.
    pub open spec fn written(self) -> Set<Address> {
        set![self.cash_pool, self.s_cash_token_mint]
    }

    /// Derives the accounts of the cash pool of an AMM and a base asset.
    pub fn derive(amm: &Address, mint_a: &Address, admin: &Address) -> (found: Option<CreateCashPool>)
        ensures
            found == CreateCashPool::derived(*amm, *mint_a, *admin),
            found matches Some(ctx) ==> keyless(ctx.pool_authority),
    {
        let cash_token_mint = find_tagged_address(amm, mint_a, &CASH_TOKEN_SEED);
        let s_cash_token_mint = find_tagged_address(amm, mint_a, &SCASH_TOKEN_SEED);
        let cash_pool = find_tagged_address(amm, mint_a, &CASH_POOL);
        let pool_authority = find_tagged_address(amm, mint_a, &AUTHORITY_SEED);
        match (cash_token_mint, s_cash_token_mint, cash_pool, pool_authority) {
            (Some(cash_token_mint), Some(s_cash_token_mint), Some(cash_pool), Some(pool_authority)) => {
                Some(
                    CreateCashPool {
                        amm: *amm,
                        mint_a: *mint_a,
                        cash_token_mint,
                        s_cash_token_mint,
                        cash_pool,
                        pool_authority,
                        admin: *admin,
                    },
                )
            },
            _ => None,
        }
    }

    /// Whether two sets of accounts are the same, address by address.
    pub fn same(&self, other: &CreateCashPool) -> (r: bool)
        ensures
            r == (*self == *other),
    {
        self.amm.same(&other.amm) && self.mint_a.same(&other.mint_a) && self.cash_token_mint.same(
            &other.cash_token_mint,
        ) && self.s_cash_token_mint.same(&other.s_cash_token_mint) && self.cash_pool.same(
            &other.cash_pool,
        ) && self.pool_authority.same(&other.pool_authority) && self.admin.same(&other.admin)
    }

    /// Whether the roles of the accounts are held by different addresses.
    pub fn is_separate(&self) -> (r: bool)
        ensures
            r == self.separate(),
    {
        !self.cash_token_mint.same(&self.s_cash_token_mint) && !self.cash_pool.same(
            &self.cash_token_mint,
        ) && !self.cash_pool.same(&self.s_cash_token_mint)
    }
}

/// What is wrong with the scash mint of a request to create a cash pool:
/// nothing where the address is free, since the mint is then created, else
/// what is wrong with it as a mint of the pool.
pub open spec fn scash_mint_fault(s: State, ctx: CreateCashPool) -> Option<AccountError> {
    if s.contains_key(ctx.s_cash_token_mint) {
        pool_mint_fault(s, ctx.s_cash_token_mint, ctx.pool_authority)
    } else {
        None
    }
}

/// The contents with the scash mint in place: created with nothing issued
/// where its address was free.
pub open spec fn scash_provided(s: State, ctx: CreateCashPool) -> State {
    if s.contains_key(ctx.s_cash_token_mint) {
        s
    } else {
        s.insert(ctx.s_cash_token_mint, Account::Mint(new_pool_mint(ctx.pool_authority)))
    }
}

/// What a request to create a cash pool comes to, given the accounts that the
/// seed scheme derives for it. The cash mint must stand already, as the base
/// lending pool created it. The record of the cash pool is written at an
/// address that must be free, and the scash mint is created unless it stands
/// already.
pub open spec fn create_cash_pool_outcome(
    s: State,
    ctx: CreateCashPool,
    expected: Option<CreateCashPool>,
) -> Result<State, PoolError> {
    match amm_at(s, ctx.amm) {
        None => Err(PoolError::Accounts(AccountError::NotFound)),
        Some(amm) => if expected != Some(ctx) || !ctx.separate() {
            Err(PoolError::Accounts(AccountError::SeedMismatch))
        } else if mint_at(s, ctx.mint_a) is None {
            Err(PoolError::Accounts(AccountError::NotFound))
        } else if pool_mint_fault(s, ctx.cash_token_mint, ctx.pool_authority) is Some {
            Err(PoolError::Accounts(pool_mint_fault(s, ctx.cash_token_mint, ctx.pool_authority)->Some_0))
        } else if scash_mint_fault(s, ctx) is Some {
            Err(PoolError::Accounts(scash_mint_fault(s, ctx)->Some_0))
        } else if ctx.admin != amm.admin {
            Err(PoolError::Accounts(AccountError::Unauthorized))
        } else if s.contains_key(ctx.cash_pool) {
            Err(PoolError::Accounts(AccountError::AlreadyExists))
        } else {
            Ok(
                scash_provided(s, ctx).insert(
                    ctx.cash_pool,
                    Account::Pool(new_pool(ctx.amm, ctx.mint_a, CASH_POOL_TYPE)),
                ),
            )
        },
    }
}

/// What creating a cash pool changes: in an address that was free stands the
/// record of the pool, and the cash mint and the scash mint stand as mints of
/// the pool, the scash mint as it was if it stood before. Nothing changes at
/// any other address.
pub open spec fn cash_pool_created(before: State, after: State, ctx: CreateCashPool) -> bool {
    &&& !before.contains_key(ctx.cash_pool)
    &&& pool_at(after, ctx.cash_pool) == Some(new_pool(ctx.amm, ctx.mint_a, CASH_POOL_TYPE))
    &&& pool_mint_fault(after, ctx.cash_token_mint, ctx.pool_authority) is None
    &&& pool_mint_fault(after, ctx.s_cash_token_mint, ctx.pool_authority) is None
    &&& before.contains_key(ctx.s_cash_token_mint) ==> after[ctx.s_cash_token_mint]
        == before[ctx.s_cash_token_mint]
    &&& !before.contains_key(ctx.s_cash_token_mint) ==> mint_at(after, ctx.s_cash_token_mint)
        == Some(new_pool_mint(ctx.pool_authority))
    &&& same_outside(before, after, ctx.written())
}

/// Every request to create a cash pool that succeeds changes the ledger as
/// `cash_pool_created` says.
pub proof fn lemma_create_cash_pool_result(s: State, ctx: CreateCashPool, expected: Option<CreateCashPool>)
    requires
        create_cash_pool_outcome(s, ctx, expected) is Ok,
    ensures
        cash_pool_created(s, create_cash_pool_outcome(s, ctx, expected)->Ok_0, ctx),
{
}

/// Creates a cash pool, given the accounts that the seed scheme derives for
/// the request. The request is refused, and the ledger left as it was, unless
/// the presented accounts are the derived ones and the pool's address is free.
pub fn create_cash_pool_expecting(
    ledger: &mut Ledger,
    ctx: &CreateCashPool,
    expected: &Option<CreateCashPool>,
) -> (reported: Result<(), PoolError>)
    ensures
        settles(
            create_cash_pool_outcome(old(ledger)@, *ctx, *expected),
            old(ledger)@,
            final(ledger)@,
            reported,
        ),
        reported is Ok ==> cash_pool_created(old(ledger)@, final(ledger)@, *ctx),
{
    proof {
        if create_cash_pool_outcome(old(ledger)@, *ctx, *expected) is Ok {
            lemma_create_cash_pool_result(old(ledger)@, *ctx, *expected);
        }
    }
    let amm = match ledger.amm(&ctx.amm) {
        Some(amm) => amm,
        None => { return Err(PoolError::Accounts(AccountError::NotFound)); },
    };
    let derived = match expected {
        Some(derived) => derived.same(ctx),
        None => false,
    };
    if !derived || !ctx.is_separate() {
        return Err(PoolError::Accounts(AccountError::SeedMismatch));
    }
    if ledger.mint(&ctx.mint_a).is_none() {
        return Err(PoolError::Accounts(AccountError::NotFound));
    }
    if let Some(fault) = ledger.pool_mint_fault(&ctx.cash_token_mint, &ctx.pool_authority) {
        return Err(PoolError::Accounts(fault));
    }
    let stands = ledger.get(&ctx.s_cash_token_mint).is_some();
    if stands {
        if let Some(fault) = ledger.pool_mint_fault(&ctx.s_cash_token_mint, &ctx.pool_authority) {
            return Err(PoolError::Accounts(fault));
        }
    }
    if !ctx.admin.same(&amm.admin) {
        return Err(PoolError::Accounts(AccountError::Unauthorized));
    }
    if ledger.get(&ctx.cash_pool).is_some() {
        return Err(PoolError::Accounts(AccountError::AlreadyExists));
    }
    if !stands {
        ledger.put(
            ctx.s_cash_token_mint,
            Account::Mint(
                Mint {
                    authority: ctx.pool_authority,
                    freeze_authority: ctx.pool_authority,
                    decimals: MINT_DECIMALS,
                    supply: 0,
                },
            ),
        );
    }
    ledger.put(
        ctx.cash_pool,
        Account::Pool(
            Pool {
                amm: ctx.amm,
                mint_a: ctx.mint_a,
                token_a_amount: 0,
                token_b_amount: 0,
                pool_type: CASH_POOL_TYPE,
            },
        ),
    );
    Ok(())
}

/// Creates the cash pool of an AMM and a base asset. The working accounts are
/// derived again from the seed scheme, and the request is refused, with the
/// ledger left as it was, unless the presented accounts are the derived ones
/// and the pool's address is free.
pub fn create_cash_pool(ledger: &mut Ledger, ctx: &CreateCashPool) -> (reported: Result<(), PoolError>)
    ensures
        settles(
            create_cash_pool_outcome(old(ledger)@, *ctx, CreateCashPool::expected(old(ledger)@, *ctx)),
            old(ledger)@,
            final(ledger)@,
            reported,
        ),
        reported is Ok ==> cash_pool_created(old(ledger)@, final(ledger)@, *ctx),
{
    let expected = match ledger.amm(&ctx.amm) {
        Some(amm) => {
            let at = find_amm_address(&amm.id);
            let stands = match at {
                Some(at) => at.same(&ctx.amm),
                None => false,
            };
            if stands {
                CreateCashPool::derive(&ctx.amm, &ctx.mint_a, &ctx.admin)
            } else {
                None
            }
        },
        None => None,
    };
    create_cash_pool_expecting(ledger, ctx, &expected)
}

} // verus!
