//! The role tags of the seed scheme and the fixed terms of the protocol.

use vstd::prelude::*;

verus! {

/// Tag of an authority: of a pool, or of one lender in a pool.
pub const AUTHORITY_SEED: [u8; 1] = [97];

/// Tag of the record of a cash pool.
pub const CASH_POOL: [u8; 1] = [98];

/// Tag of the receipt token's mint.
pub const LENDING_TOKEN_SEED: [u8; 1] = [101];

/// Tag of the cash token's mint.
pub const CASH_TOKEN_SEED: [u8; 1] = [102];

/// Tag of the scash token's mint.
pub const SCASH_TOKEN_SEED: [u8; 1] = [103];

/// Decimals of every mint that a pool creates.
pub const MINT_DECIMALS: u8 = 6;

/// Cash issued per `COLLATERAL_PARTS` of principal.
pub const CASH_PARTS: u64 = 100;

/// Principal locked per `CASH_PARTS` of cash: a collateral ratio of 120%.
pub const COLLATERAL_PARTS: u64 = 120;

/// The cash that stands for `amount` of principal: `amount * 100 / 120`, rounded down.
pub open spec fn spec_cash_amount(amount: u64) -> u64 {
    (amount as nat * 100 / 120) as u64
}

/// Cash never exceeds the principal that it stands for.
pub proof fn lemma_cash_at_most(amount: nat)
    ensures
        amount * 100 / 120 <= amount,
{
    assert(amount * 100 / 120 <= amount) by (nonlinear_arith);
}

/// The cash that stands for `amount` of principal: `amount * 100 / 120`, rounded down.
#[verifier::when_used_as_spec(spec_cash_amount)]
pub fn cash_amount(amount: u64) -> (cash: u64)
    ensures
        cash == spec_cash_amount(amount),
        cash as nat == amount as nat * 100 / 120,
        cash <= amount,
{
    proof {
        lemma_cash_at_most(amount as nat);
        assert(amount as u128 * CASH_PARTS as u128 == amount as nat * 100) by (nonlinear_arith)
            requires
                CASH_PARTS == 100,
        ;
    }
    let wide: u128 = amount as u128 * CASH_PARTS as u128 / COLLATERAL_PARTS as u128;
    wide as u64
}

} // verus!
