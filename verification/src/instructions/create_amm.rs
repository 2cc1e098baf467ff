//! Creating the record of an AMM.

use crate::accounts::AccountError;
use crate::address::{amm_address, find_amm_address, Address};
use crate::instructions::create_pool_1::PoolError;
use crate::ledger::Ledger;
use crate::state::{Account, Amm, State};
use crate::token::settles;
use vstd::prelude::*;

verus! {

/// The accounts presented to create an AMM.
#[derive(Clone, Copy, Debug, PartialEq, Eq)]
pub struct CreateAmm {
    /// Where the record of the AMM is to stand.
    pub amm: Address,
    /// The one who may authorize the creation of pools under the AMM.
    pub admin: Address,
}

/// The record of a new AMM: its fees are zero.
pub open spec fn new_amm(id: Address, admin: Address) -> Amm {
    Amm { id, admin, liquidity_fee: 0, protocol_fee_percentage: 0 }
}

/// What a request to create the AMM `id` comes to, given the address that the
/// seed scheme derives for its record.
pub open spec fn create_amm_outcome(
    s: State,
    ctx: CreateAmm,
    id: Address,
    expected: Option<Address>,
) -> Result<State, PoolError> {
    if expected != Some(ctx.amm) {
        Err(PoolError::Accounts(AccountError::SeedMismatch))
    } else if s.contains_key(ctx.amm) {
        Err(PoolError::Accounts(AccountError::AlreadyExists))
    } else {
        Ok(s.insert(ctx.amm, Account::Amm(new_amm(id, ctx.admin))))
    }
}

/// Creates the record of the AMM `id`, given the address that the seed scheme
/// derives for it. The request is refused, and the ledger left as it was, if
/// the presented address is another or is in use.
pub fn create_amm_expecting(
    ledger: &mut Ledger,
    ctx: &CreateAmm,
    id: Address,
    expected: &Option<Address>,
) -> (reported: Result<(), PoolError>)
    ensures
        settles(
            create_amm_outcome(old(ledger)@, *ctx, id, *expected),
            old(ledger)@,
            final(ledger)@,
            reported,
        ),
{
    let derived = match expected {
        Some(derived) => derived.same(&ctx.amm),
        None => false,
    };
    if !derived {
        return Err(PoolError::Accounts(AccountError::SeedMismatch));
    }
    if ledger.get(&ctx.amm).is_some() {
        return Err(PoolError::Accounts(AccountError::AlreadyExists));
    }
    ledger.put(
        ctx.amm,
        Account::Amm(Amm { id, admin: ctx.admin, liquidity_fee: 0, protocol_fee_percentage: 0 }),
    );
    Ok(())
}

/// Creates the record of the AMM `id` at the address that its identity
/// derives. The request is refused, and the ledger left as it was, if the
/// presented address is another or is in use.
pub fn create_amm(ledger: &mut Ledger, ctx: &CreateAmm, id: Address) -> (reported: Result<(), PoolError>)
    ensures
        settles(
            create_amm_outcome(old(ledger)@, *ctx, id, amm_address(id)),
            old(ledger)@,
            final(ledger)@,
            reported,
        ),
{
    let expected = find_amm_address(&id);
    create_amm_expecting(ledger, ctx, id, &expected)
}

} // verus!
