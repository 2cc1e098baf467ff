//! The records that the ledger keeps.

use crate::address::Address;
use vstd::prelude::*;

verus! {

/// Descriptor of an AMM, under which pools are created.
#[derive(Clone, Copy, Debug, PartialEq, Eq)]
pub struct Amm {
    /// Primary key of the AMM.
    pub id: Address,
    /// The one who may authorize the creation of pools under the AMM.
    pub admin: Address,
    /// Liquidity fee; no lending operation reads it.
    pub liquidity_fee: u16,
    /// Share of the liquidity fee that goes to the protocol; no lending operation reads it.
    pub protocol_fee_percentage: u16,
}

impl Amm {
    /// Bytes that the record takes when stored.
    pub const LEN: usize = 8 + 32 + 32 + 2 + 2;
}

/// `pool_type` of a base lending pool.
pub const BASE_POOL: u64 = 0;

/// `pool_type` of a cash pool.
pub const CASH_POOL_TYPE: u64 = 1;

/// Record of a pool: a lending market of one base asset, or the market that
/// wraps its cash token.
#[derive(Clone, Copy, Debug, PartialEq, Eq)]
pub struct Pool {
    /// Address of the record of the owning AMM.
    pub amm: Address,
    /// Mint of the base asset.
    pub mint_a: Address,
    /// Aggregate amount of the base asset; no operation updates it.
    pub token_a_amount: u64,
    /// Aggregate amount of the second asset; no operation updates it.
    pub token_b_amount: u64,
    /// `BASE_POOL` or `CASH_POOL_TYPE`.
    pub pool_type: u64,
}

impl Pool {
    /// Bytes that the record takes when stored.
    pub const LEN: usize = 8 + 32 + 32 + 8 + 8 + 8 + 8;
}

/// A mint: the issuer of one token.
#[derive(Clone, Copy, Debug, PartialEq, Eq)]
pub struct Mint {
    /// The one who may issue the token.
    pub authority: Address,
    /// The one who may lock and unlock balances of the token.
    pub freeze_authority: Address,
    /// Decimal places of an amount.
    pub decimals: u8,
    /// Amount issued and not burned.
    pub supply: u64,
}

/// A balance of one token.
#[derive(Clone, Copy, Debug, PartialEq, Eq)]
pub struct TokenAccount {
    /// Mint of the token held.
    pub mint: Address,
    /// The one who may spend the balance.
    pub owner: Address,
    /// Amount held.
    pub amount: u64,
    /// Whether the balance is locked against transfers.
    pub locked: bool,
}

/// What the ledger keeps at one address.
#[derive(Clone, Copy, Debug, PartialEq, Eq)]
pub enum Account {
    Amm(Amm),
    Pool(Pool),
    Mint(Mint),
    Token(TokenAccount),
}

/// The contents of a ledger: the record at each address in use.
pub type State = Map<Address, Account>;

/// The AMM record at an address.
pub open spec fn amm_at(s: State, address: Address) -> Option<Amm> {
    if s.contains_key(address) {
        match s[address] {
            Account::Amm(amm) => Some(amm),
            _ => None,
        }
    } else {
        None
    }
}

/// The pool record at an address.
pub open spec fn pool_at(s: State, address: Address) -> Option<Pool> {
    if s.contains_key(address) {
        match s[address] {
            Account::Pool(pool) => Some(pool),
            _ => None,
        }
    } else {
        None
    }
}

/// The mint at an address.
pub open spec fn mint_at(s: State, address: Address) -> Option<Mint> {
    if s.contains_key(address) {
        match s[address] {
            Account::Mint(mint) => Some(mint),
            _ => None,
        }
    } else {
        None
    }
}

/// The balance at an address.
pub open spec fn token_at(s: State, address: Address) -> Option<TokenAccount> {
    if s.contains_key(address) {
        match s[address] {
            Account::Token(token) => Some(token),
            _ => None,
        }
    } else {
        None
    }
}

/// Whether two contents agree at every address outside a set: the same
/// addresses are in use, and they hold the same records.
pub open spec fn same_outside(before: State, after: State, written: Set<Address>) -> bool {
    forall|address: Address|
        !written.contains(address) ==> (#[trigger] after.contains_key(address)
            == before.contains_key(address)) && (before.contains_key(address) ==> after[address]
            == before[address])
}

/// The amount held at an address; zero where there is no balance.
pub open spec fn balance_at(s: State, address: Address) -> nat {
    match token_at(s, address) {
        Some(token) => token.amount as nat,
        None => 0,
    }
}

/// The amount issued by the mint at an address; zero where there is no mint.
pub open spec fn supply_at(s: State, address: Address) -> nat {
    match mint_at(s, address) {
        Some(mint) => mint.supply as nat,
        None => 0,
    }
}

} // verus!
