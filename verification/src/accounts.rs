//! Checks on the accounts that a request presents.

use crate::address::Address;
use crate::constants::MINT_DECIMALS;
use crate::ledger::Ledger;
use crate::state::{mint_at, token_at, Account, State, TokenAccount};
use vstd::prelude::*;

verus! {

/// Why the accounts of a request were refused.
#[derive(Clone, Copy, Debug, PartialEq, Eq)]
pub enum AccountError {
    /// State that must exist before the request does not: a record is
    /// missing, or the address holds a record of another kind.
    NotFound,
    /// An address at which the request creates a record holds one already.
    AlreadyExists,
    /// A presented address is not the one that the seeds derive.
    SeedMismatch,
    /// An account is not under the owner, authority or admin that its role requires.
    Unauthorized,
    /// A balance is not of the mint, or a mint not of the decimals, that its role requires.
    MintMismatch,
}

impl AccountError {
    /// The refusal in words.
    pub open spec fn spec_message(&self) -> Seq<char> {
        match self {
            AccountError::NotFound => "Account not found"@,
            AccountError::AlreadyExists => "Account already exists"@,
            AccountError::SeedMismatch => "Seed mismatch"@,
            AccountError::Unauthorized => "Unauthorized"@,
            AccountError::MintMismatch => "Mint mismatch"@,
        }
    }

    /// The refusal in words.
    pub fn message(&self) -> (text: &'static str)
        ensures
            text@ == self.spec_message(),
    {
        match self {
            AccountError::NotFound => "Account not found",
            AccountError::AlreadyExists => "Account already exists",
            AccountError::SeedMismatch => "Seed mismatch",
            AccountError::Unauthorized => "Unauthorized",
            AccountError::MintMismatch => "Mint mismatch",
        }
    }
}

/// The first of two faults.
pub open spec fn first_fault(
    first: Option<AccountError>,
    second: Option<AccountError>,
) -> Option<AccountError> {
    if first is Some {
        first
    } else {
        second
    }
}

/// What is wrong with a balance that must exist, be of `mint` and belong to `owner`.
pub open spec fn balance_fault(
    s: State,
    address: Address,
    mint: Address,
    owner: Address,
) -> Option<AccountError> {
    match token_at(s, address) {
        None => Some(AccountError::NotFound),
        Some(token) => if token.mint != mint {
            Some(AccountError::MintMismatch)
        } else if token.owner != owner {
            Some(AccountError::Unauthorized)
        } else {
            None
        },
    }
}

/// What is wrong with a balance that is opened on first use: nothing where
/// the address is free, else what `balance_fault` finds.
pub open spec fn fresh_balance_fault(
    s: State,
    address: Address,
    mint: Address,
    owner: Address,
) -> Option<AccountError> {
    if s.contains_key(address) {
        balance_fault(s, address, mint, owner)
    } else {
        None
    }
}

/// What is wrong with a mint that must exist, have six decimals, and have
/// `authority` as both its mint authority and its freeze authority.
pub open spec fn pool_mint_fault(s: State, address: Address, authority: Address) -> Option<AccountError> {
    match mint_at(s, address) {
        None => Some(AccountError::NotFound),
        Some(mint) => if mint.decimals != MINT_DECIMALS {
            Some(AccountError::MintMismatch)
        } else if mint.authority != authority || mint.freeze_authority != authority {
            Some(AccountError::Unauthorized)
        } else {
            None
        },
    }
}

/// The contents after a balance that is opened on first use has been provided.
pub open spec fn provided(s: State, address: Address, mint: Address, owner: Address) -> State {
    if s.contains_key(address) {
        s
    } else {
        s.insert(address, Account::Token(TokenAccount { mint, owner, amount: 0, locked: false }))
    }
}

impl Ledger {
    /// Checks a balance that must exist, be of `mint` and belong to `owner`.
    pub fn balance_fault(
        &self,
        address: &Address,
        mint: &Address,
        owner: &Address,
    ) -> (fault: Option<AccountError>)
        ensures
            fault == balance_fault(self@, *address, *mint, *owner),
    {
        match self.token(address) {
            None => Some(AccountError::NotFound),
            Some(token) => if !token.mint.same(mint) {
                Some(AccountError::MintMismatch)
            } else if !token.owner.same(owner) {
                Some(AccountError::Unauthorized)
            } else {
                None
            },
        }
    }

    /// Checks a balance that is opened on first use.
    pub fn fresh_balance_fault(
        &self,
        address: &Address,
        mint: &Address,
        owner: &Address,
    ) -> (fault: Option<AccountError>)
        ensures
            fault == fresh_balance_fault(self@, *address, *mint, *owner),
    {
        if self.get(address).is_some() {
            self.balance_fault(address, mint, owner)
        } else {
            None
        }
    }

    /// Checks a mint that a pool has created under its authority.
    pub fn pool_mint_fault(&self, address: &Address, authority: &Address) -> (fault: Option<AccountError>)
        ensures
            fault == pool_mint_fault(self@, *address, *authority),
    {
        match self.mint(address) {
            None => Some(AccountError::NotFound),
            Some(mint) => if mint.decimals != MINT_DECIMALS {
                Some(AccountError::MintMismatch)
            } else if !mint.authority.same(authority) || !mint.freeze_authority.same(authority) {
                Some(AccountError::Unauthorized)
            } else {
                None
            },
        }
    }

    /// Opens an empty balance at the address unless the address is in use.
    pub(crate) fn provide(&mut self, address: &Address, mint: &Address, owner: &Address)
        ensures
            final(self)@ == provided(old(self)@, *address, *mint, *owner),
    {
        if self.get(address).is_none() {
            self.put(
                *address,
                Account::Token(TokenAccount { mint: *mint, owner: *owner, amount: 0, locked: false }),
            );
        }
    }
}

} // verus!
