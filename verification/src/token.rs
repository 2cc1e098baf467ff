//! The token primitive: mints and balances, and the operations that move,
//! issue, lock and burn tokens.
//!
//! The `authority` of an operation is the address in whose name it is made.
//! That the caller speaks for that address, by a signature or by presenting
//! again the seeds that the address derives from, is for the ledger's
//! execution environment to establish before the operation is made.

use crate::address::Address;
use crate::ledger::Ledger;
use crate::state::{mint_at, token_at, Account, Mint, State, TokenAccount};
use vstd::prelude::*;

verus! {

/// Why the token primitive refused an operation.
#[derive(Clone, Copy, Debug, PartialEq, Eq)]
pub enum TokenError {
    /// An address that must hold a mint or a balance holds none.
    AccountMissing,
    /// An address that must be free holds a record.
    AlreadyExists,
    /// A balance is not of the mint that the operation names.
    MintMismatch,
    /// The authority is not the one that the operation requires.
    Unauthorized,
    /// A locked balance is touched without the freeze authority taking part.
    AccountLocked,
    /// The balance is smaller than the amount.
    InsufficientBalance,
    /// An amount would leave the range of a balance or a supply.
    Overflow,
}

impl TokenError {
    /// The refusal in words.
    pub open spec fn spec_message(&self) -> Seq<char> {
        match self {
            TokenError::AccountMissing => "Account missing"@,
            TokenError::AlreadyExists => "Account already exists"@,
            TokenError::MintMismatch => "Mint mismatch"@,
            TokenError::Unauthorized => "Unauthorized"@,
            TokenError::AccountLocked => "Account locked"@,
            TokenError::InsufficientBalance => "Insufficient balance"@,
            TokenError::Overflow => "Overflow"@,
        }
    }

    /// The refusal in words.
    pub fn message(&self) -> (text: &'static str)
        ensures
            text@ == self.spec_message(),
    {
        match self {
            TokenError::AccountMissing => "Account missing",
            TokenError::AlreadyExists => "Account already exists",
            TokenError::MintMismatch => "Mint mismatch",
            TokenError::Unauthorized => "Unauthorized",
            TokenError::AccountLocked => "Account locked",
            TokenError::InsufficientBalance => "Insufficient balance",
            TokenError::Overflow => "Overflow",
        }
    }
}

/// What came of an operation: on success the ledger holds the new contents, on
/// failure the error is reported and the ledger is as it was.
pub open spec fn settles<E>(
    outcome: Result<State, E>,
    before: State,
    after: State,
    reported: Result<(), E>,
) -> bool {
    match outcome {
        Ok(s) => reported is Ok && after == s,
        Err(e) => reported == Err::<(), E>(e) && after == before,
    }
}

/// A balance with another amount.
pub open spec fn with_amount(token: TokenAccount, amount: u64) -> TokenAccount {
    TokenAccount { mint: token.mint, owner: token.owner, amount, locked: token.locked }
}

/// A balance with another lock state.
pub open spec fn with_lock(token: TokenAccount, locked: bool) -> TokenAccount {
    TokenAccount { mint: token.mint, owner: token.owner, amount: token.amount, locked }
}

/// A mint with another supply.
pub open spec fn with_supply(mint: Mint, supply: u64) -> Mint {
    Mint {
        authority: mint.authority,
        freeze_authority: mint.freeze_authority,
        decimals: mint.decimals,
        supply,
    }
}

/// Whether a lock bars a transfer. A transfer that touches a locked balance is
/// made only where the freeze authority of the mint takes part in it: as the
/// authority of the transfer, or as the owner of the balance that receives.
pub open spec fn lock_bars(s: State, from: TokenAccount, to: TokenAccount, authority: Address) -> bool {
    (from.locked || to.locked) && match mint_at(s, from.mint) {
        Some(mint) => authority != mint.freeze_authority && to.owner != mint.freeze_authority,
        None => true,
    }
}

/// Creating a mint at a free address, with nothing issued.
pub open spec fn create_mint_outcome(
    s: State,
    address: Address,
    authority: Address,
    freeze_authority: Address,
    decimals: u8,
) -> Result<State, TokenError> {
    if s.contains_key(address) {
        Err(TokenError::AlreadyExists)
    } else {
        Ok(s.insert(address, Account::Mint(Mint { authority, freeze_authority, decimals, supply: 0 })))
    }
}

/// Opening an empty, unlocked balance of an existing mint at a free address.
pub open spec fn open_account_outcome(
    s: State,
    address: Address,
    mint: Address,
    owner: Address,
) -> Result<State, TokenError> {
    if s.contains_key(address) {
        Err(TokenError::AlreadyExists)
    } else if mint_at(s, mint) is None {
        Err(TokenError::AccountMissing)
    } else {
        Ok(s.insert(address, Account::Token(TokenAccount { mint, owner, amount: 0, locked: false })))
    }
}

/// Moving `amount` from one balance to another of the same mint, in the name
/// of the owner of the first.
pub open spec fn transfer_outcome(
    s: State,
    from: Address,
    to: Address,
    authority: Address,
    amount: u64,
) -> Result<State, TokenError> {
    match (token_at(s, from), token_at(s, to)) {
        (Some(source), Some(target)) => {
            if source.mint != target.mint {
                Err(TokenError::MintMismatch)
            } else if source.owner != authority {
                Err(TokenError::Unauthorized)
            } else if lock_bars(s, source, target, authority) {
                Err(TokenError::AccountLocked)
            } else if source.amount < amount {
                Err(TokenError::InsufficientBalance)
            } else if from == to {
                Ok(s)
            } else if target.amount + amount > u64::MAX {
                Err(TokenError::Overflow)
            } else {
                Ok(
                    s.insert(from, Account::Token(with_amount(source, (source.amount - amount) as u64)))
                        .insert(to, Account::Token(with_amount(target, (target.amount + amount) as u64))),
                )
            }
        },
        _ => Err(TokenError::AccountMissing),
    }
}

/// Issuing `amount` of a mint into a balance, in the name of the mint's
/// authority. A locked balance is credited only by the freeze authority.
pub open spec fn mint_to_outcome(
    s: State,
    mint: Address,
    to: Address,
    authority: Address,
    amount: u64,
) -> Result<State, TokenError> {
    match (mint_at(s, mint), token_at(s, to)) {
        (Some(issuer), Some(target)) => {
            if target.mint != mint {
                Err(TokenError::MintMismatch)
            } else if issuer.authority != authority {
                Err(TokenError::Unauthorized)
            } else if target.locked && issuer.freeze_authority != authority {
                Err(TokenError::AccountLocked)
            } else if issuer.supply + amount > u64::MAX || target.amount + amount > u64::MAX {
                Err(TokenError::Overflow)
            } else {
                Ok(
                    s.insert(mint, Account::Mint(with_supply(issuer, (issuer.supply + amount) as u64)))
                        .insert(to, Account::Token(with_amount(target, (target.amount + amount) as u64))),
                )
            }
        },
        _ => Err(TokenError::AccountMissing),
    }
}

/// Locking a balance, in the name of the freeze authority of its mint.
pub open spec fn freeze_outcome(s: State, account: Address, authority: Address) -> Result<State, TokenError> {
    match token_at(s, account) {
        Some(target) => match mint_at(s, target.mint) {
            Some(issuer) => {
                if issuer.freeze_authority != authority {
                    Err(TokenError::Unauthorized)
                } else {
                    Ok(s.insert(account, Account::Token(with_lock(target, true))))
                }
            },
            None => Err(TokenError::AccountMissing),
        },
        None => Err(TokenError::AccountMissing),
    }
}

/// Unlocking a balance, in the name of the freeze authority of its mint.
pub open spec fn thaw_outcome(s: State, account: Address, authority: Address) -> Result<State, TokenError> {
    match token_at(s, account) {
        Some(target) => match mint_at(s, target.mint) {
            Some(issuer) => {
                if issuer.freeze_authority != authority {
                    Err(TokenError::Unauthorized)
                } else {
                    Ok(s.insert(account, Account::Token(with_lock(target, false))))
                }
            },
            None => Err(TokenError::AccountMissing),
        },
        None => Err(TokenError::AccountMissing),
    }
}

/// Issuing into a balance and then locking it.
pub open spec fn mint_and_freeze_outcome(
    s: State,
    mint: Address,
    to: Address,
    authority: Address,
    amount: u64,
) -> Result<State, TokenError> {
    match mint_to_outcome(s, mint, to, authority, amount) {
        Ok(issued) => freeze_outcome(issued, to, authority),
        Err(e) => Err(e),
    }
}

/// Burning `amount` of a mint from a balance, in the name of the owner of the
/// balance. A lock does not bar it.
pub open spec fn burn_outcome(
    s: State,
    mint: Address,
    from: Address,
    authority: Address,
    amount: u64,
) -> Result<State, TokenError> {
    match (mint_at(s, mint), token_at(s, from)) {
        (Some(issuer), Some(source)) => {
            if source.mint != mint {
                Err(TokenError::MintMismatch)
            } else if source.owner != authority {
                Err(TokenError::Unauthorized)
            } else if source.amount < amount {
                Err(TokenError::InsufficientBalance)
            } else if issuer.supply < amount {
                Err(TokenError::Overflow)
            } else {
                Ok(
                    s.insert(mint, Account::Mint(with_supply(issuer, (issuer.supply - amount) as u64)))
                        .insert(from, Account::Token(with_amount(source, (source.amount - amount) as u64))),
                )
            }
        },
        _ => Err(TokenError::AccountMissing),
    }
}

impl Ledger {
    /// Creates a mint at a free address, with nothing issued.
    pub fn create_mint(
        &mut self,
        address: &Address,
        authority: &Address,
        freeze_authority: &Address,
        decimals: u8,
    ) -> (reported: Result<(), TokenError>)
        ensures
            settles(
                create_mint_outcome(old(self)@, *address, *authority, *freeze_authority, decimals),
                old(self)@,
                final(self)@,
                reported,
            ),
    {
        if self.get(address).is_some() {
            return Err(TokenError::AlreadyExists);
        }
        self.put(
            *address,
            Account::Mint(
                Mint { authority: *authority, freeze_authority: *freeze_authority, decimals, supply: 0 },
            ),
        );
        Ok(())
    }

    /// Opens an empty, unlocked balance of an existing mint at a free address.
    pub fn open_account(
        &mut self,
        address: &Address,
        mint: &Address,
        owner: &Address,
    ) -> (reported: Result<(), TokenError>)
        ensures
            settles(
                open_account_outcome(old(self)@, *address, *mint, *owner),
                old(self)@,
                final(self)@,
                reported,
            ),
    {
        if self.get(address).is_some() {
            return Err(TokenError::AlreadyExists);
        }
        if self.mint(mint).is_none() {
            return Err(TokenError::AccountMissing);
        }
        self.put(
            *address,
            Account::Token(TokenAccount { mint: *mint, owner: *owner, amount: 0, locked: false }),
        );
        Ok(())
    }

    fn lock_bars(&self, from: &TokenAccount, to: &TokenAccount, authority: &Address) -> (barred: bool)
        ensures
            barred == lock_bars(self@, *from, *to, *authority),
    {
        if !(from.locked || to.locked) {
            return false;
        }
        match self.mint(&from.mint) {
            Some(mint) => !authority.same(&mint.freeze_authority) && !to.owner.same(
                &mint.freeze_authority,
            ),
            None => true,
        }
    }

    /// Moves `amount` from one balance to another of the same mint.
    pub fn transfer(
        &mut self,
        from: &Address,
        to: &Address,
        authority: &Address,
        amount: u64,
    ) -> (reported: Result<(), TokenError>)
        ensures
            settles(
                transfer_outcome(old(self)@, *from, *to, *authority, amount),
                old(self)@,
                final(self)@,
                reported,
            ),
    {
        let (source, target) = match (self.token(from), self.token(to)) {
            (Some(source), Some(target)) => (source, target),
            _ => { return Err(TokenError::AccountMissing); },
        };
        if !source.mint.same(&target.mint) {
            return Err(TokenError::MintMismatch);
        }
        if !source.owner.same(authority) {
            return Err(TokenError::Unauthorized);
        }
        if self.lock_bars(&source, &target, authority) {
            return Err(TokenError::AccountLocked);
        }
        if source.amount < amount {
            return Err(TokenError::InsufficientBalance);
        }
        if from.same(to) {
            return Ok(());
        }
        if target.amount > u64::MAX - amount {
            return Err(TokenError::Overflow);
        }
        self.put(
            *from,
            Account::Token(
                TokenAccount {
                    mint: source.mint,
                    owner: source.owner,
                    amount: source.amount - amount,
                    locked: source.locked,
                },
            ),
        );
        self.put(
            *to,
            Account::Token(
                TokenAccount {
                    mint: target.mint,
                    owner: target.owner,
                    amount: target.amount + amount,
                    locked: target.locked,
                },
            ),
        );
        Ok(())
    }

    /// Issues `amount` of a mint into a balance.
    pub fn mint_to(
        &mut self,
        mint: &Address,
        to: &Address,
        authority: &Address,
        amount: u64,
    ) -> (reported: Result<(), TokenError>)
        ensures
            settles(
                mint_to_outcome(old(self)@, *mint, *to, *authority, amount),
                old(self)@,
                final(self)@,
                reported,
            ),
    {
        let (issuer, target) = match (self.mint(mint), self.token(to)) {
            (Some(issuer), Some(target)) => (issuer, target),
            _ => { return Err(TokenError::AccountMissing); },
        };
        if !target.mint.same(mint) {
            return Err(TokenError::MintMismatch);
        }
        if !issuer.authority.same(authority) {
            return Err(TokenError::Unauthorized);
        }
        if target.locked && !issuer.freeze_authority.same(authority) {
            return Err(TokenError::AccountLocked);
        }
        if issuer.supply > u64::MAX - amount || target.amount > u64::MAX - amount {
            return Err(TokenError::Overflow);
        }
        self.put(
            *mint,
            Account::Mint(
                Mint {
                    authority: issuer.authority,
                    freeze_authority: issuer.freeze_authority,
                    decimals: issuer.decimals,
                    supply: issuer.supply + amount,
                },
            ),
        );
        self.put(
            *to,
            Account::Token(
                TokenAccount {
                    mint: target.mint,
                    owner: target.owner,
                    amount: target.amount + amount,
                    locked: target.locked,
                },
            ),
        );
        Ok(())
    }

    fn set_lock(
        &mut self,
        account: &Address,
        authority: &Address,
        locked: bool,
    ) -> (reported: Result<(), TokenError>)
        ensures
            locked ==> settles(
                freeze_outcome(old(self)@, *account, *authority),
                old(self)@,
                final(self)@,
                reported,
            ),
            !locked ==> settles(
                thaw_outcome(old(self)@, *account, *authority),
                old(self)@,
                final(self)@,
                reported,
            ),
    {
        let target = match self.token(account) {
            Some(target) => target,
            None => { return Err(TokenError::AccountMissing); },
        };
        let issuer = match self.mint(&target.mint) {
            Some(issuer) => issuer,
            None => { return Err(TokenError::AccountMissing); },
        };
        if !issuer.freeze_authority.same(authority) {
            return Err(TokenError::Unauthorized);
        }
        self.put(
            *account,
            Account::Token(
                TokenAccount { mint: target.mint, owner: target.owner, amount: target.amount, locked },
            ),
        );
        Ok(())
    }

    /// Locks a balance against transfers.
    pub fn freeze(&mut self, account: &Address, authority: &Address) -> (reported: Result<(), TokenError>)
        ensures
            settles(
                freeze_outcome(old(self)@, *account, *authority),
                old(self)@,
                final(self)@,
                reported,
            ),
    {
        self.set_lock(account, authority, true)
    }

    /// Unlocks a balance.
    pub fn thaw(&mut self, account: &Address, authority: &Address) -> (reported: Result<(), TokenError>)
        ensures
            settles(
                thaw_outcome(old(self)@, *account, *authority),
                old(self)@,
                final(self)@,
                reported,
            ),
    {
        self.set_lock(account, authority, false)
    }

    /// Issues `amount` of a mint into a balance and then locks the balance.
    pub fn mint_and_freeze(
        &mut self,
        mint: &Address,
        to: &Address,
        authority: &Address,
        amount: u64,
    ) -> (reported: Result<(), TokenError>)
        ensures
            settles(
                mint_and_freeze_outcome(old(self)@, *mint, *to, *authority, amount),
                old(self)@,
                final(self)@,
                reported,
            ),
    {
        let (issuer, target) = match (self.mint(mint), self.token(to)) {
            (Some(issuer), Some(target)) => (issuer, target),
            _ => { return Err(TokenError::AccountMissing); },
        };
        if !target.mint.same(mint) {
            return Err(TokenError::MintMismatch);
        }
        if !issuer.authority.same(authority) {
            return Err(TokenError::Unauthorized);
        }
        if target.locked && !issuer.freeze_authority.same(authority) {
            return Err(TokenError::AccountLocked);
        }
        if issuer.supply > u64::MAX - amount || target.amount > u64::MAX - amount {
            return Err(TokenError::Overflow);
        }
        if !issuer.freeze_authority.same(authority) {
            return Err(TokenError::Unauthorized);
        }
        let issued = Mint {
            authority: issuer.authority,
            freeze_authority: issuer.freeze_authority,
            decimals: issuer.decimals,
            supply: issuer.supply + amount,
        };
        let credited = TokenAccount {
            mint: target.mint,
            owner: target.owner,
            amount: target.amount + amount,
            locked: true,
        };
        proof {
            let before = old(self)@;
            let after_issue = before.insert(*mint, Account::Mint(issued)).insert(
                *to,
                Account::Token(with_amount(target, (target.amount + amount) as u64)),
            );
            assert(mint_to_outcome(before, *mint, *to, *authority, amount) == Ok::<State, TokenError>(
                after_issue,
            ));
            assert(token_at(after_issue, *to) == Some(with_amount(target, (target.amount + amount) as u64)));
            assert(mint_at(after_issue, *mint) == Some(issued));
            assert(after_issue.insert(*to, Account::Token(credited)) =~= before.insert(
                *mint,
                Account::Mint(issued),
            ).insert(*to, Account::Token(credited)));
        }
        self.put(*mint, Account::Mint(issued));
        self.put(*to, Account::Token(credited));
        Ok(())
    }

    /// Burns `amount` of a mint from a balance.
    pub fn burn(
        &mut self,
        mint: &Address,
        from: &Address,
        authority: &Address,
        amount: u64,
    ) -> (reported: Result<(), TokenError>)
        ensures
            settles(
                burn_outcome(old(self)@, *mint, *from, *authority, amount),
                old(self)@,
                final(self)@,
                reported,
            ),
    {
        let (issuer, source) = match (self.mint(mint), self.token(from)) {
            (Some(issuer), Some(source)) => (issuer, source),
            _ => { return Err(TokenError::AccountMissing); },
        };
        if !source.mint.same(mint) {
            return Err(TokenError::MintMismatch);
        }
        if !source.owner.same(authority) {
            return Err(TokenError::Unauthorized);
        }
        if source.amount < amount {
            return Err(TokenError::InsufficientBalance);
        }
        if issuer.supply < amount {
            return Err(TokenError::Overflow);
        }
        self.put(
            *mint,
            Account::Mint(
                Mint {
                    authority: issuer.authority,
                    freeze_authority: issuer.freeze_authority,
                    decimals: issuer.decimals,
                    supply: issuer.supply - amount,
                },
            ),
        );
        self.put(
            *from,
            Account::Token(
                TokenAccount {
                    mint: source.mint,
                    owner: source.owner,
                    amount: source.amount - amount,
                    locked: source.locked,
                },
            ),
        );
        Ok(())
    }
}

} // verus!
