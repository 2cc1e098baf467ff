//! The operations of the protocol, one module each.
//!
//! A request presents the addresses of all accounts that it works on. The
//! operation derives those addresses again from the seed scheme and refuses
//! the request unless they are the presented ones. The lender or admin of a
//! request is the address in whose name the request is made; that the caller
//! speaks for that address is for the ledger's execution environment to
//! establish before the operation is made.
//!
//! Each operation comes in two forms. The one named after the operation makes
//! the derivation itself. The one whose name ends in `_expecting` takes the
//! derived accounts as an argument and does the rest.

pub mod create_amm;
pub mod create_cash_pool;
pub mod create_pool_1;
pub mod lend;
pub mod lendcash;
pub mod redeem;
pub mod redeemcash;
