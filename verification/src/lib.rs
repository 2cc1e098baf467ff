//! A collateralized lending protocol over an explicit ledger of account records.
//!
//! Lenders lock a base asset in a pool and are issued a receipt token for the
//! principal and a cash token for a fixed share of it; cash can in turn be
//! wrapped one for one into scash through a second pool. Every working account
//! of an operation is found again from a fixed seed scheme, and an operation
//! either applies in full or leaves the ledger as it was.
//!
//! - [`address`]: addresses, and their derivation from seeds and role tags.
//! - [`state`]: the records of the ledger, and its contents as a map.
//! - [`ledger`]: the store of records.
//! - [`token`]: mints and balances: transfer, mint, lock, burn.
//! - [`accounts`]: the checks on the accounts that a request presents.
//! - [`instructions`]: the operations: creating an AMM and its pools, lending
//!   and redeeming, lending and redeeming cash.
//! - [`laws`]: what holds of the operations taken together.
//!
//! What an operation comes to is given as a function of the contents of the
//! ledger; the operation's contract says that the ledger ends up with exactly
//! that outcome.

pub mod accounts;
pub mod address;
pub mod constants;
pub mod instructions;
pub mod laws;
pub mod ledger;
pub mod state;
pub mod token;

pub use crate::instructions::create_amm::{create_amm, CreateAmm};
pub use crate::instructions::create_cash_pool::{create_cash_pool, CreateCashPool};
pub use crate::instructions::create_pool_1::{create_pool_1, CreatePool1, PoolError};
pub use crate::instructions::lend::{lend, Lend, LendError};
pub use crate::instructions::lendcash::{lend_cash, LendCash};
pub use crate::instructions::redeem::{redeem, Redeem, RedeemError};
pub use crate::instructions::redeemcash::{redeem_cash, RedeemCash};
pub use crate::state::{Amm, Pool};
