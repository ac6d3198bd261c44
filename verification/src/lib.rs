//! Settlement core of a two-asset automated market maker.
//!
//! The crate keeps the reserves of a liquidity pool, issues and redeems the
//! pool's share token and prices swaps along the fee-free constant-product
//! curve. Every operation is a single transition over plain values: it
//! either takes effect as a whole and returns the amounts it computed, or
//! it is refused for one reason and changes nothing. Moving the tokens on a
//! ledger is left to the caller, who is told which movements to ask for and
//! in which order.
//!
//! - [`identity`] and [`address`]: the identities of assets and accounts,
//!   and the addresses that a pool and its accounts are derived at.
//! - [`pool`]: the record that binds an asset pair to its vaults and its
//!   share token.
//! - [`curve`]: the arithmetic of shares, redemption and prices.
//! - [`reserves`]: the balances of a pool and what a deposit, a withdrawal
//!   and a swap do to them.
//! - [`ledger`]: the movements of tokens that an operation asks for.
//! - [`handlers`] and [`instructions`]: the operations, checked against
//!   the identities the pool is bound to.
//! - [`laws`]: what holds of every operation.

pub mod address;
pub mod curve;
pub mod error;
pub mod handlers;
pub mod identity;
pub mod index;
pub mod instructions;
pub mod laws;
pub mod ledger;
pub mod pool;
pub mod reserves;

pub use error::AmmError;
pub use handlers::{
    add_liquidity_handler, create_pool_handler, remove_liquidity_handler, swap_handler,
};
pub use identity::Identity;
pub use index::wrapped_index;
pub use instructions::{add_liquidity, create_pool, remove_liquidity, swap};
pub use ledger::Effect;
pub use pool::{Empty, LoadedPool, Pool};
pub use reserves::{Reserves, Side};
