//! Accounting core of a two-asset constant-product market maker.
//!
//! The crate prices swaps against a pool's two reserves, enforces the
//! caller's slippage bound, and lays out the transfers that settle a swap or
//! a deposit. Moving the assets is left to the custody layer of the host.

pub mod address;
pub mod curve;
pub mod error;
pub mod liquidity;
pub mod pool;
pub mod reserves;
pub mod swap;
pub mod transfer;

pub use crate::address::{Address, PoolAddresses};
pub use crate::curve::calculate_swap_output;
pub use crate::error::{SwapError, TransferError};
pub use crate::liquidity::{add_liquidity, AddLiquidity};
pub use crate::pool::{initialize_pool, InitializePool, Pool, PoolEntry, PoolRegistry};
pub use crate::reserves::Reserves;
pub use crate::swap::{current_reserves, swap, ReserveAccount, Swap, SwapPlan};
pub use crate::transfer::{Settlement, Stage, Transfer};
