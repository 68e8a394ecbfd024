//! The errors that the pool operations report.

use vstd::prelude::*;

verus! {

/// A failure reported by the custody layer for one transfer. The code is
/// carried through unchanged; this crate never interprets it.
#[derive(Debug, Clone, Copy, PartialEq, Eq, Structural)]
pub struct TransferError {
    pub code: u64,
}

/// Why a pool operation had no effect.
#[derive(Debug, Clone, Copy, PartialEq, Eq, Structural)]
pub enum SwapError {
    /// A pool for the same pair of assets is already registered.
    AlreadyExists,
    /// No pool is registered for the pair of assets.
    NotFound,
    /// A step of the pricing formula does not fit in 64 bits, or divides by zero.
    MathOverflow,
    /// The computed output is below the caller's minimum.
    SlippageTooHigh,
    /// The custody layer refused one leg of the settlement.
    Transfer(TransferError),
}

} // verus!
