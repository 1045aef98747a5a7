use vstd::prelude::*;

verus! {

/// The error conditions the peripheral trading instruction handlers report.
#[derive(Clone, Copy, Debug, PartialEq, Eq, Structural)]
pub enum TradingError {
    /// An amount argument is zero or otherwise unusable.
    InvalidAmount,
    /// A balance is too small for the requested operation.
    InsufficientBalance,
    /// The targeted pool has not been initialized.
    PoolNotInitialized,
    /// The targeted pool's state does not admit the operation.
    InvalidPoolState,
}

} // verus!
