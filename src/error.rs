use vstd::prelude::*;

verus! {

/// Every way an operation of the protocol can be rejected. A rejected
/// operation leaves every account as it found it.
#[derive(Clone, Copy, Debug, PartialEq, Eq, Structural)]
pub enum StablecoinError {
    /// The price reading is not positive, too old, or too uncertain.
    InvalidPrice,
    /// The resulting position would be under-collateralized.
    BelowMinHealthFactor,
    /// Liquidation was attempted on a healthy position.
    AboveMinimumHealthFactor,
    /// A withdrawal or burn exceeds the recorded balances.
    InsufficientBalance,
    /// The caller does not control the account it tried to change.
    Unauthorized,
    /// The protocol configuration has already been created.
    ConfigAlreadyInitialized,
    /// A minimum health factor of zero was requested.
    InvalidHealthFactor,
    /// A balance would exceed the range of its counter.
    ArithmeticOverflow,
}

} // verus!
