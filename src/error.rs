use vstd::prelude::*;

verus! {

/// The failures that a caller of the library sees.
#[derive(Clone, Copy, Debug, PartialEq, Eq)]
pub enum WalletError {
    /// The coordinator or the explorer could not be reached or answered with an error.
    NetworkUnavailable,
    /// A malformed address, key or amount.
    InvalidInput,
    /// The spendable outputs cannot cover the amount.
    InsufficientFunds,
    /// The coordinator sent an event out of order or of the wrong shape.
    ProtocolViolation,
    /// The transaction's inputs and outputs do not form a valid transaction.
    BuildFailed,
    /// The signer refused to sign an input.
    SigningFailed,
}

} // verus!
