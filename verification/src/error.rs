//! The ways in which an operation can be rejected.

use vstd::prelude::*;

verus! {

/// The reason an operation was rejected. A rejected operation leaves the
/// state exactly as it found it.
#[derive(Debug, Clone, Copy, PartialEq, Eq)]
pub enum Error {
    /// The account does not hold enough to cover the amount.
    InsufficientBalance,
    /// The spender has not been granted enough to cover the amount.
    InsufficientAllowance,
}

} // verus!
