//! The reasons for which the ledger refuses a transition.

use vstd::prelude::*;

verus! {

/// Why a transition was refused. A refused transition changes nothing.
#[derive(Clone, Copy, Debug, PartialEq, Eq, Structural)]
pub enum ErrorCode {
    /// The account holds less than the amount to move or retire.
    InsufficientFunds,
    /// The caller is not the identity that may ask for this transition.
    Unauthorized,
    /// Issuing the amount would take the supply above its cap.
    MaxSupplyExceeded,
    /// A supply or a balance would leave the range of 64 bits.
    ArithmeticOverflow,
    /// The initial supply is above the cap it was given.
    InvalidCap,
}

} // verus!
