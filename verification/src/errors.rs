//! The error taxonomy of the ledger.
//!
//! Every error aborts the whole operation with no partial state change and
//! is surfaced directly to the caller; there is no local recovery or retry.

use vstd::prelude::*;

verus! {

/// Why a ledger operation was refused.
#[derive(Clone, Copy, Debug, PartialEq, Eq, Structural)]
pub enum BlogError {
    /// A post, comment or user index entry is absent.
    NotFound,
    /// A caller other than the owner attempted a privileged mutation.
    Unauthorized,
    /// An argument failed validation (comment too short, zero donation).
    ValidationError,
    /// The value attached to a donation is below the donated amount.
    InsufficientFunds,
    /// A counter that is already zero would have been decremented.
    Underflow,
    /// The settlement's transfer leg did not complete.
    TransferFailed,
}

} // verus!
