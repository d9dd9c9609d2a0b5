//! The closed error taxonomy of the safety vault.

use vstd::prelude::*;

verus! {

/// Every way a call into the safety vault can fail. The executor surfaces
/// the exact kind raised by the first failing step; no error is ever
/// swallowed or downgraded.
#[derive(Copy, Clone, Debug, PartialEq, Eq, Structural)]
pub enum SafetyVaultError {
    /// A handler needs funds the user does not have.
    InsufficientBalance,
    /// The referenced pool (or its backstop binding) does not exist.
    PoolNotFound,
    /// The backstop declined the insurance claim or errored.
    InsuranceClaimFailed,
    /// The caller is not the user whose position is acted on.
    Unauthorized,
    /// A supplied parameter violates a precondition (e.g. a non-positive
    /// amount).
    InvalidAction,
    /// A handler's delegated operation failed for a reason not covered by
    /// the other kinds.
    ActionExecutionFailed,
    /// The position's loan-to-value is below the protection threshold.
    NotAtRisk,
}

} // verus!
