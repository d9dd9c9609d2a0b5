//! The closed set of risk-mitigation actions a caller may request.

use vstd::prelude::*;

verus! {

/// One requested mitigation action. Pools, debt assets and users are
/// identified by plain integer identifiers standing in for on-chain
/// addresses; amounts must be strictly positive, and zero or negative
/// values are a caller error, never silently clamped.
#[derive(Clone, Copy, Debug, PartialEq, Eq, Structural)]
pub enum SafetyAction {
    /// Increase pledged collateral in the given pool by the given amount.
    TopUpCollateral(u64, i128),
    /// Trigger the insurance payout of the backstop bound to the given pool.
    ClaimInsurance(u64),
    /// Reduce outstanding debt in the given debt asset by the given amount.
    PartialRepay(u64, i128),
}

} // verus!
