//! The position value type: the read-only snapshot of a user's financial
//! state that the executor returns after a successful call.

use vstd::prelude::*;

verus! {

/// Mathematical image of a [`Position`]: the same fields over unbounded
/// integers, with the identifier as a sequence of characters.
#[verifier::ext_equal]
pub ghost struct PositionView {
    pub id: Seq<char>,
    pub health_factor: int,
    pub ltv: int,
    pub collateral: int,
    pub debt: int,
}

/// A snapshot of one user's position.
///
/// The four numeric fields are derived outputs of the position oracle: a
/// caller can never set them directly, and the executor re-derives them
/// after a successful batch. `health_factor` and `ltv` use one canonical
/// fixed-point scale, basis points (10000 = 1.00); amounts are plain
/// integer token amounts.
#[derive(Clone, Debug)]
pub struct Position {
    /// Opaque identifier of the position.
    pub id: String,
    /// Inverse risk measure in basis points; below 10000 means imminent
    /// liquidation risk.
    pub health_factor: i128,
    /// Loan-to-value ratio in basis points; higher means riskier.
    pub ltv: i128,
    /// Total pledged collateral amount.
    pub collateral: i128,
    /// Total outstanding debt amount.
    pub debt: i128,
}

impl View for Position {
    type V = PositionView;

    open spec fn view(&self) -> PositionView {
        PositionView {
            id: self.id@,
            health_factor: self.health_factor as int,
            ltv: self.ltv as int,
            collateral: self.collateral as int,
            debt: self.debt as int,
        }
    }
}

} // verus!
