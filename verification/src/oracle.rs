//! The position oracle's reference valuation.
//!
//! Deriving loan-to-value and health factor from real multi-pool positions
//! (aggregation, price feeds, rounding) is the oracle's responsibility and
//! lives outside the orchestration core. This module gives the reference
//! valuation the core is verified and tested against: the plain
//! debt-to-collateral ratio of the modelled state, in one canonical
//! fixed-point scale, basis points (10000 = 100%), rounded toward zero.

use vstd::prelude::*;

use crate::position::{Position, PositionView};
use crate::state::{StateView, VaultState};

verus! {

/// Health factor reported for a position with no outstanding debt.
pub const HEALTH_FACTOR_UNBOUNDED: i128 = i128::MAX;

/// Loan-to-value of a position in basis points, saturated at `u32::MAX`:
/// `debt * 10000 / collateral`, rounded toward zero. A position with no
/// collateral counts as fully risky unless it also has no debt.
pub open spec fn spec_ltv_bps(collateral: int, debt: int) -> int {
    if collateral <= 0 {
        if debt <= 0 {
            0
        } else {
            u32::MAX as int
        }
    } else {
        let q = debt * 10000 / collateral;
        if q > u32::MAX as int {
            u32::MAX as int
        } else {
            q
        }
    }
}

/// Health factor of a position in basis points: `collateral * 10000 /
/// debt`, rounded toward zero, or [`HEALTH_FACTOR_UNBOUNDED`] when there
/// is no debt.
pub open spec fn spec_health_factor_bps(collateral: int, debt: int) -> int {
    if debt <= 0 {
        HEALTH_FACTOR_UNBOUNDED as int
    } else {
        collateral * 10000 / debt
    }
}

/// The full position snapshot the oracle derives from collaborator state.
pub open spec fn spec_snapshot(s: StateView) -> PositionView {
    PositionView {
        id: s.position_id,
        health_factor: spec_health_factor_bps(s.collateral, s.debt),
        ltv: spec_ltv_bps(s.collateral, s.debt),
        collateral: s.collateral,
        debt: s.debt,
    }
}

/// The oracle's `get_ltv_basis_points`: the user's current loan-to-value
/// in basis points.
pub fn get_user_position_ltv(state: &VaultState) -> (r: u32)
    requires
        state@.wf(),
    ensures
        r as int == spec_ltv_bps(state@.collateral, state@.debt),
{
    if state.collateral <= 0 {
        if state.debt <= 0 {
            0
        } else {
            u32::MAX
        }
    } else {
        let num: u128 = (state.debt as u128) * 10000;
        let q: u128 = num / (state.collateral as u128);
        if q > u32::MAX as u128 {
            u32::MAX
        } else {
            q as u32
        }
    }
}

/// The oracle's `get_position`: the complete position snapshot, with
/// `health_factor` and `ltv` re-derived from the current state.
pub fn get_user_position(state: &VaultState) -> (p: Position)
    requires
        state@.wf(),
    ensures
        p@ == spec_snapshot(state@),
{
    let health_factor: i128 = if state.debt <= 0 {
        HEALTH_FACTOR_UNBOUNDED
    } else {
        let num: u128 = (state.collateral as u128) * 10000;
        (num / (state.debt as u128)) as i128
    };
    let ltv: i128 = get_user_position_ltv(state) as i128;
    let p = Position {
        id: state.position_id.clone(),
        health_factor,
        ltv,
        collateral: state.collateral,
        debt: state.debt,
    };
    proof {
        assert(p@ =~= spec_snapshot(state@));
    }
    p
}

} // verus!
