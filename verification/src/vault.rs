//! The risk-protection executor: authorization gating, risk-eligibility
//! gating, ordered dispatch of an action batch, and all-or-nothing
//! rollback.
//!
//! Each call opens a unit of work: the handlers mutate a working copy of
//! the collaborator state, and the executor commits the copy only when
//! every action in the batch has succeeded. The first failing handler
//! aborts the whole unit of work, so a caller observes either the whole
//! batch or none of it.

use vstd::prelude::*;

use crate::actions::SafetyAction;
use crate::errors::SafetyVaultError;
use crate::oracle::{get_user_position, get_user_position_ltv, spec_ltv_bps, spec_snapshot};
use crate::position::Position;
use crate::state::{
    clone_state, contains_id, find_backstop, lemma_backstop_index, spec_backstop_index, Backstop,
    BackstopView, StateView, VaultState, AMOUNT_LIMIT,
};

verus! {

/// Default protection threshold in basis points: a position whose
/// loan-to-value is at or above this value counts as at risk.
pub const DEFAULT_RISK_THRESHOLD_BPS: u32 = 7000;

/// What topping up collateral does to the collaborator state: after the
/// amount is validated, the pool must exist, the user's balance must cover
/// the amount, and the amount moves from the balance into collateral.
pub open spec fn spec_top_up_collateral(s: StateView, pool: u64, amount: i128) -> Result<
    StateView,
    SafetyVaultError,
> {
    if amount <= 0 {
        Err(SafetyVaultError::InvalidAction)
    } else if !s.pools.contains(pool) {
        Err(SafetyVaultError::PoolNotFound)
    } else if s.balance < amount {
        Err(SafetyVaultError::InsufficientBalance)
    } else if s.collateral + amount > AMOUNT_LIMIT {
        Err(SafetyVaultError::ActionExecutionFailed)
    } else {
        Ok(StateView { balance: s.balance - amount, collateral: s.collateral + amount, ..s })
    }
}

/// What claiming insurance does to the collaborator state: the pool must
/// have a backstop binding, the backstop must hold a positive reserve it
/// can pay out, and the payout moves from the reserve to the user's
/// balance.
pub open spec fn spec_claim_insurance(s: StateView, pool: u64) -> Result<
    StateView,
    SafetyVaultError,
> {
    let idx = spec_backstop_index(s.backstops, pool);
    if idx < 0 {
        Err(SafetyVaultError::PoolNotFound)
    } else {
        let reserve = s.backstops[idx].reserve;
        if reserve <= 0 {
            Err(SafetyVaultError::InsuranceClaimFailed)
        } else if s.balance + reserve > AMOUNT_LIMIT {
            Err(SafetyVaultError::InsuranceClaimFailed)
        } else {
            Ok(
                StateView {
                    balance: s.balance + reserve,
                    backstops: s.backstops.update(
                        idx,
                        BackstopView { pool: s.backstops[idx].pool, reserve: 0 },
                    ),
                    ..s
                },
            )
        }
    }
}

/// What a partial repayment does to the collaborator state: after the
/// amount is validated, some pool must accept the debt asset, the user's
/// balance must cover the amount, the debt must be at least the amount,
/// and the amount leaves both the balance and the debt.
pub open spec fn spec_partial_repay(s: StateView, asset: u64, amount: i128) -> Result<
    StateView,
    SafetyVaultError,
> {
    if amount <= 0 {
        Err(SafetyVaultError::InvalidAction)
    } else if !s.repay_assets.contains(asset) {
        Err(SafetyVaultError::PoolNotFound)
    } else if s.balance < amount {
        Err(SafetyVaultError::InsufficientBalance)
    } else if s.debt < amount {
        Err(SafetyVaultError::ActionExecutionFailed)
    } else {
        Ok(StateView { balance: s.balance - amount, debt: s.debt - amount, ..s })
    }
}

/// What one action does to the collaborator state.
pub open spec fn spec_apply_action(s: StateView, a: SafetyAction) -> Result<
    StateView,
    SafetyVaultError,
> {
    match a {
        SafetyAction::TopUpCollateral(pool, amount) => spec_top_up_collateral(s, pool, amount),
        SafetyAction::ClaimInsurance(pool) => spec_claim_insurance(s, pool),
        SafetyAction::PartialRepay(asset, amount) => spec_partial_repay(s, asset, amount),
    }
}

/// What a whole batch does: the actions applied one after another in the
/// caller-given order, stopping at the first error.
pub open spec fn spec_apply_batch(s: StateView, actions: Seq<SafetyAction>) -> Result<
    StateView,
    SafetyVaultError,
>
    decreases actions.len(),
{
    if actions.len() == 0 {
        Ok(s)
    } else {
        match spec_apply_action(s, actions[0]) {
            Ok(s1) => spec_apply_batch(s1, actions.skip(1)),
            Err(e) => Err(e),
        }
    }
}

/// Handler for [`SafetyAction::TopUpCollateral`].
pub fn execute_top_up_collateral(state: &mut VaultState, pool: u64, amount: i128) -> (r: Result<
    (),
    SafetyVaultError,
>)
    requires
        old(state)@.wf(),
    ensures
        final(state)@.wf(),
        match r {
            Ok(_) => spec_top_up_collateral(old(state)@, pool, amount) == Ok::<
                StateView,
                SafetyVaultError,
            >(final(state)@),
            Err(e) => spec_top_up_collateral(old(state)@, pool, amount) == Err::<
                StateView,
                SafetyVaultError,
            >(e) && final(state)@ == old(state)@,
        },
{
    if amount <= 0 {
        return Err(SafetyVaultError::InvalidAction);
    }
    if !contains_id(&state.pools, pool) {
        return Err(SafetyVaultError::PoolNotFound);
    }
    if state.balance < amount {
        return Err(SafetyVaultError::InsufficientBalance);
    }
    if state.collateral > AMOUNT_LIMIT - amount {
        return Err(SafetyVaultError::ActionExecutionFailed);
    }
    state.balance = state.balance - amount;
    state.collateral = state.collateral + amount;
    proof {
        assert(state@ =~= StateView {
            balance: old(state)@.balance - amount,
            collateral: old(state)@.collateral + amount,
            ..old(state)@
        });
    }
    Ok(())
}

/// Handler for [`SafetyAction::ClaimInsurance`].
pub fn execute_claim_insurance(state: &mut VaultState, pool: u64) -> (r: Result<
    (),
    SafetyVaultError,
>)
    requires
        old(state)@.wf(),
    ensures
        final(state)@.wf(),
        match r {
            Ok(_) => spec_claim_insurance(old(state)@, pool) == Ok::<StateView, SafetyVaultError>(
                final(state)@,
            ),
            Err(e) => spec_claim_insurance(old(state)@, pool) == Err::<StateView, SafetyVaultError>(
                e,
            ) && final(state)@ == old(state)@,
        },
{
    let found = find_backstop(&state.backstops, pool);
    match found {
        None => Err(SafetyVaultError::PoolNotFound),
        Some(i) => {
            let reserve = state.backstops[i].reserve;
            proof {
                assert(old(state)@.backstops[i as int].reserve == reserve as int);
            }
            if reserve <= 0 {
                Err(SafetyVaultError::InsuranceClaimFailed)
            } else if state.balance > AMOUNT_LIMIT - reserve {
                Err(SafetyVaultError::InsuranceClaimFailed)
            } else {
                state.balance = state.balance + reserve;
                state.backstops[i] = Backstop { pool, reserve: 0 };
                proof {
                    let bs = old(state)@.backstops;
                    lemma_backstop_index(bs, pool);
                    assert(bs[i as int].pool == pool);
                    let updated = bs.update(
                        i as int,
                        BackstopView { pool: bs[i as int].pool, reserve: 0 },
                    );
                    assert forall|j: int| 0 <= j < state@.backstops.len() implies state@.backstops[j]
                        == updated[j] by {
                        assert(state@.backstops[j] == state.backstops@[j]@);
                    }
                    assert(state@.backstops =~= updated);
                    assert(state@ =~= StateView {
                        balance: old(state)@.balance + reserve,
                        backstops: updated,
                        ..old(state)@
                    });
                }
                Ok(())
            }
        },
    }
}

/// Handler for [`SafetyAction::PartialRepay`].
pub fn execute_partial_repay(state: &mut VaultState, asset: u64, amount: i128) -> (r: Result<
    (),
    SafetyVaultError,
>)
    requires
        old(state)@.wf(),
    ensures
        final(state)@.wf(),
        match r {
            Ok(_) => spec_partial_repay(old(state)@, asset, amount) == Ok::<
                StateView,
                SafetyVaultError,
            >(final(state)@),
            Err(e) => spec_partial_repay(old(state)@, asset, amount) == Err::<
                StateView,
                SafetyVaultError,
            >(e) && final(state)@ == old(state)@,
        },
{
    if amount <= 0 {
        return Err(SafetyVaultError::InvalidAction);
    }
    if !contains_id(&state.repay_assets, asset) {
        return Err(SafetyVaultError::PoolNotFound);
    }
    if state.balance < amount {
        return Err(SafetyVaultError::InsufficientBalance);
    }
    if state.debt < amount {
        return Err(SafetyVaultError::ActionExecutionFailed);
    }
    state.balance = state.balance - amount;
    state.debt = state.debt - amount;
    proof {
        assert(state@ =~= StateView {
            balance: old(state)@.balance - amount,
            debt: old(state)@.debt - amount,
            ..old(state)@
        });
    }
    Ok(())
}

/// Dispatches one action to its handler, exhaustively over the action
/// kinds.
pub fn execute_single_action(state: &mut VaultState, action: &SafetyAction) -> (r: Result<
    (),
    SafetyVaultError,
>)
    requires
        old(state)@.wf(),
    ensures
        final(state)@.wf(),
        match r {
            Ok(_) => spec_apply_action(old(state)@, *action) == Ok::<StateView, SafetyVaultError>(
                final(state)@,
            ),
            Err(e) => spec_apply_action(old(state)@, *action) == Err::<StateView, SafetyVaultError>(
                e,
            ) && final(state)@ == old(state)@,
        },
{
    match action {
        SafetyAction::TopUpCollateral(pool, amount) => execute_top_up_collateral(
            state,
            *pool,
            *amount,
        ),
        SafetyAction::ClaimInsurance(pool) => execute_claim_insurance(state, *pool),
        SafetyAction::PartialRepay(asset, amount) => execute_partial_repay(state, *asset, *amount),
    }
}

/// The safety vault: the risk-protection executor, configured with its
/// loan-to-value protection threshold.
pub struct SafetyVaultContract {
    /// Threshold in basis points at or above which a position counts as at
    /// risk; defaults to [`DEFAULT_RISK_THRESHOLD_BPS`].
    pub risk_threshold_bps: u32,
}

impl SafetyVaultContract {
    /// A vault with the default protection threshold.
    pub fn new() -> (c: SafetyVaultContract)
        ensures
            c.risk_threshold_bps == DEFAULT_RISK_THRESHOLD_BPS,
    {
        SafetyVaultContract { risk_threshold_bps: DEFAULT_RISK_THRESHOLD_BPS }
    }

    /// A vault with a deployment-specific protection threshold.
    pub fn with_threshold(risk_threshold_bps: u32) -> (c: SafetyVaultContract)
        ensures
            c.risk_threshold_bps == risk_threshold_bps,
    {
        SafetyVaultContract { risk_threshold_bps }
    }

    /// Executes a batch of safety actions for `user`, atomically.
    ///
    /// The call is gated twice before any action runs: the caller must be
    /// the user whose position is acted on, and the position's current
    /// loan-to-value must be at or above the protection threshold. An
    /// empty batch is an explicit no-op that returns the current
    /// snapshot. Otherwise the actions run in the caller-given order
    /// inside one unit of work: the first error aborts the whole batch,
    /// the error is surfaced unchanged, and the collaborator state is
    /// exactly what it was before the call. Only a fully successful batch
    /// commits, and then the refreshed position is returned.
    #[verifier::loop_isolation(false)]
    pub fn execute_actions(
        &self,
        caller: u64,
        user: u64,
        state: &mut VaultState,
        actions: &Vec<SafetyAction>,
    ) -> (r: Result<Position, SafetyVaultError>)
        requires
            old(state)@.wf(),
        ensures
            final(state)@.wf(),
            r matches Err(_) ==> final(state)@ == old(state)@,
            caller != user ==> r == Err::<Position, SafetyVaultError>(
                SafetyVaultError::Unauthorized,
            ),
            caller == user && spec_ltv_bps(old(state)@.collateral, old(state)@.debt)
                < self.risk_threshold_bps ==> r == Err::<Position, SafetyVaultError>(
                SafetyVaultError::NotAtRisk,
            ),
            caller == user && spec_ltv_bps(old(state)@.collateral, old(state)@.debt)
                >= self.risk_threshold_bps ==> match spec_apply_batch(old(state)@, actions@) {
                Ok(s2) => final(state)@ == s2 && (r matches Ok(p) && p@ == spec_snapshot(s2)),
                Err(e) => r == Err::<Position, SafetyVaultError>(e),
            },
    {
        if caller != user {
            return Err(SafetyVaultError::Unauthorized);
        }
        let ltv = get_user_position_ltv(state);
        if ltv < self.risk_threshold_bps {
            return Err(SafetyVaultError::NotAtRisk);
        }
        if actions.len() == 0 {
            return Ok(get_user_position(state));
        }
        let mut work = clone_state(state);
        proof {
            assert(actions@.skip(0) =~= actions@);
        }
        let mut i: usize = 0;
        while i < actions.len()
            invariant
                i <= actions.len(),
                work@.wf(),
                spec_apply_batch(old(state)@, actions@) == spec_apply_batch(
                    work@,
                    actions@.skip(i as int),
                ),
            decreases actions.len() - i,
        {
            let action = actions[i];
            let ghost pre = work@;
            let step = execute_single_action(&mut work, &action);
            proof {
                assert(actions@.skip(i as int)[0] == actions@[i as int]);
                assert(actions@.skip(i as int).skip(1) =~= actions@.skip(i as int + 1));
            }
            match step {
                Ok(_) => {
                    i += 1;
                },
                Err(e) => {
                    proof {
                        assert(spec_apply_batch(pre, actions@.skip(i as int)) == Err::<
                            StateView,
                            SafetyVaultError,
                        >(e));
                    }
                    return Err(e);
                },
            }
        }
        proof {
            assert(actions@.skip(actions@.len() as int) =~= Seq::<SafetyAction>::empty());
            assert(spec_apply_batch(old(state)@, actions@) == Ok::<StateView, SafetyVaultError>(
                work@,
            ));
        }
        *state = work;
        Ok(get_user_position(state))
    }

    /// Static descriptive metadata about the vault; no side effects and no
    /// authorization required.
    pub fn get_info(&self) -> (r: String)
        ensures
            r@ == spec_info(),
    {
        "SafetyVault v1.0 - BlendGuard Hackathon".to_owned()
    }
}

/// The descriptive metadata [`SafetyVaultContract::get_info`] returns.
pub open spec fn spec_info() -> Seq<char> {
    "SafetyVault v1.0 - BlendGuard Hackathon"@
}

/// Order preservation: a two-action batch applies its first action fully,
/// and attempts the second only on the state the first produced; in
/// particular the first action's error wins, and swapping the actions
/// evaluates the other action's preconditions first.
pub proof fn lemma_order_preserved(s: StateView, a: SafetyAction, b: SafetyAction)
    ensures
        spec_apply_batch(s, seq![a, b]) == match spec_apply_action(s, a) {
            Ok(s1) => spec_apply_action(s1, b),
            Err(e) => Err(e),
        },
{
    reveal_with_fuel(spec_apply_batch, 4);
    let acts = seq![a, b];
    assert(acts[0] == a);
    assert(acts.skip(1) =~= seq![b]);
    assert(seq![b][0] == b);
    assert(seq![b].skip(1) =~= Seq::<SafetyAction>::empty());
}

} // verus!
