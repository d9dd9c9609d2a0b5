//! The slice of collaborator state that the executor reads and mutates.
//!
//! The lending pools, the token ledger and the insurance backstops are
//! external collaborators; durable state lives with them. This module
//! models exactly the slice of that state the orchestration core touches,
//! so that the dispatch and rollback logic can be stated over it.

use vstd::prelude::*;

verus! {

/// Largest token amount the collaborator ledgers represent. Every balance,
/// reserve, collateral and debt amount stays in `[0, AMOUNT_LIMIT]`; an
/// operation that would push an amount past this limit fails instead of
/// wrapping.
pub const AMOUNT_LIMIT: i128 = 1_000_000_000_000_000_000;

/// Mathematical image of a [`Backstop`].
#[verifier::ext_equal]
pub ghost struct BackstopView {
    pub pool: u64,
    pub reserve: int,
}

/// The backstop binding of one lending pool: the insurance reserve that a
/// claim against that pool pays out.
#[derive(Clone, Copy, Debug, PartialEq, Eq, Structural)]
pub struct Backstop {
    /// The pool this backstop is bound to.
    pub pool: u64,
    /// The reserve a successful claim pays out to the user.
    pub reserve: i128,
}

impl View for Backstop {
    type V = BackstopView;

    open spec fn view(&self) -> BackstopView {
        BackstopView { pool: self.pool, reserve: self.reserve as int }
    }
}

/// Mathematical image of a [`VaultState`]: amounts as unbounded integers,
/// collections as sequences.
#[verifier::ext_equal]
pub ghost struct StateView {
    pub position_id: Seq<char>,
    pub collateral: int,
    pub debt: int,
    pub balance: int,
    pub pools: Seq<u64>,
    pub backstops: Seq<BackstopView>,
    pub repay_assets: Seq<u64>,
}

impl StateView {
    /// Well-formedness: every amount the collaborators hold is a
    /// non-negative, representable ledger amount.
    pub open spec fn wf(self) -> bool {
        &&& 0 <= self.collateral <= AMOUNT_LIMIT
        &&& 0 <= self.debt <= AMOUNT_LIMIT
        &&& 0 <= self.balance <= AMOUNT_LIMIT
        &&& forall|i: int|
            0 <= i < self.backstops.len() ==> 0 <= (#[trigger] self.backstops[i]).reserve
                <= AMOUNT_LIMIT
    }
}

/// One user's view of the collaborators' durable state: the position held
/// by the pools, the user's token balance on the ledger, which pools exist,
/// their backstop bindings, and which debt assets accept repayment.
pub struct VaultState {
    /// Opaque identifier of the user's position.
    pub position_id: String,
    /// Total collateral pledged by the user across the pools.
    pub collateral: i128,
    /// Total debt outstanding against the user.
    pub debt: i128,
    /// The user's spendable token balance on the ledger.
    pub balance: i128,
    /// Identifiers of the lending pools that exist.
    pub pools: Vec<u64>,
    /// Backstop bindings; a pool without an entry has no backstop.
    pub backstops: Vec<Backstop>,
    /// Debt assets for which some pool accepts repayment.
    pub repay_assets: Vec<u64>,
}

impl View for VaultState {
    type V = StateView;

    open spec fn view(&self) -> StateView {
        StateView {
            position_id: self.position_id@,
            collateral: self.collateral as int,
            debt: self.debt as int,
            balance: self.balance as int,
            pools: self.pools@,
            backstops: self.backstops@.map_values(|b: Backstop| b@),
            repay_assets: self.repay_assets@,
        }
    }
}

/// Index of the first backstop binding for `pool`, or `-1` if the pool has
/// none.
pub open spec fn spec_backstop_index(bs: Seq<BackstopView>, pool: u64) -> int
    decreases bs.len(),
{
    if bs.len() == 0 {
        -1
    } else if bs[0].pool == pool {
        0
    } else if spec_backstop_index(bs.skip(1), pool) < 0 {
        -1
    } else {
        spec_backstop_index(bs.skip(1), pool) + 1
    }
}

/// Characterizes [`spec_backstop_index`]: it is `-1` exactly when no
/// binding for `pool` exists, and otherwise names the first such binding.
pub proof fn lemma_backstop_index(bs: Seq<BackstopView>, pool: u64)
    ensures
        ({
            let r = spec_backstop_index(bs, pool);
            &&& (r == -1 <==> forall|i: int|
                0 <= i < bs.len() ==> (#[trigger] bs[i]).pool != pool)
            &&& (r != -1 ==> 0 <= r < bs.len() && bs[r].pool == pool && forall|i: int|
                0 <= i < r ==> (#[trigger] bs[i]).pool != pool)
        }),
    decreases bs.len(),
{
    if bs.len() == 0 {
    } else if bs[0].pool == pool {
    } else {
        let tail = bs.skip(1);
        lemma_backstop_index(tail, pool);
        assert(forall|i: int| 0 <= i < tail.len() ==> #[trigger] tail[i] == bs[i + 1]);
        let r = spec_backstop_index(bs, pool);
        let rt = spec_backstop_index(tail, pool);
        if rt == -1 {
            assert forall|i: int| 0 <= i < bs.len() implies (#[trigger] bs[i]).pool != pool by {
                if i > 0 {
                    assert(bs[i] == tail[i - 1]);
                }
            }
        } else {
            assert(bs[r] == tail[rt]);
            assert forall|i: int| 0 <= i < r implies (#[trigger] bs[i]).pool != pool by {
                if i > 0 {
                    assert(bs[i] == tail[i - 1]);
                }
            }
        }
    }
}

/// Whether `x` occurs among `ids`.
pub(crate) fn contains_id(ids: &Vec<u64>, x: u64) -> (b: bool)
    ensures
        b == ids@.contains(x),
{
    let mut i: usize = 0;
    while i < ids.len()
        invariant
            i <= ids.len(),
            forall|j: int| 0 <= j < i ==> ids@[j] != x,
        decreases ids.len() - i,
    {
        if ids[i] == x {
            return true;
        }
        i += 1;
    }
    false
}

/// Index of the first backstop binding for `pool`, if any.
pub(crate) fn find_backstop(backstops: &Vec<Backstop>, pool: u64) -> (r: Option<usize>)
    ensures
        ({
            let bs = backstops@.map_values(|b: Backstop| b@);
            match r {
                Some(i) => i < backstops.len() && spec_backstop_index(bs, pool) == i,
                None => spec_backstop_index(bs, pool) == -1,
            }
        }),
{
    let ghost bs = backstops@.map_values(|b: Backstop| b@);
    proof {
        lemma_backstop_index(bs, pool);
    }
    let mut i: usize = 0;
    while i < backstops.len()
        invariant
            i <= backstops.len(),
            bs == backstops@.map_values(|b: Backstop| b@),
            forall|j: int| 0 <= j < i ==> (#[trigger] bs[j]).pool != pool,
        decreases backstops.len() - i,
    {
        if backstops[i].pool == pool {
            proof {
                assert(bs[i as int].pool == pool);
                lemma_backstop_index(bs, pool);
            }
            return Some(i);
        }
        proof {
            assert(bs[i as int].pool != pool);
        }
        i += 1;
    }
    proof {
        lemma_backstop_index(bs, pool);
    }
    None
}

/// A copy of `ids` with the same contents.
pub(crate) fn clone_ids(ids: &Vec<u64>) -> (r: Vec<u64>)
    ensures
        r@ == ids@,
{
    let mut r: Vec<u64> = Vec::new();
    let mut i: usize = 0;
    while i < ids.len()
        invariant
            i <= ids.len(),
            r@ == ids@.subrange(0, i as int),
        decreases ids.len() - i,
    {
        r.push(ids[i]);
        proof {
            assert(r@ =~= ids@.subrange(0, i as int + 1));
        }
        i += 1;
    }
    proof {
        assert(r@ =~= ids@);
    }
    r
}

/// A copy of `backstops` with the same contents.
pub(crate) fn clone_backstops(backstops: &Vec<Backstop>) -> (r: Vec<Backstop>)
    ensures
        r@ == backstops@,
{
    let mut r: Vec<Backstop> = Vec::new();
    let mut i: usize = 0;
    while i < backstops.len()
        invariant
            i <= backstops.len(),
            r@ == backstops@.subrange(0, i as int),
        decreases backstops.len() - i,
    {
        r.push(backstops[i]);
        proof {
            assert(r@ =~= backstops@.subrange(0, i as int + 1));
        }
        i += 1;
    }
    proof {
        assert(r@ =~= backstops@);
    }
    r
}

/// A copy of the whole collaborator state, the working copy that one unit
/// of work mutates until it commits.
pub(crate) fn clone_state(state: &VaultState) -> (r: VaultState)
    ensures
        r@ == state@,
{
    let r = VaultState {
        position_id: state.position_id.clone(),
        collateral: state.collateral,
        debt: state.debt,
        balance: state.balance,
        pools: clone_ids(&state.pools),
        backstops: clone_backstops(&state.backstops),
        repay_assets: clone_ids(&state.repay_assets),
    };
    proof {
        assert(r@ =~= state@);
    }
    r
}

} // verus!
