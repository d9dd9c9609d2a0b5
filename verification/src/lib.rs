//! A safety vault: an orchestration core that applies a batch of
//! risk-mitigation actions (top up collateral, claim insurance, partially
//! repay debt) to one user's leveraged position, atomically: either every
//! action in the batch takes effect, or none of them do.
//!
//! The lending pools, the token ledger, the insurance backstops and the
//! position oracle are external collaborators; this crate models the slice
//! of their state that the core reads and mutates, so that the gating,
//! dispatch and rollback logic can be stated and proved.

pub mod actions;
pub mod errors;
pub mod oracle;
pub mod position;
pub mod state;
pub mod vault;

pub use actions::SafetyAction;
pub use errors::SafetyVaultError;
pub use position::Position;
pub use state::VaultState;
pub use vault::SafetyVaultContract;
