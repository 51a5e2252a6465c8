//! Why a call on the ledger is refused.

use vstd::prelude::*;

verus! {

/// The reasons for which `create` and `transfer` refuse a call. Every refusal is decided
/// before anything is written, so a refused call leaves the ledger as it was.
#[derive(Clone, Copy, Debug, PartialEq, Eq, Structural)]
pub enum Error {
    /// Hit points plus ten times attack plus ten times defense is above the power budget.
    PowerBudgetExceeded,
    /// Defense is above its cap.
    DefenseCapExceeded,
    /// The counter has reached the largest identifier: no further fighter can be created.
    IdSpaceExhausted,
    /// No fighter is recorded under the identifier.
    UnknownFighter,
    /// The caller is not the recorded owner of the fighter.
    NotOwner,
}

} // verus!
