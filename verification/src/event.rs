//! What a successful call on the ledger gives notice of.

use vstd::prelude::*;
use crate::fighter::{Fighter, FighterIndex};

verus! {

/// The notice that a successful call hands back, for whoever keeps the ledger to pass on.
/// A refused call gives none. `A` is the type of an identity.
#[derive(Clone, Debug, PartialEq, Eq)]
pub enum Event<A> {
    /// A fighter was created: its owner, its identifier and its attributes.
    FighterCreated(A, FighterIndex, Fighter),
    /// A fighter changed hands: the previous owner, the new owner and the identifier.
    FighterTransferred(A, A, FighterIndex),
}

} // verus!
