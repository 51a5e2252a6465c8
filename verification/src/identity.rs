//! What the ledger asks of the type that stands for an identity.
//!
//! An identity is opaque to the ledger. It is compared with `==`, when a caller is held
//! against a recorded owner, and duplicated with `clone`, when it goes both into the
//! ledger and into a notice. The contracts speak of equality of values, so both
//! operations must be faithful to it.

use vstd::prelude::*;
use vstd::laws_eq::obeys_concrete_eq;
use vstd::pervasive::strictly_cloned;

verus! {

/// `==` on `A` decides whether two values are the same.
pub open spec fn faithful_eq<A: PartialEq>() -> bool {
    obeys_concrete_eq::<A>()
}

/// `clone` on `A` returns a value equal to the one it was given.
pub open spec fn faithful_clone<A: Clone>() -> bool {
    forall|a: A, b: A| #[trigger] strictly_cloned(a, b) ==> a == b
}

/// Whether two identities are the same.
pub fn same<A: PartialEq>(a: &A, b: &A) -> (same: bool)
    requires
        faithful_eq::<A>(),
    ensures
        same == (*a == *b),
{
    proof {
        reveal(obeys_concrete_eq);
    }
    a == b
}

/// A second value of the same identity.
pub fn duplicate<A: Clone>(a: &A) -> (copy: A)
    requires
        faithful_clone::<A>(),
    ensures
        copy == *a,
{
    let copy = a.clone();
    assert(strictly_cloned(*a, copy));
    copy
}

} // verus!
