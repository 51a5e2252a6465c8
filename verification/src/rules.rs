//! The checks that stand before every change of the ledger, on plain values.
//!
//! Each check reads only the part of the ledger that the call is about: the counter for a
//! creation, what is recorded under one identifier for a transfer. A keeper of the ledger
//! that holds its state elsewhere can therefore make the same decisions.

use vstd::prelude::*;
use crate::error::Error;
use crate::fighter::{Fighter, FighterIndex};
use crate::identity::{faithful_eq, same};

verus! {

/// The identifier that the first fighter receives.
#[allow(non_snake_case)]
pub fn GetDefaultValue() -> (first: FighterIndex)
    ensures
        first == 0,
{
    0
}

/// What `next_id` answers: the counter itself, unless it has reached the largest value of
/// its type.
pub open spec fn spec_next_id(counter: FighterIndex) -> Result<FighterIndex, Error> {
    if counter == FighterIndex::MAX {
        Err(Error::IdSpaceExhausted)
    } else {
        Ok(counter)
    }
}

/// The identifier that a creation issues when the counter stands at `counter`. The largest
/// value of the type is never issued: a counter that has reached it is exhausted.
pub fn next_id(counter: FighterIndex) -> (id: Result<FighterIndex, Error>)
    ensures
        id == spec_next_id(counter),
{
    if counter == FighterIndex::MAX {
        Err(Error::IdSpaceExhausted)
    } else {
        Ok(counter)
    }
}

/// What `check_create` answers: the attributes are judged first, the counter second.
pub open spec fn spec_check_create(
    counter: FighterIndex,
    hit_points: u16,
    attack: u16,
    defense: u16,
) -> Result<(FighterIndex, Fighter), Error> {
    match Fighter::spec_new(hit_points, attack, defense) {
        Err(error) => Err(error),
        Ok(fighter) => match spec_next_id(counter) {
            Err(error) => Err(error),
            Ok(id) => Ok((id, fighter)),
        },
    }
}

/// Decides a creation when the counter stands at `counter`: the identifier and the fighter
/// to record, or the first check that fails, in the order power budget, defense cap,
/// identifier space.
pub fn check_create(counter: FighterIndex, hit_points: u16, attack: u16, defense: u16) -> (checked:
    Result<(FighterIndex, Fighter), Error>)
    ensures
        checked == spec_check_create(counter, hit_points, attack, defense),
{
    match Fighter::new(hit_points, attack, defense) {
        Err(error) => Err(error),
        Ok(fighter) => match next_id(counter) {
            Err(error) => Err(error),
            Ok(id) => Ok((id, fighter)),
        },
    }
}

/// Decides a transfer called by `who`, from what is recorded under the identifier: the
/// fighter must exist, and `who` must be its recorded owner.
pub fn check_transfer<A: PartialEq>(fighter: Option<&Fighter>, owner: Option<&A>, who: &A) -> (checked:
    Result<(), Error>)
    requires
        faithful_eq::<A>(),
    ensures
        checked == if fighter is None {
            Err::<(), Error>(Error::UnknownFighter)
        } else if owner != Some(who) {
            Err(Error::NotOwner)
        } else {
            Ok(())
        },
{
    if fighter.is_none() {
        return Err(Error::UnknownFighter);
    }
    match owner {
        Some(recorded) => if same(recorded, who) {
            Ok(())
        } else {
            Err(Error::NotOwner)
        },
        None => Err(Error::NotOwner),
    }
}

} // verus!
