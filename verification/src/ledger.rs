//! The ledger as mathematics: a counter and two maps, and what each call makes of them.

use vstd::prelude::*;
use crate::error::Error;
use crate::event::Event;
use crate::fighter::{Fighter, FighterIndex};
use crate::rules::{spec_check_create, spec_next_id};

verus! {

/// The state of the ledger. `A` is the type of an identity.
pub struct Ledger<A> {
    /// The identifier that the next fighter will receive.
    pub next_fighter_id: FighterIndex,
    /// The attributes of every fighter created so far.
    pub fighters: Map<FighterIndex, Fighter>,
    /// The present owner of every fighter created so far.
    pub fighter_owner: Map<FighterIndex, A>,
}

impl<A> Ledger<A> {
    /// The ledger before any call: the counter at zero and nothing recorded.
    pub open spec fn genesis() -> Self {
        Ledger { next_fighter_id: 0, fighters: Map::empty(), fighter_owner: Map::empty() }
    }

    /// What holds of the ledger at all times: the identifiers in use are exactly those
    /// below the counter, both maps are keyed by them, and every fighter recorded meets
    /// the limits that were checked when it was created.
    pub open spec fn wf(self) -> bool {
        &&& self.fighters.dom() =~= self.fighter_owner.dom()
        &&& forall|id: FighterIndex|
            self.fighters.contains_key(id) <==> id < self.next_fighter_id
        &&& forall|id: FighterIndex| #[trigger]
            self.fighters.contains_key(id) ==> self.fighters[id].within_limits()
    }

    /// The attributes recorded under `id`, if any.
    pub open spec fn fighter(self, id: FighterIndex) -> Option<Fighter> {
        if self.fighters.contains_key(id) {
            Some(self.fighters[id])
        } else {
            None
        }
    }

    /// The owner recorded under `id`, if any.
    pub open spec fn owner(self, id: FighterIndex) -> Option<A> {
        if self.fighter_owner.contains_key(id) {
            Some(self.fighter_owner[id])
        } else {
            None
        }
    }

    /// The identifier that a creation would issue now, unless the counter is exhausted.
    pub open spec fn next_id(self) -> Result<FighterIndex, Error> {
        spec_next_id(self.next_fighter_id)
    }

    /// `create` called by `who`: the ledger afterwards, and what the call returns. The
    /// power budget is checked first, the defense cap second, the counter third; the
    /// first check that fails decides the error, and the ledger stays as it is.
    pub open spec fn create(self, who: A, hit_points: u16, attack: u16, defense: u16) -> (
        Self,
        Result<Event<A>, Error>,
    ) {
        match spec_check_create(self.next_fighter_id, hit_points, attack, defense) {
            Err(error) => (self, Err(error)),
            Ok((id, fighter)) => (
                Ledger {
                    next_fighter_id: (id + 1) as FighterIndex,
                    fighters: self.fighters.insert(id, fighter),
                    fighter_owner: self.fighter_owner.insert(id, who),
                },
                Ok(Event::FighterCreated(who, id, fighter)),
            ),
        }
    }

    /// `transfer` of fighter `id` to `new_owner`, called by `who`: the ledger afterwards,
    /// and what the call returns. Whether the fighter exists is checked first, whether
    /// `who` owns it second. The new owner may be anyone, the caller included.
    pub open spec fn transfer(self, who: A, id: FighterIndex, new_owner: A) -> (
        Self,
        Result<Event<A>, Error>,
    ) {
        if self.fighter(id) is None {
            (self, Err(Error::UnknownFighter))
        } else if self.owner(id) != Some(who) {
            (self, Err(Error::NotOwner))
        } else {
            (
                Ledger { fighter_owner: self.fighter_owner.insert(id, new_owner), ..self },
                Ok(Event::FighterTransferred(who, new_owner, id)),
            )
        }
    }
}

} // verus!
