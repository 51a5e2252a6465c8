//! The ledger held in memory, and the calls that read and change it.

use vstd::prelude::*;
use std::collections::HashMap;
use crate::error::Error;
use crate::event::Event;
use crate::fighter::{Fighter, FighterIndex, DEFENSE_CAP, POWER_BUDGET};
use crate::identity::{duplicate, faithful_clone, faithful_eq};
use crate::ledger::Ledger;
use crate::rules::{check_create, check_transfer, next_id, GetDefaultValue};

verus! {

/// A ledger of fighters and their owners. `A` is the type of an identity.
///
/// One value is one ledger: whoever holds it hands it to every call, one call at a time.
#[derive(Clone, Debug, PartialEq, Eq)]
pub struct Pallet<A> {
    next_fighter_id: FighterIndex,
    fighters: HashMap<FighterIndex, Fighter>,
    fighter_owner: HashMap<FighterIndex, A>,
}

impl<A> View for Pallet<A> {
    type V = Ledger<A>;

    closed spec fn view(&self) -> Ledger<A> {
        Ledger {
            next_fighter_id: self.next_fighter_id,
            fighters: self.fighters@,
            fighter_owner: self.fighter_owner@,
        }
    }
}

impl<A> Pallet<A> {
    /// What holds of every ledger that `new` made and the calls below changed.
    pub open spec fn wf(&self) -> bool {
        self@.wf()
    }

    /// An empty ledger, whose first fighter will receive the identifier zero.
    pub fn new() -> (pallet: Self)
        ensures
            pallet.wf(),
            pallet@ == Ledger::<A>::genesis(),
    {
        Pallet {
            next_fighter_id: GetDefaultValue(),
            fighters: HashMap::new(),
            fighter_owner: HashMap::new(),
        }
    }

    /// The counter: the identifier that the next fighter will receive.
    pub fn next_fighter_id(&self) -> (counter: FighterIndex)
        ensures
            counter == self@.next_fighter_id,
    {
        self.next_fighter_id
    }

    /// The identifier that a creation would issue now, or `IdSpaceExhausted` when the
    /// counter has reached the largest value of its type. Nothing is changed.
    pub fn get_next_id(&self) -> (id: Result<FighterIndex, Error>)
        ensures
            id == self@.next_id(),
    {
        next_id(self.next_fighter_id)
    }

    /// The attributes of the fighter `fighter_id`, or `None` if there is no such fighter.
    pub fn get_fighter(&self, fighter_id: FighterIndex) -> (fighter: Option<Fighter>)
        ensures
            fighter == self@.fighter(fighter_id),
    {
        match self.fighters.get(&fighter_id) {
            Some(fighter) => Some(*fighter),
            None => None,
        }
    }

    /// The present owner of the fighter `fighter_id`, or `None` if there is no such
    /// fighter.
    pub fn get_owner(&self, fighter_id: FighterIndex) -> (owner: Option<&A>)
        ensures
            owner == match self@.owner(fighter_id) {
                Some(recorded) => Some(&recorded),
                None => None,
            },
    {
        self.fighter_owner.get(&fighter_id)
    }

    /// Creates a fighter with the given attributes, owned by the caller `who`.
    ///
    /// The call succeeds exactly when the power is within the budget, the defense within
    /// its cap and the counter not exhausted. It then records the fighter and its owner
    /// under the counter's value, advances the counter by one and returns the notice
    /// `FighterCreated`, which carries the new identifier. Otherwise it returns the error
    /// of the first check that failed and leaves the ledger untouched.
    pub fn create(&mut self, who: A, hit_points: u16, attack: u16, defense: u16) -> (outcome:
        Result<Event<A>, Error>) where A: Clone
        requires
            faithful_clone::<A>(),
        ensures
            (final(self)@, outcome) == old(self)@.create(who, hit_points, attack, defense),
            outcome is Err ==> *final(self) == *old(self),
            outcome == ({
                let fighter = Fighter { hit_points, attack, defense };
                if fighter.spec_power() > POWER_BUDGET {
                    Err::<Event<A>, Error>(Error::PowerBudgetExceeded)
                } else if defense > DEFENSE_CAP {
                    Err(Error::DefenseCapExceeded)
                } else if old(self)@.next_fighter_id == FighterIndex::MAX {
                    Err(Error::IdSpaceExhausted)
                } else {
                    Ok(Event::FighterCreated(who, old(self)@.next_fighter_id, fighter))
                }
            }),
            outcome is Ok ==> {
                let id = old(self)@.next_fighter_id;
                &&& final(self)@.next_fighter_id == id + 1
                &&& final(self)@.fighters == old(self)@.fighters.insert(
                    id,
                    Fighter { hit_points, attack, defense },
                )
                &&& final(self)@.fighter_owner == old(self)@.fighter_owner.insert(id, who)
            },
            old(self).wf() ==> final(self).wf(),
            old(self).wf() && outcome is Ok ==> forall|earlier: FighterIndex|
                old(self)@.fighters.contains_key(earlier)
                    ==> earlier < old(self)@.next_fighter_id,
    {
        match check_create(self.next_fighter_id, hit_points, attack, defense) {
            Err(error) => Err(error),
            Ok((id, fighter)) => {
                self.fighters.insert(id, fighter);
                self.fighter_owner.insert(id, duplicate(&who));
                self.next_fighter_id = id + 1;
                Ok(Event::FighterCreated(who, id, fighter))
            },
        }
    }

    /// Hands the fighter `fighter_id` from the caller `who` to `new_owner`.
    ///
    /// The call succeeds exactly when the fighter exists and `who` is its recorded owner. It
    /// then records `new_owner` as the owner, changes nothing else and returns the notice
    /// `FighterTransferred`. Otherwise it returns `UnknownFighter`, if there is no such
    /// fighter, or else `NotOwner`, and leaves the ledger untouched. The new owner may be
    /// anyone, the caller included.
    pub fn transfer(&mut self, who: A, fighter_id: FighterIndex, new_owner: A) -> (outcome: Result<
        Event<A>,
        Error,
    >) where A: Clone + PartialEq
        requires
            faithful_eq::<A>(),
            faithful_clone::<A>(),
        ensures
            (final(self)@, outcome) == old(self)@.transfer(who, fighter_id, new_owner),
            outcome is Err ==> *final(self) == *old(self),
            outcome == if old(self)@.fighter(fighter_id) is None {
                Err::<Event<A>, Error>(Error::UnknownFighter)
            } else if old(self)@.owner(fighter_id) != Some(who) {
                Err(Error::NotOwner)
            } else {
                Ok(Event::FighterTransferred(who, new_owner, fighter_id))
            },
            outcome is Ok ==> {
                &&& final(self)@.next_fighter_id == old(self)@.next_fighter_id
                &&& final(self)@.fighters == old(self)@.fighters
                &&& final(self)@.fighter_owner == old(self)@.fighter_owner.insert(
                    fighter_id,
                    new_owner,
                )
            },
            old(self).wf() ==> final(self).wf(),
    {
        let checked = check_transfer(
            self.fighters.get(&fighter_id),
            self.fighter_owner.get(&fighter_id),
            &who,
        );
        match checked {
            Err(error) => Err(error),
            Ok(()) => {
                self.fighter_owner.insert(fighter_id, duplicate(&new_owner));
                Ok(Event::FighterTransferred(who, new_owner, fighter_id))
            },
        }
    }
}

} // verus!
