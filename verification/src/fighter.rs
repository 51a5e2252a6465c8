//! Fighters and the two limits that their attributes must meet when they are created.

use vstd::prelude::*;
use crate::error::Error;

verus! {

/// Identifier of a fighter.
pub type FighterIndex = u32;

/// The most that `hit_points + 10 * attack + 10 * defense` may be.
pub const POWER_BUDGET: u32 = 1000;

/// The most that `defense` may be.
pub const DEFENSE_CAP: u16 = 50;

/// The weight of attack and of defense in a fighter's power.
pub const STAT_WEIGHT: u32 = 10;

/// The attributes of a fighter. They are fixed when the fighter is created.
#[derive(Clone, Copy, Debug, PartialEq, Eq, Structural)]
pub struct Fighter {
    pub hit_points: u16,
    pub attack: u16,
    pub defense: u16,
}

impl Fighter {
    /// The power of a fighter, as an unbounded integer.
    pub open spec fn spec_power(&self) -> int {
        self.hit_points + STAT_WEIGHT * self.attack + STAT_WEIGHT * self.defense
    }

    /// Both limits hold: the power is within the budget and the defense within its cap.
    pub open spec fn within_limits(&self) -> bool {
        &&& self.spec_power() <= POWER_BUDGET
        &&& self.defense <= DEFENSE_CAP
    }

    /// What `new` answers: the power budget is looked at first, the defense cap second.
    pub open spec fn spec_new(hit_points: u16, attack: u16, defense: u16) -> Result<Fighter, Error> {
        let fighter = Fighter { hit_points, attack, defense };
        if fighter.spec_power() > POWER_BUDGET {
            Err(Error::PowerBudgetExceeded)
        } else if defense > DEFENSE_CAP {
            Err(Error::DefenseCapExceeded)
        } else {
            Ok(fighter)
        }
    }

    /// The power of the fighter. No attributes can make the sum leave `u32`.
    pub fn power(&self) -> (power: u32)
        ensures
            power == self.spec_power(),
    {
        self.hit_points as u32 + STAT_WEIGHT * (self.attack as u32) + STAT_WEIGHT * (
        self.defense as u32)
    }

    /// A fighter with the given attributes, if they meet both limits; else the first limit
    /// that they break.
    pub fn new(hit_points: u16, attack: u16, defense: u16) -> (made: Result<Fighter, Error>)
        ensures
            made == Fighter::spec_new(hit_points, attack, defense),
    {
        let fighter = Fighter { hit_points, attack, defense };
        if fighter.power() > POWER_BUDGET {
            Err(Error::PowerBudgetExceeded)
        } else if defense > DEFENSE_CAP {
            Err(Error::DefenseCapExceeded)
        } else {
            Ok(fighter)
        }
    }
}

} // verus!
