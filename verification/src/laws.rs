//! What holds of the ledger whatever the calls made on it, proved of the model that the
//! contracts of `create` and `transfer` are stated over.

use vstd::prelude::*;
use crate::error::Error;
use crate::event::Event;
use crate::fighter::{Fighter, FighterIndex};
use crate::ledger::Ledger;

verus! {

/// The empty ledger is well formed.
pub proof fn lemma_genesis_wf<A>()
    ensures
        Ledger::<A>::genesis().wf(),
        Ledger::<A>::genesis().next_fighter_id == 0,
{
}

/// A creation whose attributes meet both limits succeeds while the counter is not
/// exhausted. The identifier it issues is the counter's value, which is above every
/// identifier issued before; the fighter and the caller are recorded under it, the counter
/// moves up by one, and afterwards both maps are still keyed by the same identifiers.
pub proof fn lemma_create_succeeds<A>(
    ledger: Ledger<A>,
    who: A,
    hit_points: u16,
    attack: u16,
    defense: u16,
)
    requires
        ledger.wf(),
        hit_points + 10 * attack + 10 * defense <= 1000,
        defense <= 50,
        ledger.next_fighter_id < FighterIndex::MAX,
    ensures
        ({
            let (after, outcome) = ledger.create(who, hit_points, attack, defense);
            let id = ledger.next_fighter_id;
            let fighter = Fighter { hit_points, attack, defense };
            &&& outcome == Ok::<Event<A>, Error>(Event::FighterCreated(who, id, fighter))
            &&& forall|earlier: FighterIndex| ledger.fighters.contains_key(earlier) ==> earlier < id
            &&& !ledger.fighters.contains_key(id)
            &&& after.fighter(id) == Some(fighter)
            &&& after.owner(id) == Some(who)
            &&& after.next_fighter_id == id + 1
            &&& after.fighters.dom() == after.fighter_owner.dom()
            &&& after.wf()
        }),
{
    let (after, outcome) = ledger.create(who, hit_points, attack, defense);
    assert(after.fighters.dom() =~= after.fighter_owner.dom());
}

/// A creation whose power is above the budget is refused with `PowerBudgetExceeded`,
/// whatever else holds, and the ledger stays as it is.
pub proof fn lemma_create_over_budget<A>(
    ledger: Ledger<A>,
    who: A,
    hit_points: u16,
    attack: u16,
    defense: u16,
)
    requires
        hit_points + 10 * attack + 10 * defense > 1000,
    ensures
        ledger.create(who, hit_points, attack, defense) == (
            ledger,
            Err::<Event<A>, Error>(Error::PowerBudgetExceeded),
        ),
{
}

/// A creation whose defense is above the cap is refused, and the ledger stays as it is.
/// The error is `DefenseCapExceeded` where the power is within the budget; where it is
/// not, the budget is judged first and the error is `PowerBudgetExceeded`.
pub proof fn lemma_create_over_defense_cap<A>(
    ledger: Ledger<A>,
    who: A,
    hit_points: u16,
    attack: u16,
    defense: u16,
)
    requires
        defense > 50,
    ensures
        ledger.create(who, hit_points, attack, defense).0 == ledger,
        ledger.create(who, hit_points, attack, defense).1 is Err,
        hit_points + 10 * attack + 10 * defense <= 1000 ==> ledger.create(
            who,
            hit_points,
            attack,
            defense,
        ).1 == Err::<Event<A>, Error>(Error::DefenseCapExceeded),
        hit_points + 10 * attack + 10 * defense > 1000 ==> ledger.create(
            who,
            hit_points,
            attack,
            defense,
        ).1 == Err::<Event<A>, Error>(Error::PowerBudgetExceeded),
{
}

/// Once the counter has reached the largest identifier, every creation is refused: with
/// `IdSpaceExhausted` where the attributes meet both limits, with the attributes' own
/// error where they do not. The ledger stays as it is.
pub proof fn lemma_create_exhausted<A>(
    ledger: Ledger<A>,
    who: A,
    hit_points: u16,
    attack: u16,
    defense: u16,
)
    requires
        ledger.next_fighter_id == FighterIndex::MAX,
    ensures
        ledger.create(who, hit_points, attack, defense).0 == ledger,
        ledger.create(who, hit_points, attack, defense).1 is Err,
        (Fighter { hit_points, attack, defense }).within_limits() ==> ledger.create(
            who,
            hit_points,
            attack,
            defense,
        ).1 == Err::<Event<A>, Error>(Error::IdSpaceExhausted),
{
}

/// A refused call changes nothing, and a call that changes anything succeeds.
pub proof fn lemma_refusal_changes_nothing<A>(
    ledger: Ledger<A>,
    who: A,
    hit_points: u16,
    attack: u16,
    defense: u16,
    id: FighterIndex,
    new_owner: A,
)
    ensures
        ledger.create(who, hit_points, attack, defense).1 is Err ==> ledger.create(
            who,
            hit_points,
            attack,
            defense,
        ).0 == ledger,
        ledger.transfer(who, id, new_owner).1 is Err ==> ledger.transfer(who, id, new_owner).0
            == ledger,
{
}

/// Both calls keep the ledger well formed.
pub proof fn lemma_calls_preserve_wf<A>(
    ledger: Ledger<A>,
    who: A,
    hit_points: u16,
    attack: u16,
    defense: u16,
    id: FighterIndex,
    new_owner: A,
)
    requires
        ledger.wf(),
    ensures
        ledger.create(who, hit_points, attack, defense).0.wf(),
        ledger.transfer(who, id, new_owner).0.wf(),
{
    let created = ledger.create(who, hit_points, attack, defense).0;
    assert(created.fighters.dom() =~= created.fighter_owner.dom());
    let transferred = ledger.transfer(who, id, new_owner).0;
    assert(transferred.fighters.dom() =~= transferred.fighter_owner.dom());
}

/// No call takes anything back: the counter never moves down, and a fighter once recorded
/// stays recorded with the attributes it was created with.
pub proof fn lemma_fighters_are_kept<A>(
    ledger: Ledger<A>,
    who: A,
    hit_points: u16,
    attack: u16,
    defense: u16,
    id: FighterIndex,
    new_owner: A,
    recorded: FighterIndex,
)
    requires
        ledger.wf(),
        ledger.fighters.contains_key(recorded),
    ensures
        ledger.create(who, hit_points, attack, defense).0.next_fighter_id
            >= ledger.next_fighter_id,
        ledger.create(who, hit_points, attack, defense).0.fighter(recorded) == ledger.fighter(
            recorded,
        ),
        ledger.create(who, hit_points, attack, defense).0.owner(recorded) == ledger.owner(
            recorded,
        ),
        ledger.transfer(who, id, new_owner).0.next_fighter_id == ledger.next_fighter_id,
        ledger.transfer(who, id, new_owner).0.fighters == ledger.fighters,
        recorded != id ==> ledger.transfer(who, id, new_owner).0.owner(recorded) == ledger.owner(
            recorded,
        ),
{
}

/// A transfer of a fighter that was never created is refused with `UnknownFighter`,
/// whoever calls. In a well-formed ledger those are the identifiers from the counter
/// upwards.
pub proof fn lemma_transfer_unknown_fighter<A>(
    ledger: Ledger<A>,
    who: A,
    id: FighterIndex,
    new_owner: A,
)
    requires
        !ledger.fighters.contains_key(id) || (ledger.wf() && id >= ledger.next_fighter_id),
    ensures
        ledger.transfer(who, id, new_owner) == (
            ledger,
            Err::<Event<A>, Error>(Error::UnknownFighter),
        ),
{
}

/// Only the recorded owner can hand a fighter on: a transfer called by anyone else is
/// refused with `NotOwner`, and the owner stays who it was.
pub proof fn lemma_transfer_by_stranger<A>(
    ledger: Ledger<A>,
    owner: A,
    stranger: A,
    id: FighterIndex,
    new_owner: A,
)
    requires
        ledger.wf(),
        ledger.owner(id) == Some(owner),
        stranger != owner,
    ensures
        ledger.transfer(stranger, id, new_owner) == (
            ledger,
            Err::<Event<A>, Error>(Error::NotOwner),
        ),
        ledger.transfer(stranger, id, new_owner).0.owner(id) == Some(owner),
{
}

/// A transfer called by the recorded owner succeeds: the new owner is recorded, nothing
/// else changes, and the notice names the previous owner, the new owner and the fighter.
pub proof fn lemma_transfer_by_owner<A>(
    ledger: Ledger<A>,
    owner: A,
    id: FighterIndex,
    new_owner: A,
)
    requires
        ledger.wf(),
        ledger.owner(id) == Some(owner),
    ensures
        ({
            let (after, outcome) = ledger.transfer(owner, id, new_owner);
            &&& outcome == Ok::<Event<A>, Error>(Event::FighterTransferred(owner, new_owner, id))
            &&& after.owner(id) == Some(new_owner)
            &&& after.fighters == ledger.fighters
            &&& after.next_fighter_id == ledger.next_fighter_id
            &&& after.fighter_owner == ledger.fighter_owner.insert(id, new_owner)
            &&& after.wf()
        }),
{
    let (after, outcome) = ledger.transfer(owner, id, new_owner);
    assert(after.fighters.dom() =~= after.fighter_owner.dom());
}

/// The right to transfer follows the fighter: after its owner has handed it to someone
/// else, the previous owner is refused with `NotOwner` and the new owner is obeyed. What
/// counts is who owns the fighter now, not who created it.
pub proof fn lemma_transfer_right_moves<A>(
    ledger: Ledger<A>,
    owner: A,
    id: FighterIndex,
    new_owner: A,
    next_owner: A,
)
    requires
        ledger.wf(),
        ledger.owner(id) == Some(owner),
        new_owner != owner,
    ensures
        ({
            let after = ledger.transfer(owner, id, new_owner).0;
            &&& after.transfer(owner, id, next_owner) == (
                after,
                Err::<Event<A>, Error>(Error::NotOwner),
            )
            &&& after.transfer(new_owner, id, next_owner).1 == Ok::<Event<A>, Error>(
                Event::FighterTransferred(new_owner, next_owner, id),
            )
            &&& after.transfer(new_owner, id, next_owner).0.owner(id) == Some(next_owner)
        }),
{
}

/// A transfer to the caller itself succeeds and leaves the ledger as it was.
pub proof fn lemma_transfer_to_self<A>(ledger: Ledger<A>, owner: A, id: FighterIndex)
    requires
        ledger.wf(),
        ledger.owner(id) == Some(owner),
    ensures
        ledger.transfer(owner, id, owner) == (
            ledger,
            Ok::<Event<A>, Error>(Event::FighterTransferred(owner, owner, id)),
        ),
{
    let after = ledger.transfer(owner, id, owner).0;
    assert(after.fighter_owner =~= ledger.fighter_owner);
}

} // verus!
