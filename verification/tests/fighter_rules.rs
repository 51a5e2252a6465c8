use pallet_game::error::Error;
use pallet_game::fighter::{Fighter, DEFENSE_CAP, POWER_BUDGET, STAT_WEIGHT};
use pallet_game::identity::{duplicate, same};
use pallet_game::rules::{check_create, check_transfer, next_id, GetDefaultValue};

fn fighter(hit_points: u16, attack: u16, defense: u16) -> Fighter {
    Fighter { hit_points, attack, defense }
}

#[test]
fn limits_have_their_values() {
    assert_eq!(POWER_BUDGET, 1000);
    assert_eq!(DEFENSE_CAP, 50);
    assert_eq!(STAT_WEIGHT, 10);
}

#[test]
fn first_identifier_is_zero() {
    assert_eq!(GetDefaultValue(), 0);
}

#[test]
fn power_weighs_attack_and_defense_by_ten() {
    assert_eq!(fighter(500, 20, 10).power(), 800);
    assert_eq!(fighter(900, 10, 5).power(), 1050);
    assert_eq!(fighter(0, 0, 0).power(), 0);
    assert_eq!(fighter(1, 0, 0).power(), 1);
    assert_eq!(fighter(0, 1, 0).power(), 10);
    assert_eq!(fighter(0, 0, 1).power(), 10);
}

#[test]
fn power_of_the_largest_attributes_does_not_wrap() {
    assert_eq!(fighter(u16::MAX, u16::MAX, u16::MAX).power(), 65_535 + 655_350 + 655_350);
    assert_eq!(fighter(0, 6554, 0).power(), 65_540);
}

#[test]
fn new_accepts_attributes_within_both_limits() {
    assert_eq!(Fighter::new(500, 20, 10), Ok(fighter(500, 20, 10)));
    assert_eq!(Fighter::new(0, 0, 0), Ok(fighter(0, 0, 0)));
}

#[test]
fn new_accepts_power_exactly_at_the_budget() {
    assert_eq!(Fighter::new(1000, 0, 0), Ok(fighter(1000, 0, 0)));
    assert_eq!(Fighter::new(0, 100, 0), Ok(fighter(0, 100, 0)));
    assert_eq!(Fighter::new(0, 50, 50), Ok(fighter(0, 50, 50)));
    assert_eq!(Fighter::new(490, 1, 50), Ok(fighter(490, 1, 50)));
}

#[test]
fn new_refuses_power_one_above_the_budget() {
    assert_eq!(Fighter::new(1001, 0, 0), Err(Error::PowerBudgetExceeded));
    assert_eq!(Fighter::new(991, 1, 0), Err(Error::PowerBudgetExceeded));
    assert_eq!(Fighter::new(900, 10, 5), Err(Error::PowerBudgetExceeded));
}

#[test]
fn new_refuses_what_would_wrap_in_sixteen_bits() {
    // 6554 * 10 is 65540, which is 4 modulo 65536.
    assert_eq!(Fighter::new(0, 6554, 0), Err(Error::PowerBudgetExceeded));
    assert_eq!(Fighter::new(u16::MAX, u16::MAX, u16::MAX), Err(Error::PowerBudgetExceeded));
}

#[test]
fn new_accepts_defense_exactly_at_the_cap() {
    assert_eq!(Fighter::new(500, 0, 50), Ok(fighter(500, 0, 50)));
}

#[test]
fn new_refuses_defense_above_the_cap_within_the_budget() {
    assert_eq!(Fighter::new(0, 0, 51), Err(Error::DefenseCapExceeded));
    assert_eq!(Fighter::new(0, 0, 100), Err(Error::DefenseCapExceeded));
    assert_eq!(Fighter::new(100, 10, 60), Err(Error::DefenseCapExceeded));
}

#[test]
fn new_judges_the_budget_before_the_cap() {
    assert_eq!(Fighter::new(0, 0, 101), Err(Error::PowerBudgetExceeded));
    assert_eq!(Fighter::new(0, 0, 200), Err(Error::PowerBudgetExceeded));
    assert_eq!(Fighter::new(500, 0, 51), Err(Error::PowerBudgetExceeded));
}

#[test]
fn next_id_is_the_counter_until_the_last_value() {
    assert_eq!(next_id(0), Ok(0));
    assert_eq!(next_id(7), Ok(7));
    assert_eq!(next_id(u32::MAX - 1), Ok(u32::MAX - 1));
    assert_eq!(next_id(u32::MAX), Err(Error::IdSpaceExhausted));
}

#[test]
fn check_create_gives_identifier_and_fighter() {
    assert_eq!(check_create(0, 500, 20, 10), Ok((0, fighter(500, 20, 10))));
    assert_eq!(check_create(41, 1000, 0, 0), Ok((41, fighter(1000, 0, 0))));
    assert_eq!(check_create(u32::MAX - 1, 1, 2, 3), Ok((u32::MAX - 1, fighter(1, 2, 3))));
}

#[test]
fn check_create_refuses_when_the_counter_is_exhausted() {
    assert_eq!(check_create(u32::MAX, 500, 20, 10), Err(Error::IdSpaceExhausted));
}

#[test]
fn check_create_judges_attributes_before_the_counter() {
    assert_eq!(check_create(u32::MAX, 900, 10, 5), Err(Error::PowerBudgetExceeded));
    assert_eq!(check_create(u32::MAX, 0, 0, 51), Err(Error::DefenseCapExceeded));
    assert_eq!(check_create(3, 900, 10, 5), Err(Error::PowerBudgetExceeded));
    assert_eq!(check_create(3, 0, 0, 51), Err(Error::DefenseCapExceeded));
}

#[test]
fn check_transfer_obeys_the_recorded_owner() {
    let f = fighter(1, 2, 3);
    assert_eq!(check_transfer(Some(&f), Some(&7u64), &7u64), Ok(()));
}

#[test]
fn check_transfer_refuses_anyone_else() {
    let f = fighter(1, 2, 3);
    assert_eq!(check_transfer(Some(&f), Some(&7u64), &8u64), Err(Error::NotOwner));
    assert_eq!(check_transfer(Some(&f), None, &8u64), Err(Error::NotOwner));
}

#[test]
fn check_transfer_looks_for_the_fighter_first() {
    assert_eq!(check_transfer(None, Some(&7u64), &7u64), Err(Error::UnknownFighter));
    assert_eq!(check_transfer(None, Some(&7u64), &8u64), Err(Error::UnknownFighter));
    assert_eq!(check_transfer::<u64>(None, None, &8u64), Err(Error::UnknownFighter));
}

#[test]
fn identities_are_compared_by_value() {
    let alice = String::from("alice");
    let again = String::from("alice");
    let bob = String::from("bob");
    assert!(same(&alice, &again));
    assert!(!same(&alice, &bob));
    assert!(same(&[1u8; 32], &[1u8; 32]));
    assert!(!same(&[1u8; 32], &[2u8; 32]));
}

#[test]
fn duplicate_gives_an_equal_identity() {
    let alice = String::from("alice");
    assert_eq!(duplicate(&alice), alice);
    assert_eq!(duplicate(&9u64), 9);
}
