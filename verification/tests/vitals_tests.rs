use termagotchi::vitals::{Stat, Vitals};

/// Tests the overflow handling of modify() on Stat
#[test]
fn test_stat_modify() {
    let mut stat = Stat(3);
    stat.modify(-4);
    assert_eq!(stat.get(), 0);

    stat = Stat(4);
    stat.modify(1);
    assert_eq!(stat.get(), 5);
}

#[test]
fn stat_modify_saturates_high() {
    let mut stat = Stat(250);
    stat.modify(10);
    assert_eq!(stat.get(), 255);

    stat = Stat(255);
    stat.modify(127);
    assert_eq!(stat.get(), 255);

    stat = Stat(128);
    stat.modify(127);
    assert_eq!(stat.get(), 255);
}

#[test]
fn stat_modify_saturates_low() {
    let mut stat = Stat(0);
    stat.modify(-128);
    assert_eq!(stat.get(), 0);

    stat = Stat(100);
    stat.modify(-100);
    assert_eq!(stat.get(), 0);
}

#[test]
fn stat_modify_in_range_is_exact() {
    let mut stat = Stat(200);
    stat.modify(-128);
    assert_eq!(stat.get(), 72);

    stat = Stat(10);
    stat.modify(100);
    assert_eq!(stat.get(), 110);
}

#[test]
fn stat_is_zero() {
    assert!(Stat(0).is_zero());
    assert!(!Stat(1).is_zero());
}

#[test]
fn default_vitals_values() {
    let vitals = Vitals::default();
    assert_eq!(vitals.hp(), 100);
    assert_eq!(vitals.hunger(), 50);
    assert_eq!(vitals.happiness(), 100);
    assert_eq!(vitals.comfort(), 100);
}

#[test]
fn sick_at_hunger_threshold_or_zero_happiness() {
    assert!(Vitals::new(100, 150, 60, 100).is_sick());
    assert!(!Vitals::new(100, 149, 60, 100).is_sick());
    assert!(Vitals::new(100, 0, 0, 100).is_sick());
    assert!(!Vitals::new(100, 0, 1, 100).is_sick());
}

#[test]
fn alive_only_above_zero_health() {
    assert!(Vitals::new(1, 50, 100, 100).is_alive());
    assert!(!Vitals::new(0, 50, 100, 100).is_alive());
}

#[test]
fn cranky_at_or_below_threshold() {
    assert!(Vitals::new(100, 50, 50, 100).is_cranky());
    assert!(!Vitals::new(100, 50, 51, 100).is_cranky());
}

#[test]
fn needs_food_at_or_above_threshold() {
    assert!(Vitals::new(100, 100, 100, 100).needs_food());
    assert!(!Vitals::new(100, 99, 100, 100).needs_food());
}

#[test]
fn needs_toilet_at_or_below_threshold() {
    assert!(Vitals::new(100, 50, 100, 50).needs_toilet());
    assert!(!Vitals::new(100, 50, 100, 51).needs_toilet());
    assert!(Vitals::new(100, 50, 100, 0).is_poop());
    assert!(!Vitals::new(100, 50, 100, 1).is_poop());
}

#[test]
fn cranky_pet_refuses_food() {
    let mut vitals = Vitals::new(100, 80, 50, 100);
    assert!(vitals.is_cranky());
    vitals.modify_hunger(-30);
    assert_eq!(vitals.hunger(), 80);

    let mut cheerful = Vitals::new(100, 80, 51, 100);
    cheerful.modify_hunger(-30);
    assert_eq!(cheerful.hunger(), 50);
}
