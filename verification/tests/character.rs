use rpg_combat::character::class::{Class, Stat, Tier};
use rpg_combat::character::{Character, StatusEffect};

fn dummy_class(hp: i32, strength: i32, speed: i32) -> Class {
    Class {
        name: "dummy",
        hp: Stat(hp, 0),
        strength: Stat(strength, 0),
        speed: Stat(speed, 0),
        inflicts: None,
        tier: Tier::Common,
    }
}

#[test]
fn new_character_is_full_and_fresh() {
    let rat = rpg_combat::character::class::common()[0];
    let c = Character::new(rat, 2);
    assert_eq!(16, c.max_hp);
    assert_eq!(16, c.current_hp);
    assert_eq!(0, c.xp);
    assert_eq!(20, c.speed);
    assert!(c.status_effect.is_none());
    assert!(!c.is_player());
    assert_eq!("rat", c.name());
}

#[test]
fn player_starts_as_level_one_hero() {
    let p = Character::player();
    assert!(p.is_player());
    assert_eq!(1, p.level);
    assert_eq!(37, p.max_hp);
    assert_eq!(37, p.current_hp);
    assert_eq!(15, p.attack());
    assert_eq!(0, p.deffense());
    assert_eq!(30, p.xp_for_next());
}

#[test]
fn damage_is_clamped_at_zero() {
    let mut c = Character::new(dummy_class(10, 5, 5), 0);
    c.receive_damage(4);
    assert_eq!(6, c.current_hp);
    c.receive_damage(0);
    assert_eq!(6, c.current_hp);
    c.receive_damage(100);
    assert_eq!(0, c.current_hp);
}

#[test]
fn death_clears_status_effect() {
    let mut c = Character::new(dummy_class(10, 5, 5), 0);
    c.apply_status_effect(StatusEffect::Burning, 3);
    c.receive_damage(99);
    assert_eq!(0, c.current_hp);
    assert!(c.status_effect.is_none());
}

#[test]
fn status_effect_overwrites_not_stacks() {
    let mut c = Character::new(dummy_class(30, 5, 5), 0);
    c.apply_status_effect(StatusEffect::Poisoned, 5);
    assert_eq!(Some((StatusEffect::Poisoned, 5)), c.status_effect);
    c.apply_status_effect(StatusEffect::Burning, 7);
    assert_eq!(Some((StatusEffect::Burning, 7)), c.status_effect);
}

#[test]
fn poison_ticks_until_death() {
    // a poisoned target with 20 hit points loses 5 per tick
    let mut c = Character::new(dummy_class(20, 5, 5), 0);
    c.apply_status_effect(StatusEffect::Poisoned, 5);
    assert_eq!(5, c.tick_status_effect());
    assert_eq!(15, c.current_hp);
    assert_eq!(Some((StatusEffect::Poisoned, 5)), c.status_effect);
    assert_eq!(5, c.tick_status_effect());
    assert_eq!(10, c.current_hp);
    assert_eq!(5, c.tick_status_effect());
    assert_eq!(5, c.current_hp);
    assert_eq!(5, c.tick_status_effect());
    assert_eq!(0, c.current_hp);
    assert!(c.status_effect.is_none());
    assert_eq!(0, c.tick_status_effect());
    assert_eq!(0, c.current_hp);
}

#[test]
fn heal_restores_and_clears() {
    let mut c = Character::new(dummy_class(30, 5, 5), 0);
    c.apply_status_effect(StatusEffect::Poisoned, 5);
    c.receive_damage(12);
    let (recovered, healed) = c.heal();
    assert_eq!(12, recovered);
    assert!(healed);
    assert_eq!(30, c.current_hp);
    assert!(c.status_effect.is_none());
    let (recovered, healed) = c.heal();
    assert_eq!(0, recovered);
    assert!(!healed);
}

#[test]
fn experience_levels_up_at_threshold() {
    let mut p = Character::player();
    p.receive_damage(7);
    let levels = p.add_experience(29);
    assert_eq!(0, levels);
    assert_eq!(1, p.level);
    let levels = p.add_experience(1);
    assert_eq!(1, levels);
    assert_eq!(2, p.level);
    assert_eq!(30, p.xp);
    assert_eq!(120, p.xp_for_next());
    // derived stats follow the new level, damage is carried through
    assert_eq!(44, p.max_hp);
    assert_eq!(44 - 14, p.current_hp);
    assert_eq!(15, p.speed);
}

#[test]
fn experience_levels_up_many_at_once() {
    let mut p = Character::player();
    let levels = p.add_experience(2_000_000);
    assert_eq!(258, levels);
    assert_eq!(259, p.level);
    assert_eq!(2_000_000, p.xp);
}
