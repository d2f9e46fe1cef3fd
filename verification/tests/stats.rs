use rpg_combat::character::class::{Class, Stat, Tier};
use rpg_combat::location::Distance;

#[test]
fn stat_at_is_linear() {
    let s = Stat(10, 3);
    assert_eq!(10, s.base());
    assert_eq!(3, s.increase());
    assert_eq!(10, s.at(0));
    assert_eq!(13, s.at(1));
    assert_eq!(25, s.at(5));
    assert_eq!(3010, s.at(1000));
}

#[test]
fn stat_at_is_monotonic() {
    let s = Stat(7, 2);
    let mut prev = s.at(0);
    for level in 1..50 {
        let cur = s.at(level);
        assert!(cur >= prev);
        prev = cur;
    }
}

#[test]
fn hero_class_stats() {
    let hero = Class::hero();
    assert_eq!("hero", hero.name);
    assert_eq!(Tier::Hero, hero.tier);
    assert_eq!(30, hero.hp.at(0));
    assert_eq!(37, hero.hp.at(1));
    assert!(hero.inflicts.is_none());
}

#[test]
fn catalog_tiers() {
    let common = rpg_combat::character::class::common();
    let rare = rpg_combat::character::class::rare();
    let legendary = rpg_combat::character::class::legendary();
    assert_eq!(5, common.len());
    assert_eq!(7, rare.len());
    assert_eq!(5, legendary.len());
    assert_eq!("rat", common[0].name);
    assert_eq!("snake", common[2].name);
    assert_eq!("dragon", rare[5].name);
    assert_eq!("phoenix", legendary[4].name);
    assert!(common.iter().all(|c| c.tier == Tier::Common));
    assert!(rare.iter().all(|c| c.tier == Tier::Rare));
    assert!(legendary.iter().all(|c| c.tier == Tier::Legendary));
}

#[test]
fn near_never_yields_legendary() {
    for _ in 0..2000 {
        let c = Class::random_enemy(Distance::Near(1));
        assert!(c.tier != Tier::Legendary);
        assert!(c.tier != Tier::Hero);
    }
}

#[test]
fn mid_rare_frequency_matches_weights() {
    // at mid distance the rare tier carries 7 * 10 of the
    // 5 * 7 + 7 * 10 + 5 * 1 = 110 total weight, about 64 percent
    let trials: u32 = 20000;
    let mut rare_draws: u32 = 0;
    for _ in 0..trials {
        let c = Class::random_enemy(Distance::Mid(3));
        if c.tier == Tier::Rare {
            rare_draws += 1;
        }
    }
    let percent = rare_draws * 100 / trials;
    assert!(percent > 53, "rare draws only {percent}%");
    assert!(percent < 73, "rare draws as much as {percent}%");
}

#[test]
fn far_reaches_every_tier() {
    let mut seen_common = false;
    let mut seen_rare = false;
    let mut seen_legendary = false;
    for _ in 0..5000 {
        match Class::random_enemy(Distance::Far(9)).tier {
            Tier::Common => seen_common = true,
            Tier::Rare => seen_rare = true,
            Tier::Legendary => seen_legendary = true,
            Tier::Hero => panic!("the hero class must never be drawn"),
        }
    }
    assert!(seen_common && seen_rare && seen_legendary);
}
