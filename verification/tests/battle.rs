use rpg_combat::battle::{self, AttackOutcome, AttackRolls, BattleState, RoundRolls};
use rpg_combat::character::{Character, StatusEffect};
use rpg_combat::event::Event;

fn sure_hit() -> AttackRolls {
    AttackRolls { miss: 99, crit: 99, effect: 99 }
}

fn quiet_round() -> RoundRolls {
    RoundRolls { flee: 99, first: sure_hit(), second: sure_hit() }
}

fn rat() -> Character {
    Character::new(rpg_combat::character::class::common()[0], 0)
}

#[test]
fn flee_success_is_immediate_with_no_damage() {
    let mut player = Character::player();
    let mut enemy = rat();
    let mut events = Vec::new();
    // flee chance against the faster rat is 50 + 5 * (13 - 16) = 35
    let rolls = RoundRolls { flee: 34, first: sure_hit(), second: sure_hit() };
    let state = battle::battle_round(&mut player, &mut enemy, true, false, 100, rolls, &mut events);
    assert_eq!(BattleState::PlayerFled, state);
    assert_eq!(37, player.current_hp);
    assert_eq!(10, enemy.current_hp);
    assert_eq!(1, events.len());
    assert!(matches!(events[0], Event::RunAway { success: true }));
}

#[test]
fn failed_flee_still_fights_the_round() {
    let mut player = Character::player();
    let mut enemy = rat();
    let mut events = Vec::new();
    let rolls = RoundRolls { flee: 35, first: sure_hit(), second: sure_hit() };
    let state = battle::battle_round(&mut player, &mut enemy, true, false, 100, rolls, &mut events);
    // the rat moves first and hits for 5; the player's answer of 15 kills it
    assert_eq!(BattleState::PlayerWon, state);
    assert_eq!(32, player.current_hp);
    assert_eq!(0, enemy.current_hp);
    assert!(matches!(events[0], Event::RunAway { success: false }));
}

#[test]
fn regular_hits_win_within_one_round() {
    // the player always lands regular hits of 15 against the 10 hp rat
    let mut player = Character::player();
    let mut enemy = rat();
    let mut events = Vec::new();
    let state =
        battle::battle_round(&mut player, &mut enemy, false, false, 0, quiet_round(), &mut events);
    assert_eq!(BattleState::PlayerWon, state);
    assert_eq!(0, enemy.current_hp);
    assert_eq!(32, player.current_hp);
    assert_eq!(2, events.len());
    assert!(matches!(
        events[0],
        Event::EnemyAttack { kind: AttackOutcome::Regular(5), damage: 5 }
    ));
    assert!(matches!(
        events[1],
        Event::PlayerAttack { kind: AttackOutcome::Regular(15), damage: 15, .. }
    ));
}

#[test]
fn fought_round_reports_in_initiative_order() {
    // failed flee and bribe reports come first, then the attacks in
    // speed order (the level-four zombie outruns the player), then the
    // player's tick
    let mut player = Character::player();
    player.apply_status_effect(StatusEffect::Poisoned, 2);
    let mut enemy = Character::new(rpg_combat::character::class::rare()[0], 4);
    assert_eq!(14, enemy.speed);
    let mut events = Vec::new();
    let rolls = RoundRolls { flee: 99, first: sure_hit(), second: sure_hit() };
    let state = battle::battle_round(&mut player, &mut enemy, true, true, 0, rolls, &mut events);
    assert_eq!(BattleState::Ongoing, state);
    assert_eq!(5, events.len());
    assert!(matches!(events[0], Event::RunAway { success: false }));
    assert!(matches!(events[1], Event::Bribe { cost: 0 }));
    assert!(matches!(events[2], Event::EnemyAttack { kind: AttackOutcome::Regular(16), damage: 16 }));
    assert!(matches!(events[3], Event::PlayerAttack { kind: AttackOutcome::Regular(15), damage: 15, .. }));
    assert!(matches!(events[4], Event::StatusEffectDamage { damage: 2 }));
    assert_eq!(37 - 16 - 2, player.current_hp);
    assert_eq!(62 - 15, enemy.current_hp);
}

#[test]
fn bribe_needs_enough_gold() {
    let mut player = Character::player();
    let mut enemy = rat();
    let mut events = Vec::new();
    // a level-zero rat asks for 5 gold
    let state =
        battle::battle_round(&mut player, &mut enemy, false, true, 5, quiet_round(), &mut events);
    assert_eq!(BattleState::PlayerBribed, state);
    assert_eq!(37, player.current_hp);
    assert!(matches!(events[0], Event::Bribe { cost: 5 }));

    let mut player = Character::player();
    let mut enemy = rat();
    let mut events = Vec::new();
    let state =
        battle::battle_round(&mut player, &mut enemy, false, true, 4, quiet_round(), &mut events);
    assert_eq!(BattleState::PlayerWon, state);
    assert!(matches!(events[0], Event::Bribe { cost: 0 }));
}

#[test]
fn effect_attack_inflicts_and_damages() {
    let mut player = Character::player();
    // a level-zero snake inflicts poison of magnitude 5
    let snake = Character::new(rpg_combat::character::class::common()[2], 0);
    let rolls = AttackRolls { miss: 99, crit: 99, effect: 24 };
    let outcome = battle::attack(snake, &mut player, rolls);
    assert_eq!(AttackOutcome::Effect(StatusEffect::Poisoned, 5), outcome);
    assert_eq!(32, player.current_hp);
    assert_eq!(Some((StatusEffect::Poisoned, 5)), player.status_effect);
}

#[test]
fn critical_hit_doubles_damage() {
    let mut player = Character::player();
    let rat = rat();
    let rolls = AttackRolls { miss: 99, crit: 4, effect: 99 };
    let outcome = battle::attack(rat, &mut player, rolls);
    assert_eq!(AttackOutcome::Critical(10), outcome);
    assert_eq!(27, player.current_hp);
}

#[test]
fn dodge_needs_the_speed_advantage() {
    // the rat is faster than the player, so the player may miss it
    let mut enemy = rat();
    let player = Character::player();
    // miss chance is 2 * (16 - 13) = 6
    let outcome = battle::attack(player, &mut enemy, AttackRolls { miss: 5, crit: 99, effect: 99 });
    assert_eq!(AttackOutcome::Miss, outcome);
    assert_eq!(10, enemy.current_hp);
    // the faster rat can never miss the player
    let mut player = Character::player();
    let outcome = battle::attack(rat(), &mut player, AttackRolls { miss: 0, crit: 99, effect: 99 });
    assert_eq!(AttackOutcome::Regular(5), outcome);
}

#[test]
fn status_effect_damage_persists_across_rounds() {
    // a poisoned player keeps losing 5 per round on top of attack damage
    let mut player = Character::player();
    player.apply_status_effect(StatusEffect::Poisoned, 5);
    // a level-zero zombie: 50 hp, strength 8, speed 6 — slower than the player
    let mut zombie = Character::new(rpg_combat::character::class::rare()[0], 0);
    let mut events = Vec::new();
    let state =
        battle::battle_round(&mut player, &mut zombie, false, false, 0, quiet_round(), &mut events);
    assert_eq!(BattleState::Ongoing, state);
    assert_eq!(50 - 15, zombie.current_hp);
    assert_eq!(37 - 8 - 5, player.current_hp);
    assert_eq!(Some((StatusEffect::Poisoned, 5)), player.status_effect);
    assert!(events
        .iter()
        .any(|e| matches!(e, Event::StatusEffectDamage { damage: 5 })));

    let state =
        battle::battle_round(&mut player, &mut zombie, false, false, 0, quiet_round(), &mut events);
    assert_eq!(BattleState::Ongoing, state);
    assert_eq!(50 - 30, zombie.current_hp);
    assert_eq!(37 - 16 - 10, player.current_hp);
    assert_eq!(Some((StatusEffect::Poisoned, 5)), player.status_effect);
}

#[test]
fn rewards_are_deterministic() {
    let one = rat();
    let other = rat();
    assert_eq!(battle::xp_reward(&one), battle::xp_reward(&other));
    assert_eq!(battle::gold_reward(&one), battle::gold_reward(&other));
    assert_eq!(10, battle::xp_reward(&one));
    assert_eq!(10, battle::gold_reward(&one));
    assert_eq!(5, battle::bribe_cost(&one));
    // a level-three dragon: 109 max hp
    let dragon = Character::new(rpg_combat::character::class::rare()[5], 3);
    assert_eq!(139, battle::xp_reward(&dragon));
    assert_eq!(40, battle::gold_reward(&dragon));
    assert_eq!(20, battle::bribe_cost(&dragon));
}

#[test]
fn whole_battle_against_a_rat_pays_once() {
    let mut player = Character::player();
    let mut enemy = rat();
    let mut gold = 100;
    let (state, events) = battle::battle(&mut player, &mut enemy, false, false, &mut gold);
    assert_eq!(BattleState::PlayerWon, state);
    assert_eq!(0, enemy.current_hp);
    assert!(matches!(events[0], Event::EnemyAppears { .. }));
    let won: Vec<&Event> = events
        .iter()
        .filter(|e| matches!(e, Event::BattleWon { .. }))
        .collect();
    assert_eq!(1, won.len());
    assert!(matches!(
        events[events.len() - 1],
        Event::BattleWon { xp: 10, levels_up: 0, gold: 10 }
    ));
    assert_eq!(110, gold);
    assert_eq!(10, player.xp);
    assert_eq!(1, player.level);
}

#[test]
fn lost_battle_reports_once() {
    // a hopeless fight: a level-one player against a high-level balrog
    let mut player = Character::player();
    let mut enemy = Character::new(rpg_combat::character::class::legendary()[3], 10);
    let mut gold = 7;
    let (state, events) = battle::battle(&mut player, &mut enemy, false, false, &mut gold);
    assert_eq!(BattleState::PlayerDied, state);
    assert_eq!(0, player.current_hp);
    assert_eq!(7, gold);
    assert_eq!(0, player.xp);
    let lost: Vec<&Event> = events
        .iter()
        .filter(|e| matches!(e, Event::BattleLost))
        .collect();
    assert_eq!(1, lost.len());
    assert!(matches!(events[events.len() - 1], Event::BattleLost));
}

#[test]
fn sanitize_lowercases_and_resolves_aliases() {
    assert_eq!("potion", rpg_combat::sanitize("P"));
    assert_eq!("potion", rpg_combat::sanitize("potion"));
    assert_eq!("escape", rpg_combat::sanitize("Escape"));
    assert_eq!("escape", rpg_combat::sanitize("e"));
    assert_eq!("sword", rpg_combat::sanitize("SW"));
    assert_eq!("shield", rpg_combat::sanitize("ShIeLd"));
    assert_eq!("elixir", rpg_combat::sanitize("Elixir"));
}

#[test]
fn random_draws_stay_below_the_bound() {
    for _ in 0..200 {
        assert!(rpg_combat::randomizer::random_below(7) < 7);
    }
    for _ in 0..50 {
        assert!(rpg_combat::randomizer::random_below(1) == 0);
    }
}
