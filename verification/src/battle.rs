//! The battle resolver: a turn loop that produces attack outcomes until a
//! terminal state is reached, plus the deterministic reward and
//! progression applied on victory. Every decision is verified against a
//! functional round model; only the dice draws come from the randomizer.

use crate::character::Character;
use crate::character::StatusEffect;
use crate::character::XP_CAP;
use crate::character::hp_minus;
use crate::character::lemma_character_bounds;
use crate::character::level_after;
use crate::event::Event;
use crate::randomizer;
use vstd::prelude::*;

verus! {

/// Chance (in percent) that an attack is a critical hit, doubling its
/// damage. A balancing parameter.
pub const CRIT_CHANCE: u32 = 5;

/// Chance (in percent) that an attacker whose class can inflict a status
/// effect does so on a connecting turn. A balancing parameter.
pub const EFFECT_CHANCE: u32 = 25;

/// Classification of one attacking turn: exactly one outcome per turn.
/// The payload is the damage dealt; for an effect outcome it is the
/// inflicted per-tick magnitude, dealt immediately as well.
#[derive(Clone, Copy, Debug, PartialEq, Eq, Structural)]
pub enum AttackOutcome {
    Regular(i32),
    Critical(i32),
    Effect(StatusEffect, i32),
    Miss,
}

/// State of a battle: it starts `Ongoing` and ends in exactly one of the
/// four terminal states, which are absorbing.
#[derive(Clone, Copy, Debug, PartialEq, Eq, Structural)]
pub enum BattleState {
    Ongoing,
    PlayerWon,
    PlayerDied,
    PlayerFled,
    PlayerBribed,
}

/// The three dice of one attacking turn, each drawn from `0..100`.
#[derive(Clone, Copy, Debug)]
pub struct AttackRolls {
    pub miss: u32,
    pub crit: u32,
    pub effect: u32,
}

impl AttackRolls {
    pub open spec fn wf(self) -> bool {
        self.miss < 100 && self.crit < 100 && self.effect < 100
    }
}

/// All dice of one battle round: one flee die and one set of attack dice
/// for each of the two acting characters.
#[derive(Clone, Copy, Debug)]
pub struct RoundRolls {
    pub flee: u32,
    pub first: AttackRolls,
    pub second: AttackRolls,
}

impl RoundRolls {
    pub open spec fn wf(self) -> bool {
        self.flee < 100 && self.first.wf() && self.second.wf()
    }
}

/// Chance (in percent) that a flee attempt succeeds: even odds, improved
/// by the player's speed advantage over the enemy and clamped to
/// `[10, 90]` so that neither side is ever certain.
pub open spec fn flee_chance(p_speed: int, e_speed: int) -> int {
    let c = 50 + 5 * (p_speed - e_speed);
    if c < 10 {
        10
    } else if c > 90 {
        90
    } else {
        c
    }
}

/// Chance (in percent) that an attack misses: zero unless the defender is
/// faster than the attacker, then growing with the speed gap up to half.
pub open spec fn miss_chance(att_speed: int, def_speed: int) -> int {
    if def_speed > att_speed {
        let c = 2 * (def_speed - att_speed);
        if c > 50 {
            50
        } else {
            c
        }
    } else {
        0
    }
}

/// Damage of a connecting regular hit: attack minus defense, at least one.
pub open spec fn base_damage_spec(att: Character, def: Character) -> int {
    let d = att.attack_spec() - def.deffense_spec();
    if d < 1 {
        1
    } else {
        d
    }
}

/// The outcome of one attacking turn, fully determined by the two
/// characters and the dice: a miss if the miss die falls under the miss
/// chance; otherwise an effect infliction if the attacker's class has one
/// and the effect die falls under `EFFECT_CHANCE`; otherwise a critical
/// hit of double damage if the critical die falls under `CRIT_CHANCE`;
/// otherwise a regular hit.
pub open spec fn outcome_spec(att: Character, def: Character, r: AttackRolls) -> AttackOutcome {
    if r.miss < miss_chance(att.speed as int, def.speed as int) {
        AttackOutcome::Miss
    } else {
        match att.class.inflicts {
            Some((kind, m)) => if r.effect < EFFECT_CHANCE {
                AttackOutcome::Effect(kind, m as i32)
            } else if r.crit < CRIT_CHANCE {
                AttackOutcome::Critical((2 * base_damage_spec(att, def)) as i32)
            } else {
                AttackOutcome::Regular(base_damage_spec(att, def) as i32)
            },
            None => if r.crit < CRIT_CHANCE {
                AttackOutcome::Critical((2 * base_damage_spec(att, def)) as i32)
            } else {
                AttackOutcome::Regular(base_damage_spec(att, def) as i32)
            },
        }
    }
}

/// The damage carried by an outcome; a miss deals none.
pub open spec fn damage_of(o: AttackOutcome) -> int {
    match o {
        AttackOutcome::Regular(d) => d as int,
        AttackOutcome::Critical(d) => d as int,
        AttackOutcome::Effect(_, d) => d as int,
        AttackOutcome::Miss => 0,
    }
}

/// The defender after one attack outcome lands on it: hit points drop by
/// the outcome's damage, clamped at zero; an effect outcome overwrites
/// the active status effect; death clears it.
pub open spec fn after_hit(def: Character, o: AttackOutcome) -> Character {
    let hp = hp_minus(def.current_hp as int, damage_of(o));
    let se = if hp == 0 {
        None
    } else {
        match o {
            AttackOutcome::Effect(k, d) => Some((k, d)),
            _ => def.status_effect,
        }
    };
    Character { current_hp: hp as i32, status_effect: se, ..def }
}

/// A character after one damage-over-time tick of the status effect it
/// held at the start of the round: it takes the recorded magnitude as
/// damage, and death clears whatever effect it now holds.
pub open spec fn after_tick(c: Character, pending: Option<(StatusEffect, i32)>) -> Character {
    match pending {
        Some((_, m)) => {
            let hp = hp_minus(c.current_hp as int, m as int);
            Character {
                current_hp: hp as i32,
                status_effect: if hp == 0 {
                    None
                } else {
                    c.status_effect
                },
                ..c
            }
        },
        None => c,
    }
}

/// End of a round after both sides survived the attack exchange: each
/// side holding a status effect at round start takes its tick damage,
/// then death is resolved — the enemy's first.
pub open spec fn ticks_model(
    p: Character,
    e: Character,
    p_pending: Option<(StatusEffect, i32)>,
    e_pending: Option<(StatusEffect, i32)>,
) -> (Character, Character, BattleState) {
    let p2 = after_tick(p, p_pending);
    let e2 = after_tick(e, e_pending);
    let st = if e2.current_hp == 0 {
        BattleState::PlayerWon
    } else if p2.current_hp == 0 {
        BattleState::PlayerDied
    } else {
        BattleState::Ongoing
    };
    (p2, e2, st)
}

/// The attack exchange of one round: the faster character acts first
/// (the player on ties); a death ends the battle at once — the fallen
/// side neither acts nor ticks further; otherwise the round closes with
/// the status-effect ticks.
pub open spec fn exchange_model(p: Character, e: Character, rolls: RoundRolls) -> (
    Character,
    Character,
    BattleState,
) {
    if p.speed >= e.speed {
        let e1 = after_hit(e, outcome_spec(p, e, rolls.first));
        if e1.current_hp == 0 {
            (p, e1, BattleState::PlayerWon)
        } else {
            let p1 = after_hit(p, outcome_spec(e1, p, rolls.second));
            if p1.current_hp == 0 {
                (p1, e1, BattleState::PlayerDied)
            } else {
                ticks_model(p1, e1, p.status_effect, e.status_effect)
            }
        }
    } else {
        let p1 = after_hit(p, outcome_spec(e, p, rolls.first));
        if p1.current_hp == 0 {
            (p1, e, BattleState::PlayerDied)
        } else {
            let e1 = after_hit(e, outcome_spec(p1, e, rolls.second));
            if e1.current_hp == 0 {
                (p1, e1, BattleState::PlayerWon)
            } else {
                ticks_model(p1, e1, p.status_effect, e.status_effect)
            }
        }
    }
}

/// One full battle round, fully determined by the characters, the intent
/// flags, the available gold and the dice: a successful flee ends the
/// round with no damage; otherwise an affordable requested bribe ends it;
/// otherwise the attack exchange and ticks run.
pub open spec fn round_model(
    p: Character,
    e: Character,
    run: bool,
    bribe: bool,
    gold: int,
    rolls: RoundRolls,
) -> (Character, Character, BattleState) {
    if run && rolls.flee < flee_chance(p.speed as int, e.speed as int) {
        (p, e, BattleState::PlayerFled)
    } else if bribe && gold >= bribe_cost_spec(e) {
        (p, e, BattleState::PlayerBribed)
    } else {
        exchange_model(p, e, rolls)
    }
}

/// The reports of the failed escape attempts that precede the attack
/// exchange of a fought round: a failed flee report when fleeing was
/// requested, then a refused bribe report when bribing was requested.
pub open spec fn failed_attempt_events(run: bool, bribe: bool) -> Seq<Event> {
    let s = if run {
        seq![Event::RunAway { success: false }]
    } else {
        Seq::<Event>::empty()
    };
    if bribe {
        s.push(Event::Bribe { cost: 0 })
    } else {
        s
    }
}

/// The player's damage-over-time report at the end of a round: present
/// exactly when the player held an effect at round start, carrying the
/// hit points the tick actually removed.
pub open spec fn tick_events(p: Character, pending: Option<(StatusEffect, i32)>) -> Seq<Event> {
    match pending {
        Some((_, m)) => seq![
            (Event::StatusEffectDamage {
                damage: (p.current_hp - hp_minus(p.current_hp as int, m as int)) as i32,
            }),
        ],
        None => Seq::<Event>::empty(),
    }
}

/// The attack reports of a fought round, in initiative order: the faster
/// character's attack is reported first (the player's on ties), each
/// report carrying the outcome the round model computes from the dice; a
/// death cuts the round short, otherwise the player's tick report closes
/// it.
pub open spec fn exchange_events(p: Character, e: Character, rolls: RoundRolls) -> Seq<Event> {
    if p.speed >= e.speed {
        let o1 = outcome_spec(p, e, rolls.first);
        let e1 = after_hit(e, o1);
        let ev1 = Event::PlayerAttack { enemy: e1, kind: o1, damage: damage_of(o1) as i32 };
        if e1.current_hp == 0 {
            seq![ev1]
        } else {
            let o2 = outcome_spec(e1, p, rolls.second);
            let p1 = after_hit(p, o2);
            let ev2 = Event::EnemyAttack { kind: o2, damage: damage_of(o2) as i32 };
            if p1.current_hp == 0 {
                seq![ev1, ev2]
            } else {
                seq![ev1, ev2] + tick_events(p1, p.status_effect)
            }
        }
    } else {
        let o1 = outcome_spec(e, p, rolls.first);
        let p1 = after_hit(p, o1);
        let ev1 = Event::EnemyAttack { kind: o1, damage: damage_of(o1) as i32 };
        if p1.current_hp == 0 {
            seq![ev1]
        } else {
            let o2 = outcome_spec(p1, e, rolls.second);
            let e1 = after_hit(e, o2);
            let ev2 = Event::PlayerAttack { enemy: e1, kind: o2, damage: damage_of(o2) as i32 };
            if e1.current_hp == 0 {
                seq![ev1, ev2]
            } else {
                seq![ev1, ev2] + tick_events(p1, p.status_effect)
            }
        }
    }
}

/// Experience paid out for defeating this enemy: a deterministic function
/// of its class and level (through its maximum hit points). A balancing
/// parameter.
pub open spec fn xp_reward_spec(e: Character) -> int {
    e.max_hp + 10 * e.level
}

/// Gold paid out for defeating this enemy: deterministic in its level. A
/// balancing parameter.
pub open spec fn gold_reward_spec(e: Character) -> int {
    10 * (e.level + 1)
}

/// Gold demanded by this enemy to let the player walk away. A balancing
/// parameter.
pub open spec fn bribe_cost_spec(e: Character) -> int {
    5 * (e.level + 1)
}

/// Victory rewards depend only on the defeated enemy's class and level:
/// two well-formed enemies of the same class and level always pay the
/// same experience and gold.
pub proof fn lemma_reward_deterministic(e1: Character, e2: Character)
    requires
        e1.wf(),
        e2.wf(),
        e1.class == e2.class,
        e1.level == e2.level,
    ensures
        xp_reward_spec(e1) == xp_reward_spec(e2),
        gold_reward_spec(e1) == gold_reward_spec(e2),
{
}

/// A requested flee whose die succeeds ends the round immediately: the
/// terminal state is `PlayerFled` and neither character is touched,
/// whatever the other dice or the bribe intent say.
pub proof fn lemma_flee_success_is_immediate(
    p: Character,
    e: Character,
    bribe: bool,
    gold: int,
    rolls: RoundRolls,
)
    requires
        rolls.flee < flee_chance(p.speed as int, e.speed as int),
    ensures
        round_model(p, e, true, bribe, gold, rolls) == (p, e, BattleState::PlayerFled),
{
}

/// One attack outcome never heals: the defender after a hit is still
/// well-formed, has no more hit points than before, and keeps its
/// identity (class, level, experience, stats, equipment).
pub proof fn lemma_attack_step(att: Character, def: Character, r: AttackRolls)
    requires
        att.wf(),
        def.wf(),
    ensures
        ({
            let d1 = after_hit(def, outcome_spec(att, def, r));
            &&& d1.wf()
            &&& d1.current_hp <= def.current_hp
            &&& d1.class == def.class
            &&& d1.level == def.level
            &&& d1.max_hp == def.max_hp
            &&& d1.xp == def.xp
            &&& d1.speed == def.speed
            &&& d1.sword == def.sword
            &&& d1.shield == def.shield
        }),
{
    lemma_character_bounds(att);
    lemma_character_bounds(def);
}

/// A status effect persists across a round that neither heals nor kills
/// its holder: when the enemy's class cannot inflict a new effect, the
/// player's effect and its magnitude are unchanged after the round, and
/// the player lost at least the tick magnitude on top of any attack
/// damage.
pub proof fn lemma_status_effect_persists(
    p: Character,
    e: Character,
    rolls: RoundRolls,
    kind: StatusEffect,
    m: i32,
)
    requires
        p.wf(),
        e.wf(),
        rolls.wf(),
        p.status_effect == Some((kind, m)),
        e.class.inflicts is None,
        round_model(p, e, false, false, 0, rolls).2 is Ongoing,
    ensures
        round_model(p, e, false, false, 0, rolls).0.status_effect == Some((kind, m)),
        round_model(p, e, false, false, 0, rolls).0.current_hp <= p.current_hp - m,
        exchange_events(p, e, rolls).last() == (Event::StatusEffectDamage { damage: m }),
{
    lemma_character_bounds(p);
    lemma_character_bounds(e);
    if p.speed >= e.speed {
        lemma_attack_step(p, e, rolls.first);
        let e1 = after_hit(e, outcome_spec(p, e, rolls.first));
        lemma_attack_step(e1, p, rolls.second);
    } else {
        lemma_attack_step(e, p, rolls.first);
        let p1 = after_hit(p, outcome_spec(e, p, rolls.first));
        lemma_attack_step(p1, e, rolls.second);
    }
}

/// Events a round may append: attack reports, status-effect damage and
/// flee or bribe attempts — never a terminal battle report.
pub open spec fn is_round_event(ev: Event) -> bool {
    match ev {
        Event::PlayerAttack { .. } => true,
        Event::EnemyAttack { .. } => true,
        Event::StatusEffectDamage { .. } => true,
        Event::Bribe { .. } => true,
        Event::RunAway { .. } => true,
        _ => false,
    }
}

/// Loop measure of a battle: positive while ongoing and shrinking with
/// the total hit points left, zero once terminal.
pub open spec fn battle_measure(state: BattleState, p: Character, e: Character) -> int {
    if state is Ongoing {
        p.current_hp + e.current_hp + 1
    } else {
        0
    }
}

/// Flee chance as executable code.
fn flee_chance_of(p_speed: i32, e_speed: i32) -> (r: u32)
    requires
        0 <= p_speed <= 1_001_000,
        0 <= e_speed <= 1_001_000,
    ensures
        r == flee_chance(p_speed as int, e_speed as int),
{
    let c = 50 + 5 * (p_speed - e_speed);
    if c < 10 {
        10
    } else if c > 90 {
        90
    } else {
        c as u32
    }
}

/// Miss chance as executable code.
fn miss_chance_of(att_speed: i32, def_speed: i32) -> (r: u32)
    requires
        0 <= att_speed <= 1_001_000,
        0 <= def_speed <= 1_001_000,
    ensures
        r == miss_chance(att_speed as int, def_speed as int),
{
    if def_speed > att_speed {
        let c = 2 * (def_speed - att_speed);
        if c > 50 {
            50
        } else {
            c as u32
        }
    } else {
        0
    }
}

/// Regular hit damage as executable code.
fn base_damage(att: &Character, def: &Character) -> (r: i32)
    requires
        att.wf(),
        def.wf(),
    ensures
        r == base_damage_spec(*att, *def),
        1 <= r <= 1_002_000,
{
    proof {
        lemma_character_bounds(*att);
        lemma_character_bounds(*def);
    }
    let d = att.attack() - def.deffense();
    if d < 1 {
        1
    } else {
        d
    }
}

/// The damage carried by an outcome, as executable code.
pub fn outcome_damage(o: AttackOutcome) -> (r: i32)
    ensures
        r == damage_of(o),
{
    match o {
        AttackOutcome::Regular(d) => d,
        AttackOutcome::Critical(d) => d,
        AttackOutcome::Effect(_, d) => d,
        AttackOutcome::Miss => 0,
    }
}

/// Experience reward for defeating this enemy.
pub fn xp_reward(enemy: &Character) -> (r: i32)
    requires
        enemy.wf(),
    ensures
        r == xp_reward_spec(*enemy),
        0 <= r <= 2_000_000,
{
    proof {
        lemma_character_bounds(*enemy);
    }
    enemy.max_hp + 10 * enemy.level
}

/// Gold reward for defeating this enemy.
pub fn gold_reward(enemy: &Character) -> (r: i32)
    requires
        enemy.wf(),
    ensures
        r == gold_reward_spec(*enemy),
        0 <= r <= 20_000,
{
    10 * (enemy.level + 1)
}

/// Gold this enemy demands for letting the player walk away.
pub fn bribe_cost(enemy: &Character) -> (r: i32)
    requires
        enemy.wf(),
    ensures
        r == bribe_cost_spec(*enemy),
        0 <= r <= 10_000,
{
    5 * (enemy.level + 1)
}

/// Resolve one attacking turn: classify the outcome from the dice and
/// apply its damage — and any inflicted status effect — to the defender.
pub fn attack(attacker: Character, defender: &mut Character, rolls: AttackRolls) -> (o:
    AttackOutcome)
    requires
        attacker.wf(),
        old(defender).wf(),
        old(defender).current_hp > 0,
        rolls.wf(),
    ensures
        o == outcome_spec(attacker, *old(defender), rolls),
        *final(defender) == after_hit(*old(defender), o),
        final(defender).wf(),
{
    proof {
        lemma_character_bounds(attacker);
        lemma_character_bounds(*old(defender));
    }
    let mc = miss_chance_of(attacker.speed, defender.speed);
    if rolls.miss < mc {
        return AttackOutcome::Miss;
    }
    let inflicts = attacker.class.inflicts;
    match inflicts {
        Some((kind, m)) => {
            if rolls.effect < EFFECT_CHANCE {
                let dmg = m as i32;
                defender.apply_status_effect(kind, dmg);
                defender.receive_damage(dmg);
                AttackOutcome::Effect(kind, dmg)
            } else if rolls.crit < CRIT_CHANCE {
                let dmg = 2 * base_damage(&attacker, defender);
                defender.receive_damage(dmg);
                AttackOutcome::Critical(dmg)
            } else {
                let dmg = base_damage(&attacker, defender);
                defender.receive_damage(dmg);
                AttackOutcome::Regular(dmg)
            }
        },
        None => {
            if rolls.crit < CRIT_CHANCE {
                let dmg = 2 * base_damage(&attacker, defender);
                defender.receive_damage(dmg);
                AttackOutcome::Critical(dmg)
            } else {
                let dmg = base_damage(&attacker, defender);
                defender.receive_damage(dmg);
                AttackOutcome::Regular(dmg)
            }
        },
    }
}

/// Draw the three dice of one attacking turn.
fn draw_attack_rolls() -> (r: AttackRolls)
    ensures
        r.wf(),
{
    AttackRolls {
        miss: randomizer::random_below(100),
        crit: randomizer::random_below(100),
        effect: randomizer::random_below(100),
    }
}

/// Draw all dice of one battle round.
fn draw_round_rolls() -> (r: RoundRolls)
    ensures
        r.wf(),
{
    RoundRolls {
        flee: randomizer::random_below(100),
        first: draw_attack_rolls(),
        second: draw_attack_rolls(),
    }
}

/// Run one battle round against the round model: flee check, bribe
/// check, attack exchange in speed order, status-effect ticks, death
/// resolution. Appends this round's events; a successfully fled round
/// appends exactly the one successful flee report and no damage events.
#[verifier::rlimit(60)]
pub fn battle_round(
    player: &mut Character,
    enemy: &mut Character,
    run: bool,
    bribe_intent: bool,
    gold: i32,
    rolls: RoundRolls,
    events: &mut Vec<Event>,
) -> (r: BattleState)
    requires
        old(player).wf(),
        old(enemy).wf(),
        old(player).current_hp > 0,
        old(enemy).current_hp > 0,
        rolls.wf(),
    ensures
        final(player).wf(),
        final(enemy).wf(),
        ({
            let (p1, e1, st) = round_model(
                *old(player),
                *old(enemy),
                run,
                bribe_intent,
                gold as int,
                rolls,
            );
            *final(player) == p1 && *final(enemy) == e1 && r == st
        }),
        final(player).current_hp <= old(player).current_hp,
        final(enemy).current_hp <= old(enemy).current_hp,
        r is Ongoing ==> final(player).current_hp > 0 && final(enemy).current_hp > 0
            && final(player).current_hp + final(enemy).current_hp < old(player).current_hp + old(
            enemy).current_hp,
        r is PlayerWon ==> final(enemy).current_hp == 0,
        r is PlayerDied ==> final(player).current_hp == 0,
        (r is PlayerFled || r is PlayerBribed) ==> *final(player) == *old(player) && *final(enemy)
            == *old(enemy),
        r is PlayerBribed ==> gold >= bribe_cost_spec(*old(enemy)),
        final(player).class == old(player).class,
        final(player).level == old(player).level,
        final(player).max_hp == old(player).max_hp,
        final(player).xp == old(player).xp,
        final(player).speed == old(player).speed,
        final(player).sword == old(player).sword,
        final(player).shield == old(player).shield,
        final(enemy).class == old(enemy).class,
        final(enemy).level == old(enemy).level,
        final(enemy).max_hp == old(enemy).max_hp,
        final(enemy).xp == old(enemy).xp,
        final(enemy).speed == old(enemy).speed,
        final(enemy).sword == old(enemy).sword,
        final(enemy).shield == old(enemy).shield,
        final(events)@.len() >= old(events)@.len(),
        forall|k: int| 0 <= k < old(events)@.len() ==> final(events)@[k] == old(events)@[k],
        forall|k: int|
            old(events)@.len() <= k < final(events)@.len() ==> is_round_event(
                #[trigger] final(events)@[k],
            ),
        r is PlayerFled ==> final(events)@ == old(events)@.push(
            Event::RunAway { success: true },
        ),
        r is PlayerBribed ==> final(events)@ == (if run {
            old(events)@.push(Event::RunAway { success: false })
        } else {
            old(events)@
        }).push((Event::Bribe { cost: bribe_cost_spec(*old(enemy)) as i32 })),
        r is PlayerFled ==> run,
        r is PlayerBribed ==> bribe_intent,
        !(r is PlayerFled) && !(r is PlayerBribed) ==> final(events)@ == old(events)@
            + failed_attempt_events(run, bribe_intent) + exchange_events(
            *old(player),
            *old(enemy),
            rolls,
        ),
{
    proof {
        lemma_character_bounds(*old(player));
        lemma_character_bounds(*old(enemy));
    }
    if run {
        let chance = flee_chance_of(player.speed, enemy.speed);
        if rolls.flee < chance {
            events.push(Event::RunAway { success: true });
            return BattleState::PlayerFled;
        }
        events.push(Event::RunAway { success: false });
    }
    if bribe_intent {
        let cost = bribe_cost(enemy);
        if gold >= cost {
            events.push(Event::Bribe { cost });
            return BattleState::PlayerBribed;
        }
        events.push(Event::Bribe { cost: 0 });
    }
    let ghost pre = events@;
    proof {
        assert(pre =~= old(events)@ + failed_attempt_events(run, bribe_intent));
    }
    let p_pending = player.status_effect;
    let e_pending = enemy.status_effect;
    if player.speed >= enemy.speed {
        let o1 = attack(*player, enemy, rolls.first);
        let d1 = outcome_damage(o1);
        events.push(Event::PlayerAttack { enemy: *enemy, kind: o1, damage: d1 });
        if enemy.current_hp == 0 {
            proof {
            assert(events@ =~= pre + exchange_events(*old(player), *old(enemy), rolls));
            assert(events@ =~= old(events)@ + failed_attempt_events(run, bribe_intent)
                + exchange_events(*old(player), *old(enemy), rolls));
            }
            return BattleState::PlayerWon;
        }
        let o2 = attack(*enemy, player, rolls.second);
        let d2 = outcome_damage(o2);
        events.push(Event::EnemyAttack { kind: o2, damage: d2 });
        if player.current_hp == 0 {
            proof {
            assert(events@ =~= pre + exchange_events(*old(player), *old(enemy), rolls));
            assert(events@ =~= old(events)@ + failed_attempt_events(run, bribe_intent)
                + exchange_events(*old(player), *old(enemy), rolls));
            }
            return BattleState::PlayerDied;
        }
    } else {
        let o1 = attack(*enemy, player, rolls.first);
        let d1 = outcome_damage(o1);
        events.push(Event::EnemyAttack { kind: o1, damage: d1 });
        if player.current_hp == 0 {
            proof {
            assert(events@ =~= pre + exchange_events(*old(player), *old(enemy), rolls));
            assert(events@ =~= old(events)@ + failed_attempt_events(run, bribe_intent)
                + exchange_events(*old(player), *old(enemy), rolls));
            }
            return BattleState::PlayerDied;
        }
        let o2 = attack(*player, enemy, rolls.second);
        let d2 = outcome_damage(o2);
        events.push(Event::PlayerAttack { enemy: *enemy, kind: o2, damage: d2 });
        if enemy.current_hp == 0 {
            proof {
            assert(events@ =~= pre + exchange_events(*old(player), *old(enemy), rolls));
            assert(events@ =~= old(events)@ + failed_attempt_events(run, bribe_intent)
                + exchange_events(*old(player), *old(enemy), rolls));
            }
            return BattleState::PlayerWon;
        }
    }
    match p_pending {
        Some((_, m)) => {
            let before = player.current_hp;
            player.receive_damage(m);
            events.push(Event::StatusEffectDamage { damage: before - player.current_hp });
        },
        None => {},
    }
    match e_pending {
        Some((_, m)) => {
            enemy.receive_damage(m);
        },
        None => {},
    }
    proof {
        assert(events@ =~= pre + exchange_events(*old(player), *old(enemy), rolls));
        assert(events@ =~= old(events)@ + failed_attempt_events(run, bribe_intent)
            + exchange_events(*old(player), *old(enemy), rolls));
    }
    if enemy.current_hp == 0 {
        BattleState::PlayerWon
    } else if player.current_hp == 0 {
        BattleState::PlayerDied
    } else {
        BattleState::Ongoing
    }
}

/// Resolve a whole battle to a terminal state: rounds are played until
/// one side falls, the player flees, or the player bribes the enemy.
/// On victory the deterministic experience and gold rewards are paid
/// out, level-ups are applied, and one `BattleWon` event closes the
/// sequence; on death one `BattleLost` event does. A bribe deducts the
/// enemy's price from the wallet. The event sequence opens with the
/// enemy's appearance.
pub fn battle(
    player: &mut Character,
    enemy: &mut Character,
    run: bool,
    bribe_intent: bool,
    gold: &mut i32,
) -> (r: (BattleState, Vec<Event>))
    requires
        old(player).wf(),
        old(enemy).wf(),
        old(player).current_hp > 0,
        old(enemy).current_hp > 0,
        0 <= *old(gold) <= 1_000_000_000,
    ensures
        final(player).wf(),
        final(enemy).wf(),
        !(r.0 is Ongoing),
        !run ==> !(r.0 is PlayerFled),
        !bribe_intent ==> !(r.0 is PlayerBribed),
        r.0 is PlayerWon ==> final(enemy).current_hp == 0,
        r.0 is PlayerDied ==> final(player).current_hp == 0,
        (r.0 is PlayerFled || r.0 is PlayerBribed) ==> final(player).current_hp > 0
            && final(enemy).current_hp > 0,
        final(player).class == old(player).class,
        final(player).sword == old(player).sword,
        final(player).shield == old(player).shield,
        final(player).current_hp <= old(player).current_hp,
        final(enemy).class == old(enemy).class,
        final(enemy).level == old(enemy).level,
        final(enemy).xp == old(enemy).xp,
        final(enemy).max_hp == old(enemy).max_hp,
        r.0 is PlayerWon ==> final(player).xp == (if old(player).xp + xp_reward_spec(*old(enemy))
            <= XP_CAP {
            old(player).xp + xp_reward_spec(*old(enemy))
        } else {
            XP_CAP as int
        }),
        r.0 is PlayerWon ==> final(player).level == level_after(
            old(player).level as int,
            final(player).xp as int,
        ),
        r.0 is PlayerWon ==> *final(gold) == *old(gold) + gold_reward_spec(*old(enemy)),
        !(r.0 is PlayerWon) ==> final(player).xp == old(player).xp
            && final(player).level == old(player).level,
        r.0 is PlayerBribed ==> *final(gold) == *old(gold) - bribe_cost_spec(*old(enemy))
            && *old(gold) >= bribe_cost_spec(*old(enemy)),
        (r.0 is PlayerFled || r.0 is PlayerDied) ==> *final(gold) == *old(gold),
        final(player).xp >= old(player).xp,
        final(player).level >= old(player).level,
        r.1@.len() >= 1,
        r.1@[0] == (Event::EnemyAppears { enemy: *old(enemy) }),
        r.0 is PlayerWon ==> r.1@.last() == (Event::BattleWon {
            xp: xp_reward_spec(*old(enemy)) as i32,
            levels_up: (final(player).level - old(player).level) as i32,
            gold: gold_reward_spec(*old(enemy)) as i32,
        }),
        forall|k: int|
            0 <= k < r.1@.len() ==> ((#[trigger] r.1@[k]) is BattleWon ==> r.0 is PlayerWon && k
                == r.1@.len() - 1),
        r.0 is PlayerFled ==> r.1@.last() == (Event::RunAway { success: true }),
        r.0 is PlayerDied ==> r.1@.last() is BattleLost,
        forall|k: int|
            0 <= k < r.1@.len() ==> ((#[trigger] r.1@[k]) is BattleLost ==> r.0 is PlayerDied && k
                == r.1@.len() - 1),
{
    let funds: i32 = *gold;
    let mut events: Vec<Event> = Vec::new();
    events.push(Event::EnemyAppears { enemy: *enemy });
    let mut state = BattleState::Ongoing;
    while state == BattleState::Ongoing
        invariant
            player.wf(),
            enemy.wf(),
            funds == *gold,
            0 <= funds <= 1_000_000_000,
            state is Ongoing ==> player.current_hp > 0 && enemy.current_hp > 0,
            state is PlayerWon ==> enemy.current_hp == 0,
            state is PlayerDied ==> player.current_hp == 0,
            (state is PlayerFled || state is PlayerBribed) ==> player.current_hp > 0
                && enemy.current_hp > 0,
            state is PlayerBribed ==> funds >= bribe_cost_spec(*enemy),
            state is PlayerFled ==> run,
            state is PlayerBribed ==> bribe_intent,
            player.class == old(player).class,
            player.level == old(player).level,
            player.max_hp == old(player).max_hp,
            player.xp == old(player).xp,
            player.speed == old(player).speed,
            player.sword == old(player).sword,
            player.shield == old(player).shield,
            player.current_hp <= old(player).current_hp,
            enemy.class == old(enemy).class,
            enemy.level == old(enemy).level,
            enemy.max_hp == old(enemy).max_hp,
            enemy.xp == old(enemy).xp,
            enemy.speed == old(enemy).speed,
            enemy.sword == old(enemy).sword,
            enemy.shield == old(enemy).shield,
            events@.len() >= 1,
            events@[0] == (Event::EnemyAppears { enemy: *old(enemy) }),
            state is PlayerFled ==> events@.last() == (Event::RunAway { success: true }),
            forall|k: int|
                0 <= k < events@.len() ==> !((#[trigger] events@[k]) is BattleWon) && !(events@[k]
                    is BattleLost),
        decreases battle_measure(state, *player, *enemy),
    {
        let rolls = draw_round_rolls();
        state = battle_round(player, enemy, run, bribe_intent, funds, rolls, &mut events);
    }
    match state {
        BattleState::PlayerWon => {
            let xp = xp_reward(enemy);
            let g = gold_reward(enemy);
            let levels = player.add_experience(xp);
            *gold = *gold + g;
            events.push(Event::BattleWon { xp, levels_up: levels, gold: g });
        },
        BattleState::PlayerDied => {
            events.push(Event::BattleLost);
        },
        BattleState::PlayerBribed => {
            let cost = bribe_cost(enemy);
            *gold = *gold - cost;
        },
        _ => {},
    }
    (state, events)
}

} // verus!
