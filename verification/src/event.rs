//! Discrete events emitted by the core for rendering and logging
//! collaborators: an ordered sequence per battle or action.

use crate::battle::AttackOutcome;
use crate::character::Character;
use vstd::prelude::*;

verus! {

/// One observable step of the game. Battles emit the first group
/// (appearance, attacks, status damage, terminal results, bribe and flee
/// attempts); the remaining variants are produced by the surrounding
/// exploration, healing and shopping actions and are carried here so one
/// renderer can dispatch on all of them.
#[derive(Clone, Debug)]
pub enum Event {
    EnemyAppears { enemy: Character },
    PlayerAttack { enemy: Character, kind: AttackOutcome, damage: i32 },
    EnemyAttack { kind: AttackOutcome, damage: i32 },
    StatusEffectDamage { damage: i32 },
    BattleWon { xp: i32, levels_up: i32, gold: i32 },
    BattleLost,
    ChestFound { items: Vec<String>, gold: i32 },
    TombstoneFound { items: Vec<String>, gold: i32 },
    Bribe { cost: i32 },
    RunAway { success: bool },
    Heal { item: Option<String>, recovered: i32, healed: bool },
    LevelUp { count: i32 },
    ItemBought { item: String },
    ItemUsed { item: String },
}

} // verus!
