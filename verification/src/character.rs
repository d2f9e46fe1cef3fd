//! Combat actors: the status-effect kinds and the mutable `Character`
//! instantiated from a class at a given level. A character's hit points
//! are always kept within `[0, max_hp]`, and reaching zero is the
//! terminal dead state.

pub mod class;

use crate::character::class::Class;
use crate::character::class::Stat;
use crate::character::class::Tier;
use crate::character::class::lemma_stat_at_monotonic;
use vstd::prelude::*;

verus! {

/// A damage-over-time condition. The kind carries no state of its own;
/// the per-tick magnitude is recorded at infliction time.
#[derive(Clone, Copy, Debug, PartialEq, Eq, Structural)]
pub enum StatusEffect {
    Burning,
    Poisoned,
}

/// Levels are capped: past this point experience still accrues (up to
/// `XP_CAP`) but no further level-ups take place. Both caps are balancing
/// parameters; they also keep every stat and reward computation well
/// inside `i32` range.
pub const MAX_LEVEL: i32 = 1000;

/// The most experience a character can accumulate: the threshold of the
/// final level, so the cap is only felt once no level-up can follow.
pub const XP_CAP: i32 = 30_000_000;

/// Experience needed to advance past `level`: a strictly increasing
/// quadratic curve (chosen as a balancing parameter and used consistently
/// across the whole system).
pub open spec fn xp_for_next_spec(level: int) -> int {
    30 * level * level
}

/// The experience curve is strictly increasing in the level, for all
/// positive levels.
pub proof fn lemma_xp_for_next_increasing(l1: int, l2: int)
    requires
        1 <= l1 < l2,
    ensures
        xp_for_next_spec(l1) < xp_for_next_spec(l2),
{
    assert(30 * l1 * l1 < 30 * l2 * l2) by (nonlinear_arith)
        requires
            1 <= l1 < l2,
    ;
}

/// The level reached after repeatedly advancing while the accumulated
/// experience meets the next threshold, never past `MAX_LEVEL`.
pub open spec fn level_after(level: int, xp: int) -> int
    decreases MAX_LEVEL - level,
{
    if level < MAX_LEVEL && xp >= xp_for_next_spec(level) {
        level_after(level + 1, xp)
    } else {
        level
    }
}

/// Hit points left after taking `damage`, clamped at zero.
pub open spec fn hp_minus(hp: int, damage: int) -> int {
    if hp >= damage {
        hp - damage
    } else {
        0
    }
}

/// A mutable combat actor derived from an immutable class at a level.
/// `max_hp` and `speed` are the class stats evaluated at the level;
/// `current_hp` is always in `[0, max_hp]`; the optional sword and shield
/// carry flat attack and defense bonuses; the active status effect
/// remembers the per-tick magnitude recorded when it was inflicted.
#[derive(Clone, Copy, Debug)]
pub struct Character {
    pub class: Class,
    pub level: i32,
    pub max_hp: i32,
    pub current_hp: i32,
    pub xp: i32,
    pub speed: i32,
    pub sword: Option<i32>,
    pub shield: Option<i32>,
    pub status_effect: Option<(StatusEffect, i32)>,
}

impl Character {
    /// The character invariant: a well-formed class, a bounded level,
    /// derived stats consistent with the class at that level, hit points
    /// within bounds, capped experience, bounded equipment bonuses, and a
    /// positive bounded magnitude on any active status effect.
    pub open spec fn wf(self) -> bool {
        &&& self.class.wf()
        &&& 0 <= self.level <= MAX_LEVEL
        &&& self.max_hp == self.class.hp.at_spec(self.level as int)
        &&& 0 <= self.current_hp <= self.max_hp
        &&& 0 <= self.xp <= XP_CAP
        &&& self.speed == self.class.speed.at_spec(self.level as int)
        &&& match self.sword {
            Some(b) => 0 <= b <= 1000,
            None => true,
        }
        &&& match self.shield {
            Some(b) => 0 <= b <= 1000,
            None => true,
        }
        &&& match self.status_effect {
            Some((_, m)) => 1 <= m <= 1000,
            None => true,
        }
    }

    /// Whether this actor is the player: the hero class is reserved for
    /// the player and never appears in enemy pools.
    pub open spec fn is_player_spec(self) -> bool {
        self.class.tier == Tier::Hero
    }

    /// Attack strength: the strength stat at the current level plus any
    /// equipped sword bonus.
    pub open spec fn attack_spec(self) -> int {
        self.class.strength.at_spec(self.level as int) + match self.sword {
            Some(b) => b as int,
            None => 0,
        }
    }

    /// Damage soaked from each hit: the equipped shield bonus, zero
    /// without one.
    pub open spec fn deffense_spec(self) -> int {
        match self.shield {
            Some(b) => b as int,
            None => 0,
        }
    }

    /// Instantiate a live actor of the given class at the given level,
    /// at full hit points, with no experience, equipment or status.
    pub fn new(class: Class, level: i32) -> (c: Character)
        requires
            class.wf(),
            0 <= level <= MAX_LEVEL,
        ensures
            c.wf(),
            c.class == class,
            c.level == level,
            c.current_hp == c.max_hp,
            c.xp == 0,
            c.sword is None,
            c.shield is None,
            c.status_effect is None,
    {
        let max_hp = class.hp.at(level);
        let speed = class.speed.at(level);
        Character {
            class,
            level,
            max_hp,
            current_hp: max_hp,
            xp: 0,
            speed,
            sword: None,
            shield: None,
            status_effect: None,
        }
    }

    /// The player's starting character: a level-one hero.
    pub fn player() -> (c: Character)
        ensures
            c.wf(),
            c.is_player_spec(),
            crate::character::class::class_is(
                c.class,
                "hero"@,
                Stat(30, 7),
                Stat(12, 3),
                Stat(11, 2),
                None,
                Tier::Hero,
            ),
            c.level == 1,
            c.current_hp == c.max_hp,
            c.xp == 0,
            c.sword is None,
            c.shield is None,
            c.status_effect is None,
    {
        Character::new(Class::hero(), 1)
    }

    pub fn name(&self) -> (r: &'static str)
        ensures
            r == self.class.name,
    {
        self.class.name
    }

    pub fn is_player(&self) -> (r: bool)
        ensures
            r == self.is_player_spec(),
    {
        match self.class.tier {
            Tier::Hero => true,
            _ => false,
        }
    }

    pub fn attack(&self) -> (r: i32)
        requires
            self.wf(),
        ensures
            r == self.attack_spec(),
    {
        proof {
            lemma_character_bounds(*self);
        }
        let bonus = match self.sword {
            Some(b) => b,
            None => 0,
        };
        self.class.strength.at(self.level) + bonus
    }

    pub fn deffense(&self) -> (r: i32)
        requires
            self.wf(),
        ensures
            r == self.deffense_spec(),
    {
        match self.shield {
            Some(b) => b,
            None => 0,
        }
    }

    /// Experience needed to reach the next level from the current one.
    pub fn xp_for_next(&self) -> (r: i32)
        requires
            self.wf(),
        ensures
            r == xp_for_next_spec(self.level as int),
    {
        proof {
            assert(0 <= 30 * self.level * self.level <= 30_000_000) by (nonlinear_arith)
                requires
                    0 <= self.level <= 1000,
            ;
        }
        30 * self.level * self.level
    }

    /// Take damage: hit points drop by `damage`, clamped at zero, and
    /// nothing else changes — except that death clears any status effect,
    /// which is irrelevant thereafter.
    pub fn receive_damage(&mut self, damage: i32)
        requires
            old(self).wf(),
            damage >= 0,
        ensures
            final(self).wf(),
            final(self).current_hp == hp_minus(old(self).current_hp as int, damage as int),
            final(self).status_effect == (if final(self).current_hp == 0 {
                None::<(StatusEffect, i32)>
            } else {
                old(self).status_effect
            }),
            final(self).class == old(self).class,
            final(self).level == old(self).level,
            final(self).max_hp == old(self).max_hp,
            final(self).xp == old(self).xp,
            final(self).speed == old(self).speed,
            final(self).sword == old(self).sword,
            final(self).shield == old(self).shield,
    {
        if self.current_hp >= damage {
            self.current_hp = self.current_hp - damage;
        } else {
            self.current_hp = 0;
        }
        if self.current_hp == 0 {
            self.status_effect = None;
        }
    }

    /// Overwrite the active status effect (no stacking: at most one at a
    /// time) with the given kind and per-tick magnitude.
    pub fn apply_status_effect(&mut self, kind: StatusEffect, magnitude: i32)
        requires
            old(self).wf(),
            1 <= magnitude <= 1000,
        ensures
            final(self).wf(),
            final(self).status_effect == Some((kind, magnitude)),
            final(self).class == old(self).class,
            final(self).level == old(self).level,
            final(self).max_hp == old(self).max_hp,
            final(self).current_hp == old(self).current_hp,
            final(self).xp == old(self).xp,
            final(self).speed == old(self).speed,
            final(self).sword == old(self).sword,
            final(self).shield == old(self).shield,
    {
        self.status_effect = Some((kind, magnitude));
    }

    /// Apply one damage-over-time tick: while a status effect is active
    /// its holder takes the magnitude recorded at infliction time as
    /// damage. Returns the hit points actually lost.
    pub fn tick_status_effect(&mut self) -> (dealt: i32)
        requires
            old(self).wf(),
        ensures
            final(self).wf(),
            match old(self).status_effect {
                Some((_, m)) => final(self).current_hp == hp_minus(
                    old(self).current_hp as int,
                    m as int,
                ) && dealt == old(self).current_hp - final(self).current_hp,
                None => *final(self) == *old(self) && dealt == 0,
            },
            final(self).status_effect == (if final(self).current_hp == 0 {
                None::<(StatusEffect, i32)>
            } else {
                old(self).status_effect
            }),
            final(self).class == old(self).class,
            final(self).level == old(self).level,
            final(self).max_hp == old(self).max_hp,
            final(self).xp == old(self).xp,
            final(self).speed == old(self).speed,
            final(self).sword == old(self).sword,
            final(self).shield == old(self).shield,
    {
        match self.status_effect {
            Some((_, m)) => {
                let before = self.current_hp;
                self.receive_damage(m);
                before - self.current_hp
            },
            None => 0,
        }
    }

    /// Rest fully: hit points return to the maximum and any status effect
    /// is cleared. Returns the hit points recovered and whether a status
    /// effect was healed.
    pub fn heal(&mut self) -> (r: (i32, bool))
        requires
            old(self).wf(),
        ensures
            final(self).wf(),
            final(self).current_hp == final(self).max_hp,
            final(self).status_effect is None,
            r.0 == old(self).max_hp - old(self).current_hp,
            r.1 == (old(self).status_effect is Some),
            final(self).class == old(self).class,
            final(self).level == old(self).level,
            final(self).max_hp == old(self).max_hp,
            final(self).xp == old(self).xp,
            final(self).speed == old(self).speed,
            final(self).sword == old(self).sword,
            final(self).shield == old(self).shield,
    {
        let recovered = self.max_hp - self.current_hp;
        let healed = match self.status_effect {
            Some(_) => true,
            None => false,
        };
        self.current_hp = self.max_hp;
        self.status_effect = None;
        (recovered, healed)
    }

    /// Gain experience and level up while the accumulated total meets the
    /// next threshold. Experience is monotonically non-decreasing and
    /// capped at `XP_CAP`; each level-up recomputes the derived stats
    /// from the new level, and current hit points are *not* refilled —
    /// accumulated damage is carried through level-ups. Returns how many
    /// levels were gained.
    pub fn add_experience(&mut self, gained: i32) -> (levels_up: i32)
        requires
            old(self).wf(),
            0 <= gained <= 2_000_000,
        ensures
            final(self).wf(),
            final(self).xp == (if old(self).xp + gained <= XP_CAP {
                old(self).xp + gained
            } else {
                XP_CAP as int
            }),
            final(self).xp >= old(self).xp,
            final(self).level == level_after(old(self).level as int, final(self).xp as int),
            final(self).level >= old(self).level,
            levels_up == final(self).level - old(self).level,
            final(self).current_hp == old(self).current_hp,
            final(self).class == old(self).class,
            final(self).status_effect == old(self).status_effect,
            final(self).sword == old(self).sword,
            final(self).shield == old(self).shield,
    {
        let start_level = self.level;
        if self.xp + gained <= XP_CAP {
            self.xp = self.xp + gained;
        } else {
            self.xp = XP_CAP;
        }
        while self.level < MAX_LEVEL && self.xp >= self.xp_for_next()
            invariant
                self.wf(),
                self.xp == (if old(self).xp + gained <= XP_CAP {
                    old(self).xp + gained
                } else {
                    XP_CAP as int
                }),
                start_level == old(self).level,
                self.level >= start_level,
                level_after(old(self).level as int, self.xp as int) == level_after(
                    self.level as int,
                    self.xp as int,
                ),
                self.current_hp == old(self).current_hp,
                self.class == old(self).class,
                self.status_effect == old(self).status_effect,
                self.sword == old(self).sword,
                self.shield == old(self).shield,
            decreases MAX_LEVEL - self.level,
        {
            proof {
                lemma_stat_at_monotonic(self.class.hp, self.level as int, self.level as int + 1);
            }
            self.level = self.level + 1;
            self.max_hp = self.class.hp.at(self.level);
            self.speed = self.class.speed.at(self.level);
        }
        self.level - start_level
    }
}

/// Every well-formed character has at least one maximum hit point, and
/// all derived quantities stay in comfortable `i32` range.
pub proof fn lemma_character_bounds(c: Character)
    requires
        c.wf(),
    ensures
        1 <= c.max_hp <= 1_001_000,
        0 <= c.speed <= 1_001_000,
        0 <= c.attack_spec() <= 1_002_000,
        0 <= c.deffense_spec() <= 1000,
{
    assert(0 <= c.level * c.class.hp.1 <= 1_000_000) by (nonlinear_arith)
        requires
            0 <= c.level <= 1000,
            0 <= c.class.hp.1 <= 1000,
    ;
    assert(0 <= c.level * c.class.speed.1 <= 1_000_000) by (nonlinear_arith)
        requires
            0 <= c.level <= 1000,
            0 <= c.class.speed.1 <= 1000,
    ;
    assert(0 <= c.level * c.class.strength.1 <= 1_000_000) by (nonlinear_arith)
        requires
            0 <= c.level <= 1000,
            0 <= c.class.strength.1 <= 1000,
    ;
}

} // verus!
