//! Stats and character classes: the linear growth primitive, the
//! immutable archetype definitions partitioned into rarity tiers, and
//! distance-weighted random enemy selection.

use crate::character::StatusEffect;
use crate::location::Distance;
use crate::randomizer;
use vstd::prelude::*;

verus! {

/// An attribute of a character, e.g. strength or speed: a starting value
/// and the amount gained per level.
#[derive(Clone, Copy, Debug, PartialEq, Eq, Structural)]
pub struct Stat(pub i32, pub i32);

impl Stat {
    /// The value of the stat at a given level: `base + level * increase`.
    pub open spec fn at_spec(self, level: int) -> int {
        self.0 + level * self.1
    }

    /// True when both components are small non-negative values, so that
    /// `at` cannot overflow for any bounded level.
    pub open spec fn wf(self) -> bool {
        0 <= self.0 <= 1000 && 0 <= self.1 <= 1000
    }

    pub fn base(&self) -> (r: i32)
        ensures
            r == self.0,
    {
        self.0
    }

    pub fn increase(&self) -> (r: i32)
        ensures
            r == self.1,
    {
        self.1
    }

    pub fn at(&self, level: i32) -> (r: i32)
        requires
            self.wf(),
            0 <= level <= 1000,
        ensures
            r == self.at_spec(level as int),
            r >= self.0,
    {
        proof {
            assert(0 <= level * self.1 <= 1000 * 1000) by (nonlinear_arith)
                requires
                    0 <= level <= 1000,
                    0 <= self.1 <= 1000,
            ;
        }
        self.0 + level * self.1
    }
}

/// The stat at a greater level is never smaller, since the per-level
/// increase is non-negative.
pub proof fn lemma_stat_at_monotonic(s: Stat, l1: int, l2: int)
    requires
        s.1 >= 0,
        0 <= l1 <= l2,
    ensures
        s.at_spec(l1) <= s.at_spec(l2),
{
    assert(l1 * s.1 <= l2 * s.1) by (nonlinear_arith)
        requires
            s.1 >= 0,
            l1 <= l2,
    ;
}

/// Rarity bucket of a class. Every enemy class belongs to exactly one of
/// the first three; the hero class is reserved for the player and never
/// appears in enemy pools.
#[derive(Clone, Copy, Debug, PartialEq, Eq, Structural)]
pub enum Tier {
    Hero,
    Common,
    Rare,
    Legendary,
}

/// An archetype for characters: a specific stat configuration such that
/// all instances of the class have a similar combat behavior. When
/// `inflicts` is set, attacks of this class may apply that status effect
/// with the given per-tick damage magnitude.
#[derive(Clone, Copy, Debug)]
pub struct Class {
    pub name: &'static str,
    pub hp: Stat,
    pub strength: Stat,
    pub speed: Stat,
    pub inflicts: Option<(StatusEffect, u32)>,
    pub tier: Tier,
}

impl Class {
    /// A well-formed class has bounded non-negative stats, at least one
    /// hit point at level zero, and a positive bounded effect magnitude.
    pub open spec fn wf(self) -> bool {
        &&& self.hp.wf()
        &&& self.hp.0 >= 1
        &&& self.strength.wf()
        &&& self.speed.wf()
        &&& match self.inflicts {
            Some((_, m)) => 1 <= m <= 1000,
            None => true,
        }
    }

    /// The player's archetype.
    pub fn hero() -> (c: Class)
        ensures
            c.wf(),
            c.tier == Tier::Hero,
            c.name@ == "hero"@,
            c.hp == (Stat(30, 7)),
            c.strength == (Stat(12, 3)),
            c.speed == (Stat(11, 2)),
            c.inflicts is None,
    {
        Class {
            name: "hero",
            hp: Stat(30, 7),
            strength: Stat(12, 3),
            speed: Stat(11, 2),
            inflicts: None,
            tier: Tier::Hero,
        }
    }

    /// Select one enemy class at random, with higher chance of finding
    /// difficult enemies the further from home: each class is weighted by
    /// its tier's weight for the given distance tag, and one is drawn in
    /// proportion to weight. A tier whose weight is zero at this distance
    /// can never be selected.
    pub fn random_enemy(distance: Distance) -> (c: Class)
        ensures
            c.wf(),
            catalog_enemy(c),
            c.tier != Tier::Hero,
            tier_weight(distance, c.tier) > 0,
    {
        weighted_choice(distance)
    }
}

/// The weight that every class of tier `t` receives when drawing an enemy
/// at distance `d`: common enemies dominate near home, legendary ones are
/// unreachable there and become likelier far away.
pub open spec fn tier_weight(d: Distance, t: Tier) -> u32 {
    match t {
        Tier::Hero => 0,
        Tier::Common => match d {
            Distance::Near(_) => 9,
            Distance::Mid(_) => 7,
            Distance::Far(_) => 1,
        },
        Tier::Rare => match d {
            Distance::Near(_) => 2,
            Distance::Mid(_) => 10,
            Distance::Far(_) => 6,
        },
        Tier::Legendary => match d {
            Distance::Near(_) => 0,
            Distance::Mid(_) => 1,
            Distance::Far(_) => 3,
        },
    }
}

/// Near home, a legendary enemy can never be drawn: its tier weight there
/// is zero, and only classes of positively weighted tiers are selectable.
pub proof fn lemma_near_excludes_legendary(d: Distance, t: Tier)
    requires
        d is Near,
        tier_weight(d, t) > 0,
    ensures
        t != Tier::Legendary,
        t != Tier::Hero,
{
}

/// True when the class has exactly the given field values; the name is
/// compared by its character sequence.
pub open spec fn class_is(
    c: Class,
    name: Seq<char>,
    hp: Stat,
    strength: Stat,
    speed: Stat,
    inflicts: Option<(StatusEffect, u32)>,
    tier: Tier,
) -> bool {
    &&& c.name@ == name
    &&& c.hp == hp
    &&& c.strength == strength
    &&& c.speed == speed
    &&& c.inflicts == inflicts
    &&& c.tier == tier
}

/// True when the class is one of the seventeen fixed enemy archetypes of
/// the catalog.
pub open spec fn catalog_enemy(c: Class) -> bool {
    ||| class_is(c, "rat"@, Stat(10, 3), Stat(5, 2), Stat(16, 2), None, Tier::Common)
    ||| class_is(c, "wolf"@, Stat(15, 3), Stat(8, 2), Stat(12, 2), None, Tier::Common)
    ||| class_is(
        c,
        "snake"@,
        Stat(13, 3),
        Stat(7, 2),
        Stat(6, 2),
        Some((StatusEffect::Poisoned, 5u32)),
        Tier::Common,
    )
    ||| class_is(
        c,
        "slime"@,
        Stat(80, 3),
        Stat(3, 2),
        Stat(4, 2),
        Some((StatusEffect::Poisoned, 10u32)),
        Tier::Common,
    )
    ||| class_is(
        c,
        "spider"@,
        Stat(10, 3),
        Stat(9, 2),
        Stat(12, 2),
        Some((StatusEffect::Poisoned, 20u32)),
        Tier::Common,
    )
    ||| class_is(c, "zombie"@, Stat(50, 3), Stat(8, 2), Stat(6, 2), None, Tier::Rare)
    ||| class_is(c, "orc"@, Stat(35, 3), Stat(13, 2), Stat(12, 2), None, Tier::Rare)
    ||| class_is(c, "skeleton"@, Stat(30, 3), Stat(10, 2), Stat(10, 2), None, Tier::Rare)
    ||| class_is(
        c,
        "demon"@,
        Stat(50, 3),
        Stat(10, 2),
        Stat(18, 2),
        Some((StatusEffect::Burning, 10u32)),
        Tier::Rare,
    )
    ||| class_is(c, "vampire"@, Stat(50, 3), Stat(13, 2), Stat(10, 2), None, Tier::Rare)
    ||| class_is(
        c,
        "dragon"@,
        Stat(100, 3),
        Stat(25, 2),
        Stat(8, 2),
        Some((StatusEffect::Burning, 2u32)),
        Tier::Rare,
    )
    ||| class_is(c, "golem"@, Stat(50, 3), Stat(45, 2), Stat(2, 1), None, Tier::Rare)
    ||| class_is(
        c,
        "chimera"@,
        Stat(200, 2),
        Stat(90, 2),
        Stat(16, 2),
        Some((StatusEffect::Poisoned, 3u32)),
        Tier::Legendary,
    )
    ||| class_is(
        c,
        "basilisk"@,
        Stat(150, 3),
        Stat(100, 2),
        Stat(18, 2),
        Some((StatusEffect::Poisoned, 2u32)),
        Tier::Legendary,
    )
    ||| class_is(c, "minotaur"@, Stat(100, 3), Stat(60, 2), Stat(40, 2), None, Tier::Legendary)
    ||| class_is(
        c,
        "balrog"@,
        Stat(200, 3),
        Stat(200, 2),
        Stat(14, 2),
        Some((StatusEffect::Burning, 3u32)),
        Tier::Legendary,
    )
    ||| class_is(
        c,
        "phoenix"@,
        Stat(350, 3),
        Stat(180, 2),
        Stat(28, 2),
        Some((StatusEffect::Burning, 2u32)),
        Tier::Legendary,
    )
}

/// The common tier: the weak enemies found near home.
pub fn common() -> (v: Vec<Class>)
    ensures
        v@.len() == 5,
        forall|i: int| 0 <= i < v@.len() ==> (#[trigger] v@[i]).wf() && v@[i].tier == Tier::Common,
        class_is(v@[0], "rat"@, Stat(10, 3), Stat(5, 2), Stat(16, 2), None, Tier::Common),
        class_is(
            v@[1],
            "wolf"@,
            Stat(15, 3),
            Stat(8, 2),
            Stat(12, 2),
            None,
            Tier::Common,
        ),
        class_is(
            v@[2],
            "snake"@,
            Stat(13, 3),
            Stat(7, 2),
            Stat(6, 2),
            Some((StatusEffect::Poisoned, 5u32)),
            Tier::Common,
        ),
        class_is(
            v@[3],
            "slime"@,
            Stat(80, 3),
            Stat(3, 2),
            Stat(4, 2),
            Some((StatusEffect::Poisoned, 10u32)),
            Tier::Common,
        ),
        class_is(
            v@[4],
            "spider"@,
            Stat(10, 3),
            Stat(9, 2),
            Stat(12, 2),
            Some((StatusEffect::Poisoned, 20u32)),
            Tier::Common,
        ),
{
    let mut v: Vec<Class> = Vec::new();
    v.push(Class {
        name: "rat",
        hp: Stat(10, 3),
        strength: Stat(5, 2),
        speed: Stat(16, 2),
        inflicts: None,
        tier: Tier::Common,
    });
    v.push(Class {
        name: "wolf",
        hp: Stat(15, 3),
        strength: Stat(8, 2),
        speed: Stat(12, 2),
        inflicts: None,
        tier: Tier::Common,
    });
    v.push(Class {
        name: "snake",
        hp: Stat(13, 3),
        strength: Stat(7, 2),
        speed: Stat(6, 2),
        inflicts: Some((StatusEffect::Poisoned, 5)),
        tier: Tier::Common,
    });
    v.push(Class {
        name: "slime",
        hp: Stat(80, 3),
        strength: Stat(3, 2),
        speed: Stat(4, 2),
        inflicts: Some((StatusEffect::Poisoned, 10)),
        tier: Tier::Common,
    });
    v.push(Class {
        name: "spider",
        hp: Stat(10, 3),
        strength: Stat(9, 2),
        speed: Stat(12, 2),
        inflicts: Some((StatusEffect::Poisoned, 20)),
        tier: Tier::Common,
    });
    v
}

/// The rare tier: mid-difficulty enemies.
pub fn rare() -> (v: Vec<Class>)
    ensures
        v@.len() == 7,
        forall|i: int| 0 <= i < v@.len() ==> (#[trigger] v@[i]).wf() && v@[i].tier == Tier::Rare,
        class_is(v@[0], "zombie"@, Stat(50, 3), Stat(8, 2), Stat(6, 2), None, Tier::Rare),
        class_is(v@[1], "orc"@, Stat(35, 3), Stat(13, 2), Stat(12, 2), None, Tier::Rare),
        class_is(
            v@[2],
            "skeleton"@,
            Stat(30, 3),
            Stat(10, 2),
            Stat(10, 2),
            None,
            Tier::Rare,
        ),
        class_is(
            v@[3],
            "demon"@,
            Stat(50, 3),
            Stat(10, 2),
            Stat(18, 2),
            Some((StatusEffect::Burning, 10u32)),
            Tier::Rare,
        ),
        class_is(
            v@[4],
            "vampire"@,
            Stat(50, 3),
            Stat(13, 2),
            Stat(10, 2),
            None,
            Tier::Rare,
        ),
        class_is(
            v@[5],
            "dragon"@,
            Stat(100, 3),
            Stat(25, 2),
            Stat(8, 2),
            Some((StatusEffect::Burning, 2u32)),
            Tier::Rare,
        ),
        class_is(v@[6], "golem"@, Stat(50, 3), Stat(45, 2), Stat(2, 1), None, Tier::Rare),
{
    let mut v: Vec<Class> = Vec::new();
    v.push(Class {
        name: "zombie",
        hp: Stat(50, 3),
        strength: Stat(8, 2),
        speed: Stat(6, 2),
        inflicts: None,
        tier: Tier::Rare,
    });
    v.push(Class {
        name: "orc",
        hp: Stat(35, 3),
        strength: Stat(13, 2),
        speed: Stat(12, 2),
        inflicts: None,
        tier: Tier::Rare,
    });
    v.push(Class {
        name: "skeleton",
        hp: Stat(30, 3),
        strength: Stat(10, 2),
        speed: Stat(10, 2),
        inflicts: None,
        tier: Tier::Rare,
    });
    v.push(Class {
        name: "demon",
        hp: Stat(50, 3),
        strength: Stat(10, 2),
        speed: Stat(18, 2),
        inflicts: Some((StatusEffect::Burning, 10)),
        tier: Tier::Rare,
    });
    v.push(Class {
        name: "vampire",
        hp: Stat(50, 3),
        strength: Stat(13, 2),
        speed: Stat(10, 2),
        inflicts: None,
        tier: Tier::Rare,
    });
    v.push(Class {
        name: "dragon",
        hp: Stat(100, 3),
        strength: Stat(25, 2),
        speed: Stat(8, 2),
        inflicts: Some((StatusEffect::Burning, 2)),
        tier: Tier::Rare,
    });
    v.push(Class {
        name: "golem",
        hp: Stat(50, 3),
        strength: Stat(45, 2),
        speed: Stat(2, 1),
        inflicts: None,
        tier: Tier::Rare,
    });
    v
}

/// The legendary tier: the hardest enemies, only found far from home.
pub fn legendary() -> (v: Vec<Class>)
    ensures
        v@.len() == 5,
        forall|i: int|
            0 <= i < v@.len() ==> (#[trigger] v@[i]).wf() && v@[i].tier == Tier::Legendary,
        class_is(
            v@[0],
            "chimera"@,
            Stat(200, 2),
            Stat(90, 2),
            Stat(16, 2),
            Some((StatusEffect::Poisoned, 3u32)),
            Tier::Legendary,
        ),
        class_is(
            v@[1],
            "basilisk"@,
            Stat(150, 3),
            Stat(100, 2),
            Stat(18, 2),
            Some((StatusEffect::Poisoned, 2u32)),
            Tier::Legendary,
        ),
        class_is(
            v@[2],
            "minotaur"@,
            Stat(100, 3),
            Stat(60, 2),
            Stat(40, 2),
            None,
            Tier::Legendary,
        ),
        class_is(
            v@[3],
            "balrog"@,
            Stat(200, 3),
            Stat(200, 2),
            Stat(14, 2),
            Some((StatusEffect::Burning, 3u32)),
            Tier::Legendary,
        ),
        class_is(
            v@[4],
            "phoenix"@,
            Stat(350, 3),
            Stat(180, 2),
            Stat(28, 2),
            Some((StatusEffect::Burning, 2u32)),
            Tier::Legendary,
        ),
{
    let mut v: Vec<Class> = Vec::new();
    v.push(Class {
        name: "chimera",
        hp: Stat(200, 2),
        strength: Stat(90, 2),
        speed: Stat(16, 2),
        inflicts: Some((StatusEffect::Poisoned, 3)),
        tier: Tier::Legendary,
    });
    v.push(Class {
        name: "basilisk",
        hp: Stat(150, 3),
        strength: Stat(100, 2),
        speed: Stat(18, 2),
        inflicts: Some((StatusEffect::Poisoned, 2)),
        tier: Tier::Legendary,
    });
    v.push(Class {
        name: "minotaur",
        hp: Stat(100, 3),
        strength: Stat(60, 2),
        speed: Stat(40, 2),
        inflicts: None,
        tier: Tier::Legendary,
    });
    v.push(Class {
        name: "balrog",
        hp: Stat(200, 3),
        strength: Stat(200, 2),
        speed: Stat(14, 2),
        inflicts: Some((StatusEffect::Burning, 3)),
        tier: Tier::Legendary,
    });
    v.push(Class {
        name: "phoenix",
        hp: Stat(350, 3),
        strength: Stat(180, 2),
        speed: Stat(28, 2),
        inflicts: Some((StatusEffect::Burning, 2)),
        tier: Tier::Legendary,
    });
    v
}

/// Sum of the weights of a weighted candidate list.
pub open spec fn total_weight(s: Seq<(Class, u32)>) -> int
    decreases s.len(),
{
    if s.len() == 0 {
        0
    } else {
        s[0].1 + total_weight(s.skip(1))
    }
}

/// The index selected by a roll: the first index whose cumulative weight
/// range contains the roll.
pub open spec fn pick_index(s: Seq<(Class, u32)>, roll: int) -> int
    decreases s.len(),
{
    if s.len() == 0 {
        0
    } else if roll < s[0].1 {
        0
    } else {
        1 + pick_index(s.skip(1), roll - s[0].1)
    }
}

/// A roll below the total weight always lands on an in-bounds candidate
/// whose own weight is positive: zero-weighted entries are unreachable.
pub proof fn lemma_pick_index_in_bounds(s: Seq<(Class, u32)>, roll: int)
    requires
        0 <= roll < total_weight(s),
    ensures
        0 <= pick_index(s, roll) < s.len(),
        s[pick_index(s, roll)].1 > 0,
    decreases s.len(),
{
    if s.len() == 0 {
    } else if roll < s[0].1 {
    } else {
        lemma_pick_index_in_bounds(s.skip(1), roll - s[0].1);
    }
}

/// Pick the candidate whose cumulative weight interval contains `roll`.
fn pick_weighted(candidates: &Vec<(Class, u32)>, roll: u32) -> (c: Class)
    requires
        roll < total_weight(candidates@),
    ensures
        ({
            let i = pick_index(candidates@, roll as int);
            &&& 0 <= i < candidates@.len()
            &&& c == candidates@[i].0
            &&& candidates@[i].1 > 0
        }),
{
    proof {
        lemma_pick_index_in_bounds(candidates@, roll as int);
        assert(candidates@.skip(0) =~= candidates@);
    }
    let n: usize = candidates.len();
    let mut i: usize = 0;
    let mut rem: u32 = roll;
    while rem >= candidates[i].1
        invariant
            n == candidates@.len(),
            0 <= i < n,
            0 <= rem <= roll,
            rem < total_weight(candidates@.skip(i as int)),
            pick_index(candidates@, roll as int) == i + pick_index(
                candidates@.skip(i as int),
                rem as int,
            ),
        decreases candidates@.len() - i,
    {
        proof {
            assert(candidates@.skip(i as int).skip(1) =~= candidates@.skip(i as int + 1));
            lemma_pick_index_in_bounds(
                candidates@.skip(i as int + 1),
                rem - candidates@[i as int].1,
            );
        }
        rem = rem - candidates[i].1;
        i = i + 1;
    }
    candidates[i].0
}

/// Draw one enemy class: flatten the three tiers into one candidate list,
/// each class weighted by its tier's weight for the given distance, and
/// pick one in proportion to weight.
fn weighted_choice(distance: Distance) -> (c: Class)
    ensures
        c.wf(),
        catalog_enemy(c),
        c.tier != Tier::Hero,
        tier_weight(distance, c.tier) > 0,
{
    let (w_near, w_mid, w_far): (u32, u32, u32) = match distance {
        Distance::Near(_) => (9, 2, 0),
        Distance::Mid(_) => (7, 10, 1),
        Distance::Far(_) => (1, 6, 3),
    };
    let mut candidates: Vec<(Class, u32)> = Vec::new();
    extend_candidates(&mut candidates, common(), w_near);
    extend_candidates(&mut candidates, rare(), w_mid);
    extend_candidates(&mut candidates, legendary(), w_far);
    assert(forall|k: int|
        0 <= k < candidates@.len() ==> (#[trigger] candidates@[k]).1 == tier_weight(
            distance,
            candidates@[k].0.tier,
        ) && candidates@[k].0.wf() && candidates@[k].0.tier != Tier::Hero
            && catalog_enemy(candidates@[k].0) && candidates@[k].1 <= 10);

    let total = sum_weights(&candidates);
    proof {
        lemma_element_weight_le_total(candidates@, 0);
    }
    assert(total > 0);
    let roll = randomizer::random_below(total);
    let chosen = pick_weighted(&candidates, roll);
    proof {
        let i = pick_index(candidates@, roll as int);
        assert(candidates@[i].1 == tier_weight(distance, chosen.tier));
    }
    chosen
}

/// Append every class of one tier to the candidate list, each with the
/// tier's weight.
fn extend_candidates(candidates: &mut Vec<(Class, u32)>, classes: Vec<Class>, weight: u32)
    ensures
        final(candidates)@.len() == old(candidates)@.len() + classes@.len(),
        forall|k: int|
            0 <= k < old(candidates)@.len() ==> final(candidates)@[k] == old(candidates)@[k],
        forall|k: int|
            old(candidates)@.len() <= k < final(candidates)@.len()
                ==> (#[trigger] final(candidates)@[k]).0 == classes@[k - old(candidates)@.len()]
                && final(candidates)@[k].1 == weight,
{
    let mut j: usize = 0;
    while j < classes.len()
        invariant
            0 <= j <= classes@.len(),
            candidates@.len() == old(candidates)@.len() + j,
            forall|k: int|
                0 <= k < old(candidates)@.len() ==> candidates@[k] == old(candidates)@[k],
            forall|k: int|
                old(candidates)@.len() <= k < candidates@.len() ==> (#[trigger] candidates@[k]).0
                    == classes@[k - old(candidates)@.len()] && candidates@[k].1 == weight,
        decreases classes@.len() - j,
    {
        candidates.push((classes[j], weight));
        j = j + 1;
    }
}

/// Sum the weights of the candidate list, provably equal to the spec
/// total.
fn sum_weights(candidates: &Vec<(Class, u32)>) -> (total: u32)
    requires
        forall|k: int| 0 <= k < candidates@.len() ==> (#[trigger] candidates@[k]).1 <= 10,
        candidates@.len() <= 100,
    ensures
        total == total_weight(candidates@),
{
    let mut total: u32 = 0;
    let mut j: usize = 0;
    proof {
        assert(candidates@.skip(0) =~= candidates@);
    }
    while j < candidates.len()
        invariant
            0 <= j <= candidates@.len(),
            candidates@.len() <= 100,
            forall|k: int| 0 <= k < candidates@.len() ==> (#[trigger] candidates@[k]).1 <= 10,
            total <= 10 * j,
            total + total_weight(candidates@.skip(j as int)) == total_weight(candidates@),
        decreases candidates@.len() - j,
    {
        proof {
            assert(candidates@.skip(j as int).skip(1) =~= candidates@.skip(j as int + 1));
            lemma_total_weight_bounds(candidates@.skip(j as int + 1));
        }
        total = total + candidates[j].1;
        j = j + 1;
    }
    total
}

/// The total weight of a list of small weights is non-negative and small.
proof fn lemma_total_weight_bounds(s: Seq<(Class, u32)>)
    ensures
        total_weight(s) >= 0,
    decreases s.len(),
{
    if s.len() > 0 {
        lemma_total_weight_bounds(s.skip(1));
    }
}

/// Each single weight is at most the total weight of the list.
proof fn lemma_element_weight_le_total(s: Seq<(Class, u32)>, j: int)
    requires
        0 <= j < s.len(),
    ensures
        s[j].1 <= total_weight(s),
    decreases s.len(),
{
    lemma_total_weight_bounds(s.skip(1));
    if j > 0 {
        lemma_element_weight_le_total(s.skip(1), j - 1);
    }
}

} // verus!
