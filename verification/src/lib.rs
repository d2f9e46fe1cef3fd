//! Turn-based combat core for a dungeon-crawling game: linear stat growth,
//! a fixed class catalog with distance-weighted random enemy selection,
//! mutable combat characters with bounded hit points, damage-over-time
//! status effects, a battle resolver, and deterministic victory rewards.

pub mod battle;
pub mod character;
pub mod event;
pub mod location;
pub mod randomizer;

use vstd::prelude::*;
use vstd::string::*;

verus! {

/// The character sequence that lowercasing produces for a given input
/// sequence; it depends on the input characters alone.
pub uninterp spec fn lower_of(s: Seq<char>) -> Seq<char>;

/// Relies on str::to_lowercase: the returned lowercase equivalent is a
/// function of the input characters alone, and an empty string stays
/// empty.
#[verifier::external_body]
fn lowercase(s: &str) -> (r: String)
    ensures
        r@ == lower_of(s@),
        s@.len() == 0 ==> r@.len() == 0,
{
    s.to_lowercase()
}

/// The canonical form of a lowercased item or equipment name: short
/// aliases map to the full name, anything else is left as it is.
pub open spec fn canonical_spec(s: Seq<char>) -> Seq<char> {
    if s == "p"@ || s == "potion"@ {
        "potion"@
    } else if s == "e"@ || s == "escape"@ {
        "escape"@
    } else if s == "sw"@ || s == "sword"@ {
        "sword"@
    } else if s == "sh"@ || s == "shield"@ {
        "shield"@
    } else {
        s
    }
}

/// Resolve the aliases of an already lowercased item or equipment name.
pub fn canonical_alias(name: String) -> (r: String)
    ensures
        r@ == canonical_spec(name@),
{
    if name == String::from_str("p") || name == String::from_str("potion") {
        String::from_str("potion")
    } else if name == String::from_str("e") || name == String::from_str("escape") {
        String::from_str("escape")
    } else if name == String::from_str("sw") || name == String::from_str("sword") {
        String::from_str("sword")
    } else if name == String::from_str("sh") || name == String::from_str("shield") {
        String::from_str("shield")
    } else {
        name
    }
}

/// Return a clean version of a user-supplied item or equipment name:
/// lowercased, with short aliases resolved to the full name.
pub fn sanitize(name: &str) -> (r: String)
    ensures
        r@ == canonical_spec(lower_of(name@)),
{
    let lower = lowercase(name);
    canonical_alias(lower)
}

} // verus!
