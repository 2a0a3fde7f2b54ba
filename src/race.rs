//! The races of the player examples, and what each one adds to a level and to
//! the skill slots.
use vstd::prelude::*;

verus! {

#[derive(Clone, Copy, Debug, PartialEq, Eq)]
pub enum Race {
    Orc,
    Human,
}

/// Orcs start two levels up; humans start where the modifier says.
pub open spec fn level_for(race: Race, modifier: u8) -> int {
    match race {
        Race::Orc => modifier + 2,
        Race::Human => modifier as int,
    }
}

/// Humans get one skill slot more than the modifier; orcs get the modifier.
pub open spec fn skill_slots_for(race: Race, modifier: u8) -> int {
    match race {
        Race::Orc => modifier as int,
        Race::Human => modifier + 1,
    }
}

pub fn level_of(race: Race, modifier: u8) -> (r: u8)
    requires
        0 <= level_for(race, modifier) <= u8::MAX,
    ensures
        r == level_for(race, modifier),
{
    match race {
        Race::Orc => modifier + 2,
        Race::Human => modifier,
    }
}

pub fn skill_slots_of(race: Race, modifier: u8) -> (r: u8)
    requires
        0 <= skill_slots_for(race, modifier) <= u8::MAX,
    ensures
        r == skill_slots_for(race, modifier),
{
    match race {
        Race::Orc => modifier,
        Race::Human => modifier + 1,
    }
}

} // verus!
