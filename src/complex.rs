//! A player builder with three slots: the first tracks race and spells, the
//! second the level, the third the skill slots. Level and skill slots can be
//! set in either order once the race is set; spells need both.
use core::marker::PhantomData;
use vstd::prelude::*;

use crate::race::{level_for, level_of, skill_slots_for, skill_slots_of};
use crate::sealed_player_builder::ComplexSealed;
pub use crate::race::Race;

verus! {

#[derive(Debug)]
pub struct Player {
    pub race: Race,
    pub level: u8,
    pub skill_slots: u8,
    pub spell_slots: u8,
}

/// The capability boundary of the player builder's markers.
pub trait SealerPlayerBuilder: ComplexSealed {}

pub struct PlayerBuilderInitial;

pub struct PlayerBuilderRaceSet;

pub struct PlayerBuilderLevelSet;

pub struct PlayerBuilderSkillSlotsSet;

pub struct PlayerBuilderSpellSlotsSet;

impl ComplexSealed for PlayerBuilderInitial {}

impl ComplexSealed for PlayerBuilderRaceSet {}

impl ComplexSealed for PlayerBuilderLevelSet {}

impl ComplexSealed for PlayerBuilderSkillSlotsSet {}

impl ComplexSealed for PlayerBuilderSpellSlotsSet {}

impl SealerPlayerBuilder for PlayerBuilderInitial {}

impl SealerPlayerBuilder for PlayerBuilderRaceSet {}

impl SealerPlayerBuilder for PlayerBuilderLevelSet {}

impl SealerPlayerBuilder for PlayerBuilderSkillSlotsSet {}

impl SealerPlayerBuilder for PlayerBuilderSpellSlotsSet {}

pub struct PlayerBuilder<
    PlayerBuilderState1 = PlayerBuilderInitial,
    PlayerBuilderState2 = PlayerBuilderInitial,
    PlayerBuilderState3 = PlayerBuilderInitial,
> where
    PlayerBuilderState1: SealerPlayerBuilder,
    PlayerBuilderState2: SealerPlayerBuilder,
    PlayerBuilderState3: SealerPlayerBuilder,
 {
    pub race: Option<Race>,
    pub level: Option<u8>,
    pub skill_slots: Option<u8>,
    pub spell_slots: Option<u8>,
    _state: (
        PhantomData<PlayerBuilderState1>,
        PhantomData<PlayerBuilderState2>,
        PhantomData<PlayerBuilderState3>,
    ),
}

impl<A, B, C> View for PlayerBuilder<A, B, C> where
    A: SealerPlayerBuilder,
    B: SealerPlayerBuilder,
    C: SealerPlayerBuilder,
 {
    /// Race, level, skill slots and spell slots, each set or not.
    type V = (Option<Race>, Option<u8>, Option<u8>, Option<u8>);

    closed spec fn view(&self) -> (Option<Race>, Option<u8>, Option<u8>, Option<u8>) {
        (self.race, self.level, self.skill_slots, self.spell_slots)
    }
}

/// The spell slots that a level, a number of skill slots and a modifier give.
pub open spec fn spell_slots_for(level: u8, skill_slots: u8, modifier: u8) -> int {
    level / 10 + skill_slots + modifier
}

impl PlayerBuilder<PlayerBuilderInitial, PlayerBuilderInitial, PlayerBuilderInitial> {
    pub fn new() -> (r: Self)
        ensures
            r@ == (None::<Race>, None::<u8>, None::<u8>, None::<u8>),
    {
        PlayerBuilder {
            race: None,
            level: None,
            skill_slots: None,
            spell_slots: None,
            _state: (PhantomData, PhantomData, PhantomData),
        }
    }
}

impl<B, C> PlayerBuilder<PlayerBuilderInitial, B, C> where
    B: SealerPlayerBuilder,
    C: SealerPlayerBuilder,
 {
    pub fn set_race(self, race: Race) -> (r: PlayerBuilder<PlayerBuilderRaceSet, B, C>)
        ensures
            r@ == (Some(race), self@.1, self@.2, self@.3),
    {
        PlayerBuilder {
            race: Some(race),
            level: self.level,
            skill_slots: self.skill_slots,
            spell_slots: self.spell_slots,
            _state: (PhantomData, PhantomData, PhantomData),
        }
    }
}

impl<B, C> PlayerBuilder<PlayerBuilderRaceSet, B, C> where
    B: SealerPlayerBuilder,
    C: SealerPlayerBuilder,
 {
    pub fn set_level(self, level_modifier: u8) -> (r: PlayerBuilder<PlayerBuilderRaceSet, PlayerBuilderLevelSet, C>)
        requires
            self@.0 is Some,
            level_for(self@.0->Some_0, level_modifier) <= u8::MAX,
        ensures
            r@ == (self@.0, Some(level_for(self@.0->Some_0, level_modifier) as u8), self@.2, self@.3),
    {
        let level = match self.race {
            Some(race) => level_of(race, level_modifier),
            None => 0,
        };
        PlayerBuilder {
            race: self.race,
            level: Some(level),
            skill_slots: self.skill_slots,
            spell_slots: self.spell_slots,
            _state: (PhantomData, PhantomData, PhantomData),
        }
    }

    pub fn set_skill_slots(self, skill_slot_modifier: u8) -> (r: PlayerBuilder<PlayerBuilderRaceSet, B, PlayerBuilderSkillSlotsSet>)
        requires
            self@.0 is Some,
            skill_slots_for(self@.0->Some_0, skill_slot_modifier) <= u8::MAX,
        ensures
            r@ == (self@.0, self@.1, Some(skill_slots_for(self@.0->Some_0, skill_slot_modifier) as u8), self@.3),
    {
        let skill_slots = match self.race {
            Some(race) => skill_slots_of(race, skill_slot_modifier),
            None => 0,
        };
        PlayerBuilder {
            race: self.race,
            level: self.level,
            skill_slots: Some(skill_slots),
            spell_slots: self.spell_slots,
            _state: (PhantomData, PhantomData, PhantomData),
        }
    }
}

impl<A> PlayerBuilder<A, PlayerBuilderLevelSet, PlayerBuilderSkillSlotsSet> where A: SealerPlayerBuilder {
    pub fn set_spells(self, spell_slot_modifier: u8) -> (r: PlayerBuilder<PlayerBuilderSpellSlotsSet, PlayerBuilderLevelSet, PlayerBuilderSkillSlotsSet>)
        requires
            self@.1 is Some,
            self@.2 is Some,
            spell_slots_for(self@.1->Some_0, self@.2->Some_0, spell_slot_modifier) <= u8::MAX,
        ensures
            r@ == (self@.0, self@.1, self@.2, Some(spell_slots_for(self@.1->Some_0, self@.2->Some_0, spell_slot_modifier) as u8)),
    {
        let level = match self.level {
            Some(l) => l,
            None => 0,
        };
        let skill_slots = match self.skill_slots {
            Some(s) => s,
            None => 0,
        };
        let spell_slots = level / 10 + skill_slots + spell_slot_modifier;
        PlayerBuilder {
            race: self.race,
            level: self.level,
            skill_slots: self.skill_slots,
            spell_slots: Some(spell_slots),
            _state: (PhantomData, PhantomData, PhantomData),
        }
    }
}

impl<A, B, C> PlayerBuilder<A, B, C> where
    A: SealerPlayerBuilder,
    B: SealerPlayerBuilder,
    C: SealerPlayerBuilder,
 {
    /// Available in every state; leaves the builder as it is.
    pub fn say_hi(self) -> (r: Self)
        ensures
            r@ == self@,
    {
        self
    }
}

impl<B, C> PlayerBuilder<PlayerBuilderSpellSlotsSet, B, C> where
    B: SealerPlayerBuilder,
    C: SealerPlayerBuilder,
 {
    pub fn build(self) -> (r: Player)
        requires
            self@.0 is Some,
            self@.1 is Some,
            self@.2 is Some,
            self@.3 is Some,
        ensures
            r.race == self@.0->Some_0,
            r.level == self@.1->Some_0,
            r.skill_slots == self@.2->Some_0,
            r.spell_slots == self@.3->Some_0,
    {
        Player {
            race: self.race.unwrap(),
            level: self.level.unwrap(),
            skill_slots: self.skill_slots.unwrap(),
            spell_slots: self.spell_slots.unwrap(),
        }
    }
}

} // verus!
