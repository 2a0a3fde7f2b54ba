//! A player builder with one slot that walks through race, level and skill
//! slots in this order.
use core::marker::PhantomData;
use vstd::prelude::*;

use crate::race::{level_for, level_of, skill_slots_for, skill_slots_of};
use crate::sealed_player_builder::SimpleSealed;
pub use crate::race::Race;

verus! {

#[derive(Debug)]
pub struct Player {
    pub race: Race,
    pub level: u8,
    pub skill_slots: u8,
}

/// The capability boundary of the player builder's markers.
pub trait SealerPlayerBuilder: SimpleSealed {}

pub struct PlayerBuilderInitial;

pub struct PlayerBuilderRaceSet;

pub struct PlayerBuilderLevelSet;

pub struct PlayerBuilderSkillSlotsSet;

impl SimpleSealed for PlayerBuilderInitial {}

impl SimpleSealed for PlayerBuilderRaceSet {}

impl SimpleSealed for PlayerBuilderLevelSet {}

impl SimpleSealed for PlayerBuilderSkillSlotsSet {}

impl SealerPlayerBuilder for PlayerBuilderInitial {}

impl SealerPlayerBuilder for PlayerBuilderRaceSet {}

impl SealerPlayerBuilder for PlayerBuilderLevelSet {}

impl SealerPlayerBuilder for PlayerBuilderSkillSlotsSet {}

pub struct PlayerBuilder<PlayerBuilderState1 = PlayerBuilderInitial> where
    PlayerBuilderState1: SealerPlayerBuilder,
 {
    pub race: Option<Race>,
    pub level: Option<u8>,
    pub skill_slots: Option<u8>,
    _state: PhantomData<PlayerBuilderState1>,
}

impl<S> View for PlayerBuilder<S> where S: SealerPlayerBuilder {
    /// Race, level and skill slots, each set or not.
    type V = (Option<Race>, Option<u8>, Option<u8>);

    closed spec fn view(&self) -> (Option<Race>, Option<u8>, Option<u8>) {
        (self.race, self.level, self.skill_slots)
    }
}

impl PlayerBuilder<PlayerBuilderInitial> {
    pub fn new() -> (r: PlayerBuilder)
        ensures
            r@ == (None::<Race>, None::<u8>, None::<u8>),
    {
        PlayerBuilder { race: None, level: None, skill_slots: None, _state: PhantomData }
    }

    pub fn set_race(self, race: Race) -> (r: PlayerBuilder<PlayerBuilderRaceSet>)
        ensures
            r@ == (Some(race), self@.1, self@.2),
    {
        PlayerBuilder {
            race: Some(race),
            level: self.level,
            skill_slots: self.skill_slots,
            _state: PhantomData,
        }
    }

    /// A copy of this builder with the race set to human.
    pub fn my_weird_method(&self) -> (r: Self)
        ensures
            r@ == (Some(Race::Human), self@.1, self@.2),
    {
        PlayerBuilder {
            race: Some(Race::Human),
            level: self.level,
            skill_slots: self.skill_slots,
            _state: PhantomData,
        }
    }
}

impl PlayerBuilder<PlayerBuilderRaceSet> {
    pub fn set_level(self, level_modifier: u8) -> (r: PlayerBuilder<PlayerBuilderLevelSet>)
        requires
            self@.0 is Some,
            level_for(self@.0->Some_0, level_modifier) <= u8::MAX,
        ensures
            r@ == (self@.0, Some(level_for(self@.0->Some_0, level_modifier) as u8), self@.2),
    {
        let level = match self.race {
            Some(race) => level_of(race, level_modifier),
            None => 0,
        };
        PlayerBuilder {
            race: self.race,
            level: Some(level),
            skill_slots: self.skill_slots,
            _state: PhantomData,
        }
    }
}

impl PlayerBuilder<PlayerBuilderLevelSet> {
    pub fn set_skill_slots(self, skill_slot_modifier: u8) -> (r: PlayerBuilder<PlayerBuilderSkillSlotsSet>)
        requires
            self@.0 is Some,
            skill_slots_for(self@.0->Some_0, skill_slot_modifier) <= u8::MAX,
        ensures
            r@ == (self@.0, self@.1, Some(skill_slots_for(self@.0->Some_0, skill_slot_modifier) as u8)),
    {
        let skill_slots = match self.race {
            Some(race) => skill_slots_of(race, skill_slot_modifier),
            None => 0,
        };
        PlayerBuilder {
            race: self.race,
            level: self.level,
            skill_slots: Some(skill_slots),
            _state: PhantomData,
        }
    }
}

impl<A> PlayerBuilder<A> where A: SealerPlayerBuilder {
    /// Available in every state; leaves the builder as it is.
    pub fn say_hi(self) -> (r: Self)
        ensures
            r@ == self@,
    {
        self
    }
}

impl PlayerBuilder<PlayerBuilderSkillSlotsSet> {
    pub fn build(self) -> (r: Player)
        requires
            self@.0 is Some,
            self@.1 is Some,
            self@.2 is Some,
        ensures
            r.race == self@.0->Some_0,
            r.level == self@.1->Some_0,
            r.skill_slots == self@.2->Some_0,
    {
        Player {
            race: self.race.unwrap(),
            level: self.level.unwrap(),
            skill_slots: self.skill_slots.unwrap(),
        }
    }
}

} // verus!
