//! A player builder generic over an item type and one lifetime, with one slot.
use core::marker::PhantomData;
use vstd::prelude::*;

use crate::lifetime::{copy_list, elements};
use crate::race::{level_for, level_of};
use crate::sealed_player_builder::SimpleLifetimeSealed;
pub use crate::race::Race;

verus! {

#[derive(Debug)]
pub struct Player<'a, T> {
    pub race: Race,
    pub level: u8,
    pub items: Vec<&'a T>,
}

/// The capability boundary of the player builder's markers.
pub trait SealerPlayerBuilder: SimpleLifetimeSealed {}

pub struct PlayerBuilderInitial;

pub struct PlayerBuilderRaceSet;

pub struct PlayerBuilderLevelSet;

pub struct PlayerBuilderItemsSet;

impl SimpleLifetimeSealed for PlayerBuilderInitial {}

impl SimpleLifetimeSealed for PlayerBuilderRaceSet {}

impl SimpleLifetimeSealed for PlayerBuilderLevelSet {}

impl SimpleLifetimeSealed for PlayerBuilderItemsSet {}

impl SealerPlayerBuilder for PlayerBuilderInitial {}

impl SealerPlayerBuilder for PlayerBuilderRaceSet {}

impl SealerPlayerBuilder for PlayerBuilderLevelSet {}

impl SealerPlayerBuilder for PlayerBuilderItemsSet {}

pub struct PlayerBuilder<'a, T, PlayerBuilderState1 = PlayerBuilderInitial> where
    PlayerBuilderState1: SealerPlayerBuilder,
 {
    pub race: Option<Race>,
    pub level: Option<u8>,
    pub items: Option<Vec<&'a T>>,
    _state: PhantomData<PlayerBuilderState1>,
}

impl<'a, T, S> View for PlayerBuilder<'a, T, S> where S: SealerPlayerBuilder {
    /// Race, level and items, each set or not.
    type V = (Option<Race>, Option<u8>, Option<Seq<&'a T>>);

    closed spec fn view(&self) -> Self::V {
        (self.race, self.level, elements(self.items))
    }
}

impl<'a, T> PlayerBuilder<'a, T, PlayerBuilderInitial> {
    pub fn new() -> (r: PlayerBuilder<'a, T>)
        ensures
            r@ == (None::<Race>, None::<u8>, None::<Seq<&'a T>>),
    {
        PlayerBuilder { race: None, level: None, items: None, _state: PhantomData }
    }

    pub fn set_race(self, race: Race) -> (r: PlayerBuilder<'a, T, PlayerBuilderRaceSet>)
        ensures
            r@ == (Some(race), self@.1, self@.2),
    {
        PlayerBuilder { race: Some(race), level: self.level, items: self.items, _state: PhantomData }
    }

    /// A copy of this builder with the race set to human.
    pub fn my_weird_method(&self) -> (r: Self)
        ensures
            r@ == (Some(Race::Human), self@.1, self@.2),
    {
        PlayerBuilder {
            race: Some(Race::Human),
            level: self.level,
            items: copy_list(&self.items),
            _state: PhantomData,
        }
    }
}

impl<'a, T> PlayerBuilder<'a, T, PlayerBuilderRaceSet> {
    pub fn set_level(self, level_modifier: u8) -> (r: PlayerBuilder<'a, T, PlayerBuilderLevelSet>)
        requires
            self@.0 is Some,
            level_for(self@.0->Some_0, level_modifier) <= u8::MAX,
        ensures
            r@ == (self@.0, Some(level_for(self@.0->Some_0, level_modifier) as u8), self@.2),
    {
        let level = match self.race {
            Some(race) => level_of(race, level_modifier),
            None => 0,
        };
        PlayerBuilder { race: self.race, level: Some(level), items: self.items, _state: PhantomData }
    }
}

impl<'a, T> PlayerBuilder<'a, T, PlayerBuilderLevelSet> {
    pub fn set_items(self, items: Vec<&'a T>) -> (r: PlayerBuilder<'a, T, PlayerBuilderItemsSet>)
        ensures
            r@ == (self@.0, self@.1, Some(items@)),
    {
        PlayerBuilder { race: self.race, level: self.level, items: Some(items), _state: PhantomData }
    }
}

impl<'a, T, A> PlayerBuilder<'a, T, A> where A: SealerPlayerBuilder {
    /// Available in every state; leaves the builder as it is.
    pub fn say_hi(self) -> (r: Self)
        ensures
            r@ == self@,
    {
        self
    }
}

impl<'a, T> PlayerBuilder<'a, T, PlayerBuilderItemsSet> {
    pub fn build(self) -> (r: Player<'a, T>)
        requires
            self@.0 is Some,
            self@.1 is Some,
            self@.2 is Some,
        ensures
            r.race == self@.0->Some_0,
            r.level == self@.1->Some_0,
            r.items@ == self@.2->Some_0,
    {
        Player { race: self.race.unwrap(), level: self.level.unwrap(), items: self.items.unwrap() }
    }
}

} // verus!
