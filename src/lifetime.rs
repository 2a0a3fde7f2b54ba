//! A player builder generic over an item type and two lifetimes, with one
//! slot; setting the items may fail, and may change the item type.
use core::marker::PhantomData;
use vstd::prelude::*;

use crate::race::{level_for, level_of};
use crate::sealed_player_builder::LifetimeSealed;
pub use crate::race::Race;

verus! {

#[derive(Debug)]
pub struct Player<'a, 'b: 'a, T> {
    pub race: Race,
    pub level: u8,
    pub items: Vec<&'a T>,
    pub passive_items: Vec<&'b T>,
}

/// The capability boundary of the player builder's markers.
pub trait SealerPlayerBuilder: LifetimeSealed {}

pub struct PlayerBuilderInitial;

pub struct PlayerBuilderRaceSet;

pub struct PlayerBuilderLevelSet;

pub struct PlayerBuilderItemsSet;

impl LifetimeSealed for PlayerBuilderInitial {}

impl LifetimeSealed for PlayerBuilderRaceSet {}

impl LifetimeSealed for PlayerBuilderLevelSet {}

impl LifetimeSealed for PlayerBuilderItemsSet {}

impl SealerPlayerBuilder for PlayerBuilderInitial {}

impl SealerPlayerBuilder for PlayerBuilderRaceSet {}

impl SealerPlayerBuilder for PlayerBuilderLevelSet {}

impl SealerPlayerBuilder for PlayerBuilderItemsSet {}

pub struct PlayerBuilder<'a, 'b: 'a, T, PlayerBuilderState1 = PlayerBuilderInitial> where
    PlayerBuilderState1: SealerPlayerBuilder,
 {
    pub race: Option<Race>,
    pub level: Option<u8>,
    pub items: Option<Vec<&'a T>>,
    pub passive_items: Option<Vec<&'b T>>,
    _state: PhantomData<PlayerBuilderState1>,
}

/// The elements of an optional list.
pub open spec fn elements<X>(v: Option<Vec<X>>) -> Option<Seq<X>> {
    match v {
        Some(v) => Some(v@),
        None => None,
    }
}

impl<'a, 'b, T, S> View for PlayerBuilder<'a, 'b, T, S> where S: SealerPlayerBuilder {
    /// Race, level, items and passive items, each set or not.
    type V = (Option<Race>, Option<u8>, Option<Seq<&'a T>>, Option<Seq<&'b T>>);

    closed spec fn view(&self) -> Self::V {
        (self.race, self.level, elements(self.items), elements(self.passive_items))
    }
}

pub(crate) fn copy_list<X: Copy>(v: &Option<Vec<X>>) -> (r: Option<Vec<X>>)
    ensures
        elements(r) == elements(*v),
{
    match v {
        Some(v) => {
            let mut r: Vec<X> = Vec::new();
            let mut i: usize = 0;
            while i < v.len()
                invariant
                    i <= v.len(),
                    r@ =~= v@.take(i as int),
                decreases v.len() - i,
            {
                r.push(v[i]);
                i = i + 1;
            }
            assert(v@.take(i as int) =~= v@);
            Some(r)
        },
        None => None,
    }
}

impl<'a, 'b, T> PlayerBuilder<'a, 'b, T, PlayerBuilderInitial> {
    pub fn new() -> (r: PlayerBuilder<'a, 'b, T>)
        ensures
            r@ == (None::<Race>, None::<u8>, None::<Seq<&'a T>>, None::<Seq<&'b T>>),
    {
        PlayerBuilder { race: None, level: None, items: None, passive_items: None, _state: PhantomData }
    }

    pub fn set_race(self, race: Race) -> (r: PlayerBuilder<'a, 'b, T, PlayerBuilderRaceSet>)
        ensures
            r@ == (Some(race), self@.1, self@.2, self@.3),
    {
        PlayerBuilder {
            race: Some(race),
            level: self.level,
            items: self.items,
            passive_items: self.passive_items,
            _state: PhantomData,
        }
    }

    /// A copy of this builder with the race set to human.
    pub fn my_weird_method(&self) -> (r: Self)
        ensures
            r@ == (Some(Race::Human), self@.1, self@.2, self@.3),
    {
        PlayerBuilder {
            race: Some(Race::Human),
            level: self.level,
            items: copy_list(&self.items),
            passive_items: copy_list(&self.passive_items),
            _state: PhantomData,
        }
    }
}

impl<'a, 'b, T> PlayerBuilder<'a, 'b, T, PlayerBuilderRaceSet> {
    pub fn set_level(self, level_modifier: u8) -> (r: PlayerBuilder<'a, 'b, T, PlayerBuilderLevelSet>)
        requires
            self@.0 is Some,
            level_for(self@.0->Some_0, level_modifier) <= u8::MAX,
        ensures
            r@ == (self@.0, Some(level_for(self@.0->Some_0, level_modifier) as u8), self@.2, self@.3),
    {
        let level = match self.race {
            Some(race) => level_of(race, level_modifier),
            None => 0,
        };
        PlayerBuilder {
            race: self.race,
            level: Some(level),
            items: self.items,
            passive_items: self.passive_items,
            _state: PhantomData,
        }
    }
}

impl<'a, 'b, T> PlayerBuilder<'a, 'b, T, PlayerBuilderLevelSet> {
    pub fn set_items(self, items: Vec<&'a T>) -> (r: PlayerBuilder<'a, 'b, T, PlayerBuilderItemsSet>)
        ensures
            r@ == (self@.0, self@.1, Some(items@), self@.3),
    {
        PlayerBuilder {
            race: self.race,
            level: self.level,
            items: Some(items),
            passive_items: self.passive_items,
            _state: PhantomData,
        }
    }

    /// Sets items of another type, which drops the passive items.
    pub fn set_different_type_items<'c, 'd, Q>(self, items: Vec<&'c Q>) -> (r: PlayerBuilder<'c, 'd, Q, PlayerBuilderItemsSet>)
        ensures
            r@ == (self@.0, self@.1, Some(items@), None::<Seq<&'d Q>>),
    {
        PlayerBuilder {
            race: self.race,
            level: self.level,
            items: Some(items),
            passive_items: None,
            _state: PhantomData,
        }
    }

    /// Sets the items, or gives `None` where there are none.
    pub fn set_items_might_fail(self, items: Vec<&'a T>) -> (r: Option<PlayerBuilder<'a, 'b, T, PlayerBuilderItemsSet>>)
        ensures
            r is None <==> items@.len() == 0,
            r matches Some(p) ==> p@ == (self@.0, self@.1, Some(items@), self@.3),
    {
        if items.len() == 0 {
            return None;
        }
        Some(
            PlayerBuilder {
                race: self.race,
                level: self.level,
                items: Some(items),
                passive_items: self.passive_items,
                _state: PhantomData,
            },
        )
    }
}

impl<'a, 'b, T, A> PlayerBuilder<'a, 'b, T, A> where A: SealerPlayerBuilder {
    /// Available in every state; leaves the builder as it is.
    pub fn say_hi(self) -> (r: Self)
        ensures
            r@ == self@,
    {
        self
    }
}

impl<'a, 'b, T> PlayerBuilder<'a, 'b, T, PlayerBuilderItemsSet> {
    pub fn build(self) -> (r: Player<'a, 'b, T>)
        requires
            self@.0 is Some,
            self@.1 is Some,
            self@.2 is Some,
        ensures
            r.race == self@.0->Some_0,
            r.level == self@.1->Some_0,
            r.items@ == self@.2->Some_0,
            r.passive_items@.len() == 0,
    {
        Player {
            race: self.race.unwrap(),
            level: self.level.unwrap(),
            items: self.items.unwrap(),
            passive_items: Vec::new(),
        }
    }
}

} // verus!
