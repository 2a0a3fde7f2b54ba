//! Two player builders in one module, each with its own markers for states
//! of the same names.
use core::marker::PhantomData;
use vstd::prelude::*;

use crate::sealed_player_builder::{FirstSealed, SecondSealed};
pub use crate::race::Race;

verus! {

#[derive(Debug)]
pub struct Player {
    pub race: Race,
}

pub trait SealerPlayerBuilder1: FirstSealed {}

pub trait SealerPlayerBuilder2: SecondSealed {}

pub struct PlayerBuilder1Initial1;

pub struct PlayerBuilder1RaceSet1;

pub struct PlayerBuilder2Initial2;

pub struct PlayerBuilder2RaceSet2;

impl FirstSealed for PlayerBuilder1Initial1 {}

impl FirstSealed for PlayerBuilder1RaceSet1 {}

impl SecondSealed for PlayerBuilder2Initial2 {}

impl SecondSealed for PlayerBuilder2RaceSet2 {}

impl SealerPlayerBuilder1 for PlayerBuilder1Initial1 {}

impl SealerPlayerBuilder1 for PlayerBuilder1RaceSet1 {}

impl SealerPlayerBuilder2 for PlayerBuilder2Initial2 {}

impl SealerPlayerBuilder2 for PlayerBuilder2RaceSet2 {}

pub struct PlayerBuilder1<PlayerBuilder1State1 = PlayerBuilder1Initial1> where
    PlayerBuilder1State1: SealerPlayerBuilder1,
 {
    pub race: Option<Race>,
    _state: PhantomData<PlayerBuilder1State1>,
}

pub struct PlayerBuilder2<PlayerBuilder2State1 = PlayerBuilder2Initial2> where
    PlayerBuilder2State1: SealerPlayerBuilder2,
 {
    pub race: Option<Race>,
    _state: PhantomData<PlayerBuilder2State1>,
}

impl<S> View for PlayerBuilder1<S> where S: SealerPlayerBuilder1 {
    type V = Option<Race>;

    closed spec fn view(&self) -> Option<Race> {
        self.race
    }
}

impl<S> View for PlayerBuilder2<S> where S: SealerPlayerBuilder2 {
    type V = Option<Race>;

    closed spec fn view(&self) -> Option<Race> {
        self.race
    }
}

impl PlayerBuilder1<PlayerBuilder1Initial1> {
    pub fn new() -> (r: PlayerBuilder1)
        ensures
            r@ == None::<Race>,
    {
        PlayerBuilder1 { race: None, _state: PhantomData }
    }

    pub fn set_race(self, race: Race) -> (r: PlayerBuilder1<PlayerBuilder1RaceSet1>)
        ensures
            r@ == Some(race),
    {
        PlayerBuilder1 { race: Some(race), _state: PhantomData }
    }
}

impl PlayerBuilder1<PlayerBuilder1RaceSet1> {
    pub fn build(self) -> (r: Player)
        requires
            self@ is Some,
        ensures
            r.race == self@->Some_0,
    {
        Player { race: self.race.unwrap() }
    }
}

impl PlayerBuilder2<PlayerBuilder2Initial2> {
    pub fn new() -> (r: PlayerBuilder2)
        ensures
            r@ == None::<Race>,
    {
        PlayerBuilder2 { race: None, _state: PhantomData }
    }

    pub fn set_race(self, race: Race) -> (r: PlayerBuilder2<PlayerBuilder2RaceSet2>)
        ensures
            r@ == Some(race),
    {
        PlayerBuilder2 { race: Some(race), _state: PhantomData }
    }
}

impl PlayerBuilder2<PlayerBuilder2RaceSet2> {
    pub fn build(self) -> (r: Player)
        requires
            self@ is Some,
        ensures
            r.race == self@->Some_0,
    {
        Player { race: self.race.unwrap() }
    }
}

} // verus!
