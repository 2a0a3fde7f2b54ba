//! The sealing traits of the player builders' markers; being private, no type
//! outside this crate can implement them.
use vstd::prelude::*;

verus! {

pub trait SimpleSealed {}

pub trait ComplexSealed {}

pub trait LifetimeSealed {}

pub trait SimpleLifetimeSealed {}

pub trait FirstSealed {}

pub trait SecondSealed {}

} // verus!
