//! The sealing trait of the method builder's markers; being private, no type
//! outside this crate can implement it.
use vstd::prelude::*;

verus! {

pub trait Sealed {}

} // verus!
