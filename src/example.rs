//! A builder whose three slots track which of its two settings were given;
//! it can only be built once one of them was. Its markers and sealing follow
//! the shape of the expansion that this crate emits, with plainer names.
use core::marker::PhantomData;
use vstd::prelude::*;

use crate::sealed_method_builder::Sealed;

verus! {

pub struct MyParentObject<'base> {
    _marker: PhantomData<&'base ()>,
}

impl<'base> MyParentObject<'base> {
    pub fn new() -> Self {
        MyParentObject { _marker: PhantomData }
    }

    /// A method builder in its initial state.
    pub fn method(&'base self) -> (r: MethodBuilder)
        ensures
            r@ == (None::<u8>, None::<u8>),
    {
        MethodBuilder::new()
    }
}

pub struct Method {}

impl Method {
    pub fn start(self) -> (r: Result<(), String>)
        ensures
            r is Ok,
    {
        Ok(())
    }
}

/// The capability boundary of the method builder's markers.
pub trait SealerMethodBuilder: Sealed {}

pub struct MethodBuilderUnset;

pub struct MethodBuilderASet;

pub struct MethodBuilderBSet;

pub struct MethodBuilderAOrBSet;

impl Sealed for MethodBuilderUnset {}

impl Sealed for MethodBuilderASet {}

impl Sealed for MethodBuilderBSet {}

impl Sealed for MethodBuilderAOrBSet {}

impl SealerMethodBuilder for MethodBuilderUnset {}

impl SealerMethodBuilder for MethodBuilderASet {}

impl SealerMethodBuilder for MethodBuilderBSet {}

impl SealerMethodBuilder for MethodBuilderAOrBSet {}

pub struct MethodBuilder<
    MethodBuilderState1 = MethodBuilderUnset,
    MethodBuilderState2 = MethodBuilderUnset,
    MethodBuilderState3 = MethodBuilderUnset,
> where
    MethodBuilderState1: SealerMethodBuilder,
    MethodBuilderState2: SealerMethodBuilder,
    MethodBuilderState3: SealerMethodBuilder,
 {
    slot_a: Option<u8>,
    slot_b: Option<u8>,
    _state: (
        PhantomData<MethodBuilderState1>,
        PhantomData<MethodBuilderState2>,
        PhantomData<MethodBuilderState3>,
    ),
}

impl<A, B, C> View for MethodBuilder<A, B, C> where
    A: SealerMethodBuilder,
    B: SealerMethodBuilder,
    C: SealerMethodBuilder,
 {
    /// The two settings, each given or not.
    type V = (Option<u8>, Option<u8>);

    closed spec fn view(&self) -> (Option<u8>, Option<u8>) {
        (self.slot_a, self.slot_b)
    }
}

impl MethodBuilder<MethodBuilderUnset, MethodBuilderUnset, MethodBuilderUnset> {
    pub fn new() -> (r: MethodBuilder)
        ensures
            r@ == (None::<u8>, None::<u8>),
    {
        MethodBuilder { slot_a: None, slot_b: None, _state: (PhantomData, PhantomData, PhantomData) }
    }
}

impl<B, C> MethodBuilder<MethodBuilderUnset, B, C> where
    B: SealerMethodBuilder,
    C: SealerMethodBuilder,
 {
    pub fn set_slot_a(self, slot_a: u8) -> (r: MethodBuilder<MethodBuilderASet, B, MethodBuilderAOrBSet>)
        ensures
            r@ == (Some(slot_a), self@.1),
    {
        MethodBuilder {
            slot_a: Some(slot_a),
            slot_b: self.slot_b,
            _state: (PhantomData, PhantomData, PhantomData),
        }
    }
}

impl<A, C> MethodBuilder<A, MethodBuilderBSet, C> where
    A: SealerMethodBuilder,
    C: SealerMethodBuilder,
 {
    pub fn set_slot_b(self, slot_b: u8) -> (r: MethodBuilder<A, MethodBuilderBSet, MethodBuilderAOrBSet>)
        ensures
            r@ == (self@.0, Some(slot_b)),
    {
        MethodBuilder {
            slot_a: self.slot_a,
            slot_b: Some(slot_b),
            _state: (PhantomData, PhantomData, PhantomData),
        }
    }
}

impl<A, B> MethodBuilder<A, B, MethodBuilderAOrBSet> where
    A: SealerMethodBuilder,
    B: SealerMethodBuilder,
 {
    pub fn build(self) -> Method {
        Method {}
    }

    pub fn start(self) -> (r: Result<(), String>)
        ensures
            r is Ok,
    {
        Ok(())
    }
}

} // verus!
