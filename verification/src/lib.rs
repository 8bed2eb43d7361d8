//! A small visitor protocol for replaying the shape of a record-like
//! declaration — its name, exposure modifier, and ordered named fields —
//! against a pluggable schema emitter.
//!
//! The heart of the crate is the [`Sculptor`] trait: an emitter receives
//! exactly one `start` call, one `field` call per declared field in
//! declaration order, and one `end` call, and the first error an emitter
//! returns aborts the traversal at once. The [`shape::Shape`] value is the
//! runtime description of a declaration, [`translate::generate`] builds one
//! from a raw declaration (refusing anything that is not a struct with
//! named fields), and [`recording::RecordingSculptor`] is the reference
//! emitter that observes a traversal.

use vstd::prelude::*;

pub mod err;
pub mod event;
pub mod field_type;
pub mod modifier;
pub mod recording;
pub mod shape;
pub mod translate;

use crate::event::Event;
use crate::field_type::FieldType;
use crate::modifier::Modifier;
use crate::shape::{ShapeView, traversal_post};

verus! {

/// A type whose declared shape can be replayed against an emitter, given
/// an input value that drives the traversal.
///
/// `shape()` is the declared shape itself — name, exposure, ordered named
/// fields — and `sculpt` must replay exactly its canonical call sequence,
/// fail-fast, whatever the input holds: the input may only influence the
/// payload an emitter derives from the calls, never the calls themselves.
pub trait Sculptable {
    type Input;

    /// The declared shape that every traversal of this type replays.
    spec fn shape() -> ShapeView;

    /// Replays `Self::shape()` against `sculptor`, driven by `input`.
    fn sculpt<S: Sculptor>(sculptor: &mut S, input: Self::Input) -> (r: Result<S::Ok, S::Error>)
        ensures
            traversal_post(Self::shape(), *old(sculptor), *final(sculptor), r is Ok),
    ;
}

/// The shape-only adapter: runs the traversal of a type whose shape
/// needs no runtime instance.
pub trait StructSculptable {
    /// The declared shape that `sculpt_struct` replays.
    spec fn shape_struct() -> ShapeView;

    /// Runs the traversal with no input at all. The call sequence and
    /// its outcome are exactly those of the direct traversal entry point
    /// for the same shape.
    fn sculpt_struct<S: Sculptor>(sculptor: &mut S) -> (r: Result<S::Ok, S::Error>)
        ensures
            traversal_post(Self::shape_struct(), *old(sculptor), *final(sculptor), r is Ok),
    ;
}

impl<T: Sculptable<Input = ()>> StructSculptable for T {
    open spec fn shape_struct() -> ShapeView {
        T::shape()
    }

    fn sculpt_struct<S: Sculptor>(sculptor: &mut S) -> (r: Result<S::Ok, S::Error>) {
        T::sculpt(sculptor, ())
    }
}

/// The instance adapter: runs the traversal of a type that is consumed
/// as the traversal's own input.
pub trait SelfSculptable {
    /// The declared shape that `sculpt_self` replays.
    spec fn shape_self() -> ShapeView;

    /// Consumes `self` and runs the traversal with it as the input. The
    /// call sequence and its outcome are exactly those of the shape-only
    /// traversal of the same shape; the consumed value never changes
    /// which calls are issued.
    fn sculpt_self<S: Sculptor>(self, sculptor: &mut S) -> (r: Result<S::Ok, S::Error>) where
        Self: Sized
        ensures
            traversal_post(Self::shape_self(), *old(sculptor), *final(sculptor), r is Ok),
    ;
}

impl<T: Sculptable<Input = T>> SelfSculptable for T {
    open spec fn shape_self() -> ShapeView {
        T::shape()
    }

    fn sculpt_self<S: Sculptor>(self, sculptor: &mut S) -> (r: Result<S::Ok, S::Error>) {
        T::sculpt(sculptor, self)
    }
}

/// Interface for different generated language model schemas.
///
/// An emitter carries a ghost `log` of every call it has received, in
/// order, and publishes two stable promises about its own behaviour:
/// calls it surely `accepts` (returns `Ok`) and calls it surely
/// `rejects` (returns `Err`). An emitter that decides by some outside
/// means may leave both promises empty; nothing then constrains which
/// calls succeed, only that each call is logged and that the promises
/// themselves never change.
pub trait Sculptor {
    type Ok: Default;

    type Error: crate::err::Error;

    /// Every call this emitter has received so far, in order.
    spec fn log(&self) -> Seq<Event>;

    /// The emitter promises to return `Ok` from the call that arrives
    /// when `i` calls were already received, if that call is `ev`.
    spec fn accepts(&self, i: int, ev: Event) -> bool;

    /// The emitter promises to return `Err` from the call that arrives
    /// when `i` calls were already received, if that call is `ev`.
    spec fn rejects(&self, i: int, ev: Event) -> bool;

    /// Signals the beginning of a new shape named `name` with exposure
    /// `modifier`. Issued exactly once per traversal, before any `field`
    /// call.
    fn start(&mut self, modifier: Modifier, name: &str) -> (r: Result<Self::Ok, Self::Error>)
        ensures
            final(self).log() == old(self).log().push(Event::Start(modifier, name@)),
            old(self).accepts(old(self).log().len() as int, Event::Start(modifier, name@))
                ==> r is Ok,
            old(self).rejects(old(self).log().len() as int, Event::Start(modifier, name@))
                ==> r is Err,
            forall|i: int, ev: Event| #[trigger]
                final(self).accepts(i, ev) == old(self).accepts(i, ev),
            forall|i: int, ev: Event| #[trigger]
                final(self).rejects(i, ev) == old(self).rejects(i, ev),
    ;

    /// Signals one declared field. Issued zero or more times per
    /// traversal, strictly between `start` and `end`, in declaration
    /// order.
    fn field(&mut self, modifier: Modifier, name: &str, field_type: &FieldType) -> (r: Result<
        Self::Ok,
        Self::Error,
    >)
        ensures
            final(self).log() == old(self).log().push(Event::Field(modifier, name@, field_type@)),
            old(self).accepts(old(self).log().len() as int, Event::Field(modifier, name@, field_type@))
                ==> r is Ok,
            old(self).rejects(old(self).log().len() as int, Event::Field(modifier, name@, field_type@))
                ==> r is Err,
            forall|i: int, ev: Event| #[trigger]
                final(self).accepts(i, ev) == old(self).accepts(i, ev),
            forall|i: int, ev: Event| #[trigger]
                final(self).rejects(i, ev) == old(self).rejects(i, ev),
    ;

    /// Signals that the traversal is complete. Issued exactly once, after
    /// all fields, however many there were.
    fn end(&mut self) -> (r: Result<Self::Ok, Self::Error>)
        ensures
            final(self).log() == old(self).log().push(Event::End),
            old(self).accepts(old(self).log().len() as int, Event::End) ==> r is Ok,
            old(self).rejects(old(self).log().len() as int, Event::End) ==> r is Err,
            forall|i: int, ev: Event| #[trigger]
                final(self).accepts(i, ev) == old(self).accepts(i, ev),
            forall|i: int, ev: Event| #[trigger]
                final(self).rejects(i, ev) == old(self).rejects(i, ev),
    ;
}

} // verus!
