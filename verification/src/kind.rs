//! Tagged dispatch for resolving how a single value becomes a report.
//!
//! When one expression must turn into a [`Report`], the right constructor
//! depends on what the expression is: an ad-hoc message, an error value, or
//! an already-type-erased boxed error. These three marker types and their
//! `eyre_kind` traits resolve the choice by method resolution: each trait
//! offers `eyre_kind` on a different shape of receiver, and each marker's
//! `new` calls the matching constructor.

use crate::value::{BoxedError, ErrorValue};
use crate::Report;
use vstd::prelude::*;

verus! {

/// Marker for the ad-hoc message path.
pub struct Adhoc;

/// Offers the ad-hoc path on references to any storable value.
pub trait AdhocKind: Sized {
    /// Picks the ad-hoc message path.
    fn eyre_kind(&self) -> Adhoc {
        Adhoc
    }
}

impl<T: ErrorValue> AdhocKind for &T {

}

impl Adhoc {
    /// Creates a report from an ad-hoc message.
    pub fn new<M: ErrorValue>(self, message: M) -> (r: Report)
        ensures
            r.wf(),
            r.layers() == seq![(M::tag(), message.text_of())],
            r.chain_view() == seq![message.text_of()] + message.sources_of(),
    {
        Report::from_adhoc(message)
    }
}

/// Marker for the error-value path.
pub struct Trait;

/// Offers the error-value path on any storable value.
pub trait TraitKind: Sized {
    /// Picks the error-value path.
    fn eyre_kind(&self) -> Trait {
        Trait
    }
}

impl<E: ErrorValue> TraitKind for E {

}

impl Trait {
    /// Creates a report from an error value.
    pub fn new<E: ErrorValue>(self, error: E) -> (r: Report)
        ensures
            r.wf(),
            r.layers() == seq![(E::tag(), error.text_of())],
            r.chain_view() == seq![error.text_of()] + error.sources_of(),
    {
        Report::new(error)
    }
}

/// Marker for the boxed-error path.
pub struct Boxed;

/// Offers the boxed path on already-type-erased errors.
pub trait BoxedKind: Sized {
    /// Picks the boxed-error path.
    fn eyre_kind(&self) -> Boxed {
        Boxed
    }
}

impl BoxedKind for BoxedError {

}

impl Boxed {
    /// Creates a report from an already-type-erased boxed error.
    pub fn new(self, error: BoxedError) -> (r: Report)
        ensures
            r.wf(),
            r.layers() == seq![(BoxedError::tag(), error.text_spec())],
            r.chain_view() == seq![error.text_spec()] + error.sources_spec(),
    {
        Report::from_boxed(error)
    }
}

} // verus!
