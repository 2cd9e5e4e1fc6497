//! The phases as types.
//!
//! A builder carries one marker per field in its type, so that which
//! setters it offers is decided at compile time.  A marker has no
//! data; [`State::phase`] says which [`Phase`] it names.

use vstd::prelude::*;
use crate::lattice::Phase;
use crate::sealed::Sealed;

verus! {

/// Names [`Phase::ToDo`]: the field needs to be set.
pub struct ToDo;

/// Names [`Phase::Allowed`]: the field is set and may be set again.
pub struct Allowed;

/// Names [`Phase::Done`]: the field is set and cannot be set again.
pub struct Done;

/// A type that names a phase.  Only [`ToDo`], [`Allowed`] and [`Done`]
/// implement it.
pub trait State: Sealed {
    /// The phase that the type names.
    spec fn phase() -> Phase;
}

impl Sealed for ToDo {

}

impl Sealed for Allowed {

}

impl Sealed for Done {

}

impl State for ToDo {
    open spec fn phase() -> Phase {
        Phase::ToDo
    }
}

impl State for Allowed {
    open spec fn phase() -> Phase {
        Phase::Allowed
    }
}

impl State for Done {
    open spec fn phase() -> Phase {
        Phase::Done
    }
}

} // verus!
