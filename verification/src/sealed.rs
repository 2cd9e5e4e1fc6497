//! Keeps the set of phase markers closed.

use vstd::prelude::*;

verus! {

/// Implemented for the three markers of [`crate::marker`] and, since other
/// crates cannot name it, for nothing else.
pub trait Sealed {

}

} // verus!
