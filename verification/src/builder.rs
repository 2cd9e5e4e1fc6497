//! The executable builder.
//!
//! [`Build`] carries the phase of each field in its type.  `aa` and `bb`
//! exist only while their field is `ToDo`, `cc` while its field is `ToDo`
//! or `Allowed`, and `go` only on the one type in which every field has
//! its value.  A call that the lattice rejects is therefore not a run-time
//! error but a call that does not compile.  Every setter takes the
//! builder by value, so the state before the call cannot be used again.

use core::marker::PhantomData;
use vstd::prelude::*;
use crate::lattice::{Phase, PhaseError, Slot};
use crate::machine::{BuildState, Call, Record};
use crate::marker::{Allowed, Done, State, ToDo};

verus! {

/// The values that the setters collect, and what `go` hands out.
#[derive(Clone, Copy, Debug, PartialEq, Eq, Structural)]
pub struct Data {
    pub a: usize,
    pub b: usize,
    pub c: usize,
}

impl View for Data {
    type V = Record;

    open spec fn view(&self) -> Record {
        Record { a: self.a as nat, b: self.b as nat, c: self.c as nat }
    }
}

impl Data {
    /// The record before any setter ran: every field zero.
    pub fn new() -> (d: Self)
        ensures
            d == (Data { a: 0, b: 0, c: 0 }),
    {
        Self { a: 0, b: 0, c: 0 }
    }
}

/// The builder.  `A`, `B` and `C` name the phases of its three fields.
///
/// Its view is a [`BuildState`]: the phases that the type names, with the
/// values collected so far.  A builder cannot be copied, and each setter
/// consumes it, so there is one builder per sequence of calls.  Every
/// builder is well formed: a required field is never `Allowed`, the
/// accumulating field never `Done`, and a field that is `ToDo` holds
/// zero.
pub struct Build<A: State = ToDo, B: State = ToDo, C: State = ToDo> {
    data: Box<Data>,
    p: PhantomData<(A, B, C)>,
}

impl<A: State, B: State, C: State> View for Build<A, B, C> {
    type V = BuildState;

    /// The phases come from the type, the values from the record.
    open spec fn view(&self) -> BuildState {
        BuildState {
            a: Slot { phase: A::phase(), value: self.record().a },
            b: Slot { phase: B::phase(), value: self.record().b },
            c: Slot { phase: C::phase(), value: self.record().c },
        }
    }
}

impl<A: State, B: State, C: State> Build<A, B, C> {
    /// The values collected so far.
    pub closed spec fn record(&self) -> Record {
        (*self.data)@
    }

    #[verifier::type_invariant]
    spec fn inv(&self) -> bool {
        self@.wf()
    }
}

/// A new builder: every field `ToDo` and zero.
pub fn build() -> (b: Build)
    ensures
        b@ == BuildState::create(),
{
    Build { data: Box::new(Data::new()), p: PhantomData }
}

impl<B: State, C: State> Build<ToDo, B, C> {
    /// Sets the required field `a`, which is then `Done`.
    pub fn aa(self, a: usize) -> (next: Build<Done, B, C>)
        ensures
            self@.set(Call::a(a as nat)) == Ok::<BuildState, PhaseError>(next@),
            next@.wf(),
    {
        proof {
            use_type_invariant(&self);
        }
        let mut data = self.data;
        data.a = a;
        Build { data, p: PhantomData }
    }
}

impl<A: State, C: State> Build<A, ToDo, C> {
    /// Sets the required field `b`, which is then `Done`.
    pub fn bb(self, b: usize) -> (next: Build<A, Done, C>)
        ensures
            self@.set(Call::b(b as nat)) == Ok::<BuildState, PhaseError>(next@),
            next@.wf(),
    {
        proof {
            use_type_invariant(&self);
        }
        let mut data = self.data;
        data.b = b;
        Build { data, p: PhantomData }
    }
}

impl<A: State, B: State> Build<A, B, ToDo> {
    /// Sets the accumulating field `c` for the first time; it is then
    /// `Allowed`.
    pub fn cc(self, c: usize) -> (next: Build<A, B, Allowed>)
        ensures
            self@.set(Call::c(c as nat)) == Ok::<BuildState, PhaseError>(next@),
            next@.wf(),
    {
        proof {
            use_type_invariant(&self);
        }
        let mut data = self.data;
        data.c = c;
        Build { data, p: PhantomData }
    }
}

impl<A: State, B: State> Build<A, B, Allowed> {
    /// Adds `c` to the accumulating field, which stays `Allowed`.
    ///
    /// The sum has to fit the machine word.
    pub fn cc(self, c: usize) -> (next: Self)
        requires
            self@.c.value + c <= usize::MAX,
        ensures
            self@.set(Call::c(c as nat)) == Ok::<BuildState, PhaseError>(next@),
            next@.wf(),
    {
        proof {
            use_type_invariant(&self);
        }
        let mut data = self.data;
        data.c += c;
        Build { data, p: PhantomData }
    }
}

impl Build<Done, Done, Allowed> {
    /// The collected values.  The builder is only read: it can be
    /// finalized again, and `cc` can still be called on it.
    pub fn go(&self) -> (r: Data)
        ensures
            self@.finalize() == Ok::<Record, PhaseError>(r@),
    {
        *self.data
    }
}

impl<A: State, B: State, C: State> Build<A, B, C> {
    /// The methods match the lattice.  The lattice accepts a call on `a`
    /// exactly where `aa` exists, on `b` exactly where `bb` exists, on
    /// `c` exactly where one of the two `cc` exists, and it lets the
    /// state be finalized exactly where `go` exists.  A call that would
    /// be rejected cannot be written.
    pub proof fn lemma_offered_iff_accepted(self, v: nat)
        ensures
            self@.set(Call::a(v)) is Ok <==> A::phase() == Phase::ToDo,
            self@.set(Call::b(v)) is Ok <==> B::phase() == Phase::ToDo,
            self@.set(Call::c(v)) is Ok <==> C::phase() == Phase::ToDo || C::phase()
                == Phase::Allowed,
            self@.finalize() is Ok <==> A::phase() == Phase::Done && B::phase() == Phase::Done
                && C::phase() == Phase::Allowed,
    {
    }
}

/// Finalizing again gives the same data.  Two results of `go` on one
/// state have the record of that state as their view, and a `Data` is
/// determined by its view.
pub proof fn lemma_go_repeatable(state: BuildState, first: Data, second: Data)
    requires
        state.finalize() == Ok::<Record, PhaseError>(first@),
        state.finalize() == Ok::<Record, PhaseError>(second@),
    ensures
        first == second,
{
}

} // verus!
