//! The phases of one field and the two disciplines a field can follow.
//!
//! A field is a [`Slot`]: a phase and the value stored so far.  A
//! [`Discipline`] says which phases the field moves through and what a
//! setter call does to it.  Nothing here knows how many fields a builder
//! has; [`crate::machine`] puts three of them side by side.

use vstd::prelude::*;

verus! {

/// How far one field has come.
pub enum Phase {
    /// No value has been supplied yet.
    ToDo,
    /// A value has been supplied and more may follow.
    Allowed,
    /// The one value has been supplied; no other may follow.
    Done,
}

/// Why the lattice rejects a call.
pub enum PhaseError {
    /// A setter was called on a field whose phase admits no further value.
    InvalidTransition,
    /// The builder was finalized before every field had its value.
    IncompleteBuilder,
}

/// The rule a field follows.
pub enum Discipline {
    /// Set exactly once: `ToDo -> Done`.
    Required,
    /// Set at least once: `ToDo -> Allowed -> Allowed -> ...`, each later
    /// value combined with the stored one.
    Accumulating,
}

/// One field of a builder: its phase and the value stored so far.
pub struct Slot {
    pub phase: Phase,
    pub value: nat,
}

/// How an accumulating field takes one more value.
pub open spec fn combine(stored: nat, v: nat) -> nat {
    stored + v
}

/// [`combine`] folded from left to right over `vs`; zero for no value.
pub open spec fn folded(vs: Seq<nat>) -> nat
    decreases vs.len(),
{
    if vs.len() == 0 {
        0
    } else if vs.len() == 1 {
        vs[0]
    } else {
        combine(folded(vs.drop_last()), vs.last())
    }
}

impl Slot {
    /// A field that no setter has touched.
    pub open spec fn fresh() -> Slot {
        Slot { phase: Phase::ToDo, value: 0 }
    }
}

impl Discipline {
    /// The phases a field of this discipline can be in.
    pub open spec fn uses(self, phase: Phase) -> bool {
        match self {
            Discipline::Required => phase != Phase::Allowed,
            Discipline::Accumulating => phase != Phase::Done,
        }
    }

    /// The phase in which the field lets the builder be finalized.
    pub open spec fn terminal(self) -> Phase {
        match self {
            Discipline::Required => Phase::Done,
            Discipline::Accumulating => Phase::Allowed,
        }
    }

    /// The slot is in a phase of this discipline, and holds zero as long
    /// as it is `ToDo`.
    pub open spec fn wf(self, slot: Slot) -> bool {
        &&& self.uses(slot.phase)
        &&& slot.phase == Phase::ToDo ==> slot.value == 0
    }

    /// One setter call with value `v`.
    ///
    /// From `ToDo` the value is stored and the field reaches its terminal
    /// phase.  An accumulating field that is `Allowed` combines `v` into
    /// what it holds.  Every other call is rejected: a required field
    /// that is `Done`, and a phase that the discipline does not use.
    pub open spec fn set(self, slot: Slot, v: nat) -> Result<Slot, PhaseError> {
        if slot.phase == Phase::ToDo {
            Ok(Slot { phase: self.terminal(), value: v })
        } else if self == Discipline::Accumulating && slot.phase == Phase::Allowed {
            Ok(Slot { phase: Phase::Allowed, value: combine(slot.value, v) })
        } else {
            Err(PhaseError::InvalidTransition)
        }
    }

    /// The setter called once for each value of `vs`, in order, on a
    /// fresh field.
    pub open spec fn replay(self, vs: Seq<nat>) -> Result<Slot, PhaseError>
        decreases vs.len(),
    {
        if vs.len() == 0 {
            Ok(Slot::fresh())
        } else {
            match self.replay(vs.drop_last()) {
                Ok(slot) => self.set(slot, vs.last()),
                Err(e) => Err(e),
            }
        }
    }

    /// A setter call that succeeds keeps the slot well formed and leaves
    /// it in the terminal phase.
    pub proof fn lemma_set_keeps_wf(self, slot: Slot, v: nat)
        requires
            self.wf(slot),
        ensures
            self.set(slot, v) matches Ok(next) ==> self.wf(next) && next.phase == self.terminal(),
    {
    }

    /// A required field takes one value and rejects every later one.
    /// Replaying no value leaves it fresh, one value leaves it `Done`
    /// with that value, and more than one is an invalid transition.
    pub proof fn lemma_replay_required(vs: Seq<nat>)
        ensures
            vs.len() == 0 ==> Discipline::Required.replay(vs) == Ok::<Slot, PhaseError>(
                Slot::fresh(),
            ),
            vs.len() == 1 ==> Discipline::Required.replay(vs) == Ok::<Slot, PhaseError>(
                (Slot { phase: Phase::Done, value: vs[0] }),
            ),
            vs.len() > 1 ==> Discipline::Required.replay(vs) == Err::<Slot, PhaseError>(
                PhaseError::InvalidTransition,
            ),
        decreases vs.len(),
    {
        if vs.len() > 0 {
            Self::lemma_replay_required(vs.drop_last());
        }
    }

    /// An accumulating field never rejects a value.  Replaying no value
    /// leaves it fresh; after one or more it is `Allowed` and holds the
    /// values folded from left to right.
    pub proof fn lemma_replay_accumulating(vs: Seq<nat>)
        ensures
            vs.len() == 0 ==> Discipline::Accumulating.replay(vs) == Ok::<Slot, PhaseError>(
                Slot::fresh(),
            ),
            vs.len() > 0 ==> Discipline::Accumulating.replay(vs) == Ok::<Slot, PhaseError>(
                (Slot { phase: Phase::Allowed, value: folded(vs) }),
            ),
        decreases vs.len(),
    {
        if vs.len() > 0 {
            Self::lemma_replay_accumulating(vs.drop_last());
        }
    }
}

/// With addition as the combining operation the folded value is the sum
/// of the values: one more value adds to it.
pub proof fn lemma_folded_is_sum(vs: Seq<nat>, v: nat)
    ensures
        folded(Seq::empty()) == 0,
        folded(vs.push(v)) == folded(vs) + v,
{
    assert(vs.push(v).drop_last() =~= vs);
}

} // verus!
