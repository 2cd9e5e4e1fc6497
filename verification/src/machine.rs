//! The builder as a state machine: three fields side by side, each
//! following its own discipline.
//!
//! One rule per field is all there is.  A setter call looks at the slot
//! of its own field and at nothing else, so the eight composite phases
//! need no table of their own.  The laws at the end of this module are
//! the consequences: the outcome of a sequence of calls is decided field
//! by field, and does not depend on the order of the calls.

use vstd::prelude::*;
use crate::lattice::{combine, folded, Discipline, Phase, PhaseError, Slot};

verus! {

/// The fields of the builder.
pub enum Field {
    A,
    B,
    C,
}

impl Field {
    /// `a` and `b` are required, `c` accumulates.
    pub open spec fn discipline(self) -> Discipline {
        match self {
            Field::A => Discipline::Required,
            Field::B => Discipline::Required,
            Field::C => Discipline::Accumulating,
        }
    }
}

/// One call of a setter.
pub struct Call {
    pub field: Field,
    pub value: nat,
}

impl Call {
    /// The setter of `a` called with `v`.
    pub open spec fn a(v: nat) -> Call {
        Call { field: Field::A, value: v }
    }

    /// The setter of `b` called with `v`.
    pub open spec fn b(v: nat) -> Call {
        Call { field: Field::B, value: v }
    }

    /// The setter of `c` called with `v`.
    pub open spec fn c(v: nat) -> Call {
        Call { field: Field::C, value: v }
    }
}

/// The values of the three fields.
pub struct Record {
    pub a: nat,
    pub b: nat,
    pub c: nat,
}

/// The state of a builder: one slot per field.
pub struct BuildState {
    pub a: Slot,
    pub b: Slot,
    pub c: Slot,
}

impl BuildState {
    /// The state of a new builder: every field fresh.
    pub open spec fn create() -> BuildState {
        BuildState { a: Slot::fresh(), b: Slot::fresh(), c: Slot::fresh() }
    }

    /// The slot of field `f`.
    pub open spec fn slot(self, f: Field) -> Slot {
        match f {
            Field::A => self.a,
            Field::B => self.b,
            Field::C => self.c,
        }
    }

    /// This state with `slot` in place of the slot of field `f`.
    pub open spec fn with_slot(self, f: Field, slot: Slot) -> BuildState {
        match f {
            Field::A => BuildState { a: slot, ..self },
            Field::B => BuildState { b: slot, ..self },
            Field::C => BuildState { c: slot, ..self },
        }
    }

    /// Every slot is well formed for the discipline of its field.
    pub open spec fn wf(self) -> bool {
        &&& Field::A.discipline().wf(self.a)
        &&& Field::B.discipline().wf(self.b)
        &&& Field::C.discipline().wf(self.c)
    }

    /// One setter call: the rule of the call's field applied to the slot
    /// of that field, the other slots as they were.
    pub open spec fn set(self, call: Call) -> Result<BuildState, PhaseError> {
        match call.field.discipline().set(self.slot(call.field), call.value) {
            Ok(slot) => Ok(self.with_slot(call.field, slot)),
            Err(e) => Err(e),
        }
    }

    /// The calls made one after the other, stopping at the first that is
    /// rejected.
    pub open spec fn run(self, calls: Seq<Call>) -> Result<BuildState, PhaseError>
        decreases calls.len(),
    {
        if calls.len() == 0 {
            Ok(self)
        } else {
            advance(self.run(calls.drop_last()), calls.last())
        }
    }

    /// Every field is in the terminal phase of its discipline.
    pub open spec fn complete(self) -> bool {
        &&& self.a.phase == Field::A.discipline().terminal()
        &&& self.b.phase == Field::B.discipline().terminal()
        &&& self.c.phase == Field::C.discipline().terminal()
    }

    /// The values stored in the three slots.
    pub open spec fn record(self) -> Record {
        Record { a: self.a.value, b: self.b.value, c: self.c.value }
    }

    /// The record of a complete state; an incomplete one is rejected.
    /// The state itself is not touched.
    pub open spec fn finalize(self) -> Result<Record, PhaseError> {
        if self.complete() {
            Ok(self.record())
        } else {
            Err(PhaseError::IncompleteBuilder)
        }
    }
}

/// One more call after a run: it is made on the state that the run
/// reached, and nothing is made after a rejection.
pub open spec fn advance(run: Result<BuildState, PhaseError>, call: Call) -> Result<
    BuildState,
    PhaseError,
> {
    match run {
        Ok(state) => state.set(call),
        Err(e) => Err(e),
    }
}

/// The values that `calls` supply to field `f`, in call order.
pub open spec fn history(calls: Seq<Call>, f: Field) -> Seq<nat>
    decreases calls.len(),
{
    if calls.len() == 0 {
        Seq::empty()
    } else if calls.last().field == f {
        history(calls.drop_last(), f).push(calls.last().value)
    } else {
        history(calls.drop_last(), f)
    }
}

/// Three fields that were each driven on their own, put side by side.
/// If any of them rejected a call, so does the whole.
pub open spec fn side_by_side(
    a: Result<Slot, PhaseError>,
    b: Result<Slot, PhaseError>,
    c: Result<Slot, PhaseError>,
) -> Result<BuildState, PhaseError> {
    match (a, b, c) {
        (Ok(a), Ok(b), Ok(c)) => Ok(BuildState { a, b, c }),
        _ => Err(PhaseError::InvalidTransition),
    }
}

/// What the values supplied to each field build.
///
/// It is an invalid transition if a required field was set more than
/// once, otherwise an incomplete builder if some field was never set, and
/// otherwise the record of the one value of `a`, the one value of `b`, and
/// the values of `c` folded from left to right.
pub open spec fn built_from(a: Seq<nat>, b: Seq<nat>, c: Seq<nat>) -> Result<Record, PhaseError> {
    if a.len() > 1 || b.len() > 1 {
        Err(PhaseError::InvalidTransition)
    } else if a.len() == 0 || b.len() == 0 || c.len() == 0 {
        Err(PhaseError::IncompleteBuilder)
    } else {
        Ok(Record { a: a[0], b: b[0], c: folded(c) })
    }
}

/// What a new builder gives when `calls` are made on it and it is then
/// finalized.
pub open spec fn outcome(calls: Seq<Call>) -> Result<Record, PhaseError> {
    match BuildState::create().run(calls) {
        Ok(state) => state.finalize(),
        Err(e) => Err(e),
    }
}

/// [`advance`] as a value, for folding.
spec fn advancer() -> spec_fn(Result<BuildState, PhaseError>, Call) -> Result<
    BuildState,
    PhaseError,
> {
    |acc: Result<BuildState, PhaseError>, call: Call| advance(acc, call)
}

/// A run is the left fold of [`advance`] over the calls.
proof fn lemma_run_is_fold(state: BuildState, calls: Seq<Call>)
    ensures
        state.run(calls) == calls.fold_left(Ok(state), advancer()),
    decreases calls.len(),
{
    if calls.len() > 0 {
        lemma_run_is_fold(state, calls.drop_last());
    }
}

/// Two calls made in either order come to the same, from any state and
/// also after a rejection.
proof fn lemma_calls_commute(acc: Result<BuildState, PhaseError>, x: Call, y: Call)
    ensures
        advance(advance(acc, x), y) == advance(advance(acc, y), x),
{
}

impl BuildState {
    /// A new builder is well formed.
    pub proof fn lemma_create_wf()
        ensures
            Self::create().wf(),
            !Self::create().complete(),
    {
    }

    /// A setter call rewrites the slot of its own field and no other, and
    /// whether it is accepted depends on that slot alone.
    pub proof fn lemma_set_is_local(self, call: Call)
        ensures
            self.set(call) is Ok <==> call.field.discipline().set(
                self.slot(call.field),
                call.value,
            ) is Ok,
            self.set(call) matches Ok(next) ==> Ok::<Slot, PhaseError>(next.slot(call.field))
                == call.field.discipline().set(self.slot(call.field), call.value),
            self.set(call) matches Ok(next) ==> forall|other: Field|
                other != call.field ==> next.slot(other) == self.slot(other),
            self.set(call) matches Err(e) ==> e == PhaseError::InvalidTransition,
    {
    }

    /// A setter call keeps the state well formed.
    pub proof fn lemma_set_keeps_wf(self, call: Call)
        requires
            self.wf(),
        ensures
            self.set(call) matches Ok(next) ==> next.wf(),
    {
    }

    /// A run keeps the state well formed.
    pub proof fn lemma_run_keeps_wf(self, calls: Seq<Call>)
        requires
            self.wf(),
        ensures
            self.run(calls) matches Ok(last) ==> last.wf(),
        decreases calls.len(),
    {
        if calls.len() > 0 {
            self.lemma_run_keeps_wf(calls.drop_last());
            if let Ok(state) = self.run(calls.drop_last()) {
                state.lemma_set_keeps_wf(calls.last());
            }
        }
    }

    /// A required field is set once.  The call that sets it leaves it
    /// `Done` with the value of that call, and from then on every call on
    /// that field is an invalid transition: there is no state after it in
    /// which the stored value could differ.
    pub proof fn lemma_required_set_once(self, call: Call, again: nat)
        requires
            call.field.discipline() == Discipline::Required,
            self.set(call) is Ok,
        ensures
            self.set(call) matches Ok(next) && next.slot(call.field) == (Slot {
                phase: Phase::Done,
                value: call.value,
            }) && next.set((Call { field: call.field, value: again })) == Err::<
                BuildState,
                PhaseError,
            >(PhaseError::InvalidTransition),
    {
    }

    /// A call on a required field that is `Done` is an invalid
    /// transition, whatever the other fields hold.
    pub proof fn lemma_done_rejects(self, call: Call)
        requires
            call.field.discipline() == Discipline::Required,
            self.slot(call.field).phase == Phase::Done,
        ensures
            self.set(call) == Err::<BuildState, PhaseError>(PhaseError::InvalidTransition),
    {
    }

    /// The value of a required field that is `Done` is final: whatever
    /// calls follow, every state they reach holds the same slot for it.
    pub proof fn lemma_done_stays(self, f: Field, calls: Seq<Call>)
        requires
            f.discipline() == Discipline::Required,
            self.slot(f).phase == Phase::Done,
        ensures
            self.run(calls) matches Ok(last) ==> last.slot(f) == self.slot(f),
        decreases calls.len(),
    {
        if calls.len() > 0 {
            self.lemma_done_stays(f, calls.drop_last());
        }
    }

    /// A run with one more call at its end is the run without it,
    /// followed by that call.
    pub proof fn lemma_run_one_more(self, calls: Seq<Call>, call: Call)
        ensures
            self.run(Seq::empty()) == Ok::<BuildState, PhaseError>(self),
            self.run(calls.push(call)) == advance(self.run(calls), call),
    {
        assert(calls.push(call).drop_last() =~= calls);
    }

    /// A run that ends in a rejected call is rejected as a whole, and so
    /// is every longer run.
    pub proof fn lemma_run_stops_at_rejection(self, calls: Seq<Call>, more: Seq<Call>)
        requires
            self.run(calls) is Err,
        ensures
            self.run(calls + more) == self.run(calls),
        decreases more.len(),
    {
        if more.len() == 0 {
            assert(calls + more =~= calls);
        } else {
            self.lemma_run_stops_at_rejection(calls, more.drop_last());
            assert((calls + more).drop_last() =~= calls + more.drop_last());
        }
    }

    /// An accumulating field takes every value.  On a well-formed state
    /// the call is accepted, the field is then `Allowed`, and it holds the
    /// value alone after the first call and the stored value combined
    /// with it after a later one.
    pub proof fn lemma_accumulating_always_set(self, call: Call)
        requires
            self.wf(),
            call.field.discipline() == Discipline::Accumulating,
        ensures
            self.set(call) matches Ok(next) && next.slot(call.field).phase == Phase::Allowed,
            self.set(call) matches Ok(next) ==> (self.slot(call.field).phase == Phase::ToDo
                ==> next.slot(call.field).value == call.value),
            self.set(call) matches Ok(next) ==> (self.slot(call.field).phase == Phase::Allowed
                ==> next.slot(call.field).value == combine(
                self.slot(call.field).value,
                call.value,
            )),
    {
    }

    /// Finalizing succeeds exactly on a complete state.  It is an
    /// incomplete-builder error as soon as one field is still `ToDo`.
    pub proof fn lemma_finalize_needs_every_field(self)
        ensures
            self.complete() ==> self.finalize() == Ok::<Record, PhaseError>(self.record()),
            !self.complete() ==> self.finalize() == Err::<Record, PhaseError>(
                PhaseError::IncompleteBuilder,
            ),
            (exists|f: Field| self.slot(f).phase == Phase::ToDo) ==> self.finalize() == Err::<
                Record,
                PhaseError,
            >(PhaseError::IncompleteBuilder),
            self.wf() && !self.complete() ==> exists|f: Field| self.slot(f).phase == Phase::ToDo,
    {
        if self.wf() && !self.complete() {
            if self.a.phase == Phase::ToDo {
                assert(self.slot(Field::A).phase == Phase::ToDo);
            } else if self.b.phase == Phase::ToDo {
                assert(self.slot(Field::B).phase == Phase::ToDo);
            } else {
                assert(self.slot(Field::C).phase == Phase::ToDo);
            }
        }
    }

    /// A complete state stays complete.  It rejects the setters of the
    /// required fields, accepts the setter of the accumulating field, and
    /// that call changes nothing but the accumulated value.
    pub proof fn lemma_complete_is_stable(self, call: Call)
        requires
            self.complete(),
        ensures
            call.field.discipline() == Discipline::Required ==> self.set(call) == Err::<
                BuildState,
                PhaseError,
            >(PhaseError::InvalidTransition),
            call.field.discipline() == Discipline::Accumulating ==> self.set(call) == Ok::<
                BuildState,
                PhaseError,
            >(
                self.with_slot(
                    call.field,
                    (Slot {
                        phase: Phase::Allowed,
                        value: combine(self.slot(call.field).value, call.value),
                    }),
                ),
            ),
            self.set(call) matches Ok(next) ==> next.complete(),
    {
    }

    /// The order of the calls does not matter: two sequences that hold
    /// the same calls, each as often as the other, drive a state to the
    /// same result, be it a state or a rejection.
    pub proof fn lemma_order_independent(self, calls: Seq<Call>, shuffled: Seq<Call>)
        requires
            calls.to_multiset() == shuffled.to_multiset(),
        ensures
            self.run(calls) == self.run(shuffled),
    {
        let f = advancer();
        assert forall|x: Call, y: Call, acc: Result<BuildState, PhaseError>|
            #[trigger] f(f(acc, x), y) == f(f(acc, y), x) by {
            lemma_calls_commute(acc, x, y);
        }
        vstd::seq_lib::lemma_fold_left_permutation(calls, shuffled, f, Ok(self));
        lemma_run_is_fold(self, calls);
        lemma_run_is_fold(self, shuffled);
    }
}

/// The fields do not see each other.  What a sequence of calls makes of
/// a new builder is what each field makes of its own history, the three
/// put side by side.
pub proof fn lemma_run_field_by_field(calls: Seq<Call>)
    ensures
        BuildState::create().run(calls) == side_by_side(
            Field::A.discipline().replay(history(calls, Field::A)),
            Field::B.discipline().replay(history(calls, Field::B)),
            Field::C.discipline().replay(history(calls, Field::C)),
        ),
    decreases calls.len(),
{
    if calls.len() > 0 {
        let before = calls.drop_last();
        let call = calls.last();
        lemma_run_field_by_field(before);
        assert(history(before, call.field).push(call.value).drop_last() =~= history(
            before,
            call.field,
        ));
    }
}

/// What building gives can be read off the histories of the three
/// fields, whatever the order in which the calls were made.
pub proof fn lemma_outcome_by_history(calls: Seq<Call>)
    ensures
        outcome(calls) == built_from(
            history(calls, Field::A),
            history(calls, Field::B),
            history(calls, Field::C),
        ),
{
    lemma_run_field_by_field(calls);
    Discipline::lemma_replay_required(history(calls, Field::A));
    Discipline::lemma_replay_required(history(calls, Field::B));
    Discipline::lemma_replay_accumulating(history(calls, Field::C));
}

/// Building does not depend on the order of the calls: the same calls in
/// another order give the same record, or the same rejection.
pub proof fn lemma_outcome_order_independent(calls: Seq<Call>, shuffled: Seq<Call>)
    requires
        calls.to_multiset() == shuffled.to_multiset(),
    ensures
        outcome(calls) == outcome(shuffled),
{
    BuildState::create().lemma_order_independent(calls, shuffled);
}

} // verus!
