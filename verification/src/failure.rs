//! Capsules that carry a host failure through the runtime, and the pool
//! that recycles them.
//!
//! A capsule is an object on the runtime's heap that can hold one host error
//! or one captured panic. Every call of a host function reserves one before
//! any host code runs, so that a failure can always be reported. A call that
//! succeeds returns its reservation; a call that fails turns it into the
//! capsule it raises. Unused capsules are parked on the auxiliary reference
//! stack between calls.

use crate::error::Error;
use crate::extra::{ExtraData, ExtraDataView};
use crate::ref_stack::{
    lemma_grow_finds_unused_slot, lemma_pop_finds_unused_slot, RefStackPop, RefStackView,
};
use vstd::prelude::*;

verus! {

/// Position, in the frame of a call, of a capsule that was allocated for the
/// call: below everything else.
pub const FAILURE_INDEX: i32 = 1;

/// Room on the stack of a call that is asked for before a capsule is put
/// there.
pub const FAILURE_RESERVE: i32 = 2;

/// What a capsule holds once a call has failed.
#[derive(Debug)]
pub enum WrappedFailure<P> {
    /// A structured host error.
    Error(Error),
    /// The payload of a host panic, kept as it was caught.
    Panic(P),
}

/// The reservation of one capsule for one call. It is settled once, by
/// [`PreallocatedFailure::release`] when the call succeeded or by
/// [`PreallocatedFailure::materialize`] when it failed.
#[derive(Debug, PartialEq, Eq)]
pub enum PreallocatedFailure {
    /// A capsule allocated for this call, by its handle. It sits at
    /// [`FAILURE_INDEX`] in the call's frame.
    New(usize),
    /// One of the capsules parked on the auxiliary stack.
    Reserved,
}

/// The capsule a failed call writes its failure to.
#[derive(Debug, Clone, Copy, PartialEq, Eq)]
pub enum FailureSlot {
    /// The capsule allocated for this call, by its handle. The caller cuts
    /// the frame back to [`FAILURE_INDEX`], where the capsule is.
    New(usize),
    /// The capsule parked in this slot of the auxiliary stack. The caller
    /// clears the frame, asks for [`FAILURE_RESERVE`] values of room, copies
    /// the capsule from the slot onto the frame and clears the slot.
    Parked(i32),
}

impl<V> ExtraDataView<V> {
    /// Whether `token` can be settled in this state: a reservation from the
    /// pool needs a parked capsule that is not idle.
    pub open spec fn holds(self, token: PreallocatedFailure) -> bool {
        token is Reserved ==> self.reserved() > 0
    }

    /// Reserving a capsule: an idle one if there is any. Otherwise nothing
    /// changes and the caller allocates one.
    pub open spec fn reserve(self) -> (ExtraDataView<V>, Option<PreallocatedFailure>) {
        if self.idle > 0 {
            (ExtraDataView { idle: (self.idle - 1) as nat, ..self }, Some(PreallocatedFailure::Reserved))
        } else {
            (self, None)
        }
    }

    /// Turning a reservation into a capsule to write to. A parked capsule
    /// leaves the pool, and its slot is given back.
    pub open spec fn materialize(self, token: PreallocatedFailure) -> (ExtraDataView<V>, FailureSlot) {
        match token {
            PreallocatedFailure::New(handle) => (self, FailureSlot::New(handle)),
            PreallocatedFailure::Reserved => (
                ExtraDataView {
                    refs: self.refs.release(self.pool.last()),
                    pool: self.pool.drop_last(),
                    ..self
                },
                FailureSlot::Parked(self.pool.last()),
            ),
        }
    }

    /// The outcome of looking for a slot for a capsule that is to be parked:
    /// once a slot is found the capsule is idle in it.
    pub open spec fn parked_by(self, step: RefStackPop) -> ExtraDataView<V> {
        match step {
            RefStackPop::Replace(index) => self.park(index),
            RefStackPop::Keep(index) => self.park(index),
            _ => self,
        }
    }

    /// Returning an unused reservation. A reserved capsule is idle again. A
    /// new capsule is moved to the auxiliary stack; the second part is what
    /// the caller does with it there.
    pub open spec fn release(self, token: PreallocatedFailure) -> (ExtraDataView<V>, Option<RefStackPop>) {
        match token {
            PreallocatedFailure::New(_) => (
                self.ref_stack_pop().0.parked_by(self.ref_stack_pop().1),
                Some(self.ref_stack_pop().1),
            ),
            PreallocatedFailure::Reserved => (ExtraDataView { idle: self.idle + 1, ..self }, None),
        }
    }

    /// The runtime's answer to a request for more slots that was made to
    /// park a new capsule.
    pub open spec fn release_grown(self, requested: int, granted: bool) -> (ExtraDataView<V>, RefStackPop) {
        (
            self.ref_stack_grow(requested, granted).0.parked_by(self.ref_stack_grow(requested, granted).1),
            self.ref_stack_grow(requested, granted).1,
        )
    }
}

impl PreallocatedFailure {
    /// Reserves a capsule for a call that is about to run host code. `None`
    /// means that no parked capsule is idle: the caller then asks for
    /// [`FAILURE_RESERVE`] values of room, allocates a new capsule, puts it at
    /// [`FAILURE_INDEX`] in the call's frame and reserves it as
    /// [`PreallocatedFailure::New`].
    pub fn reserve<V>(extra: &mut ExtraData<V>) -> (token: Option<PreallocatedFailure>)
        requires
            old(extra)@.wf(),
        ensures
            (final(extra)@, token) == old(extra)@.reserve(),
            final(extra)@.wf(),
            token matches Some(token) ==> final(extra)@.holds(token),
    {
        if extra.wrapped_failure_top > 0 {
            extra.wrapped_failure_top -= 1;
            return Some(PreallocatedFailure::Reserved);
        }
        None
    }

    /// Turns the reservation of a failed call into the capsule that the
    /// failure is written to.
    pub fn materialize<V>(self, extra: &mut ExtraData<V>) -> (slot: FailureSlot)
        requires
            old(extra)@.wf(),
            old(extra)@.holds(self),
        ensures
            (final(extra)@, slot) == old(extra)@.materialize(self),
            final(extra)@.wf(),
    {
        match self {
            PreallocatedFailure::New(handle) => FailureSlot::New(handle),
            PreallocatedFailure::Reserved => {
                let index = extra.wrapped_failure_pool.pop().unwrap();
                proof {
                    let before = old(extra)@;
                    let last = before.pool.len() - 1;
                    assert(before.refs.occupied(before.pool[last] as int));
                }
                extra.refs.free_slot(index);
                proof {
                    let before = old(extra)@;
                    let after = extra@;
                    let last = before.pool.len() - 1;
                    assert forall|k: int| 0 <= k < after.pool.len() implies after.refs.occupied(
                        #[trigger] after.pool[k] as int,
                    ) by {
                        assert(before.refs.occupied(before.pool[k] as int));
                        assert(before.pool[k] != before.pool[last]);
                    }
                }
                FailureSlot::Parked(index)
            },
        }
    }

    /// Returns the reservation of a call that succeeded. `None` means that
    /// there is nothing to move. Otherwise the caller moves the new capsule
    /// from the call's frame to the top of the auxiliary stack and follows
    /// the step; a request to grow is answered with
    /// [`PreallocatedFailure::release_grown`].
    pub fn release<V>(self, extra: &mut ExtraData<V>) -> (step: Option<RefStackPop>)
        requires
            old(extra)@.wf(),
            old(extra)@.holds(self),
        ensures
            (final(extra)@, step) == old(extra)@.release(self),
            final(extra)@.wf(),
    {
        match self {
            PreallocatedFailure::New(_) => {
                let step = extra.refs.ref_stack_pop();
                proof {
                    lemma_pop_finds_unused_slot(old(extra)@.refs);
                }
                park_found(extra, step, Ghost(old(extra)@.refs));
                Some(step)
            },
            PreallocatedFailure::Reserved => {
                assert(extra.wrapped_failure_pool.len() == extra@.pool.len());
                extra.wrapped_failure_top += 1;
                None
            },
        }
    }

    /// Records the runtime's answer to a request for more slots that
    /// [`PreallocatedFailure::release`] or an earlier answer ended with.
    pub fn release_grown<V>(extra: &mut ExtraData<V>, requested: i32, granted: bool) -> (step:
        RefStackPop)
        requires
            old(extra)@.wf(),
            0 < requested <= i32::MAX - old(extra)@.refs.size,
        ensures
            (final(extra)@, step) == old(extra)@.release_grown(requested as int, granted),
            final(extra)@.wf(),
    {
        let step = extra.refs.ref_stack_grow(requested, granted);
        proof {
            lemma_grow_finds_unused_slot(old(extra)@.refs, requested as int, granted);
        }
        park_found(extra, step, Ghost(old(extra)@.refs));
        step
    }
}

/// Adds the slot that `step` found, if it found one, to the idle capsules.
/// The slot pinned nothing in `earlier`, the stack that the search started
/// from.
fn park_found<V>(extra: &mut ExtraData<V>, step: RefStackPop, Ghost(earlier): Ghost<RefStackView>)
    requires
        old(extra)@.refs.wf(),
        old(extra)@.idle <= old(extra)@.pool.len(),
        old(extra)@.pool.no_duplicates(),
        forall|k: int|
            0 <= k < old(extra)@.pool.len() ==> earlier.occupied(#[trigger] old(extra)@.pool[k] as int)
                && old(extra)@.refs.occupied(old(extra)@.pool[k] as int),
        match step {
            RefStackPop::Replace(index) | RefStackPop::Keep(index) => !earlier.occupied(index as int)
                && old(extra)@.refs.occupied(index as int),
            _ => true,
        },
    ensures
        final(extra)@ == old(extra)@.parked_by(step),
        final(extra)@.wf(),
{
    match step {
        RefStackPop::Replace(index) | RefStackPop::Keep(index) => {
            proof {
                lemma_park_keeps_wf(extra@, earlier, index);
            }
            extra.wrapped_failure_pool.push(index);
            assert(extra.wrapped_failure_pool.len() == extra@.pool.len());
            extra.wrapped_failure_top += 1;
        },
        _ => {},
    }
}

impl<V> ExtraDataView<V> {
    /// Returning an unused reservation, with a runtime that grants every
    /// request to grow at once.
    pub open spec fn released(self, token: PreallocatedFailure) -> ExtraDataView<V> {
        match self.release(token).1 {
            Some(RefStackPop::Grow(requested)) => self.release(token).0.release_grown(requested as int, true).0,
            _ => self.release(token).0,
        }
    }

    /// The reservation that a call gets in this state: a parked capsule if
    /// one is idle, else a new one.
    pub open spec fn reservation(self) -> PreallocatedFailure {
        match self.reserve().1 {
            Some(token) => token,
            None => PreallocatedFailure::New(0),
        }
    }

    /// The state after `depth` calls that run inside one another and all
    /// succeed: each reserves a capsule when it starts and returns it when
    /// it ends, the innermost first.
    pub open spec fn nested_calls(self, depth: nat) -> ExtraDataView<V>
        decreases depth,
    {
        if depth == 0 {
            self
        } else {
            self.reserve().0.nested_calls((depth - 1) as nat).released(self.reservation())
        }
    }
}

/// The deepest of the given nestings.
pub open spec fn deepest(depths: Seq<nat>) -> nat
    decreases depths.len(),
{
    if depths.len() == 0 {
        0
    } else if deepest(depths.drop_last()) >= depths.last() {
        deepest(depths.drop_last())
    } else {
        depths.last()
    }
}

impl<V> ExtraDataView<V> {
    /// The state after one round of nested calls for each of `depths`, in
    /// their order: every round has ended before the next one starts.
    pub open spec fn rounds(self, depths: Seq<nat>) -> ExtraDataView<V>
        decreases depths.len(),
    {
        if depths.len() == 0 {
            self
        } else {
            self.rounds(depths.drop_last()).nested_calls(depths.last())
        }
    }

    /// Whether the auxiliary stack can take the capsules that calls nested
    /// `depth` deep need beyond the idle ones.
    pub open spec fn has_room_for(self, depth: nat) -> bool {
        depth > self.idle ==> self.refs.size >= 1 && self.refs.top + depth - self.idle <= i32::MAX
    }
}

/// Calls that run inside one another and all succeed leave as many
/// capsules idle as the deepest nesting needed, or as were idle before if
/// that is more. Each capsule that was not there before takes one slot of
/// the auxiliary stack; no other slot is taken or lost. Where enough
/// capsules are idle to begin with, the calls leave everything as it was.
pub proof fn lemma_nested_calls<V>(state: ExtraDataView<V>, depth: nat)
    requires
        state.wf(),
        state.has_room_for(depth),
    ensures
        state.nested_calls(depth).wf(),
        state.nested_calls(depth).idle == if state.idle >= depth {
            state.idle
        } else {
            depth
        },
        state.nested_calls(depth).reserved() == state.reserved(),
        state.nested_calls(depth).refs.in_use() == state.refs.in_use() + state.nested_calls(depth).idle
            - state.idle,
        state.nested_calls(depth).refs.size >= state.refs.size,
        state.nested_calls(depth).refs.top <= state.refs.top + state.nested_calls(depth).idle - state.idle,
        state.idle >= depth ==> state.nested_calls(depth) == state,
    decreases depth,
{
    if depth > 0 {
        let inner = (depth - 1) as nat;
        let entered = state.reserve().0;
        let token = state.reservation();
        lemma_nested_calls(entered, inner);
        let before = entered.nested_calls(inner);
        if state.idle > 0 {
            assert(token == PreallocatedFailure::Reserved);
            if state.idle >= depth {
                assert(before == entered);
                assert(before.released(token) == state);
            }
        } else {
            assert(token == PreallocatedFailure::New(0));
            assert(before.idle == inner);
            lemma_pop_finds_unused_slot(before.refs);
            let step = before.refs.pop().1;
            match step {
                RefStackPop::Replace(index) => {
                    lemma_park_keeps_wf(before.ref_stack_pop().0, before.refs, index);
                },
                RefStackPop::Keep(index) => {
                    lemma_park_keeps_wf(before.ref_stack_pop().0, before.refs, index);
                },
                RefStackPop::Grow(requested) => {
                    lemma_grow_finds_unused_slot(before.refs, requested as int, true);
                    let grown = before.ref_stack_grow(requested as int, true);
                    lemma_park_keeps_wf(grown.0, before.refs, (before.refs.top + 1) as i32);
                },
                RefStackPop::Exhausted(_) => {
                    assert(false);
                },
            }
        }
    }
}

/// However many rounds of nested calls follow one another, the idle
/// capsules end up as many as the deepest round needed, or as were idle
/// before if that is more; each capsule that was not there before takes one
/// slot of the auxiliary stack, and no other slot is taken or lost. Rounds
/// that never go deeper than there are idle capsules leave everything as it
/// was: the steady state.
pub proof fn lemma_rounds<V>(state: ExtraDataView<V>, depths: Seq<nat>)
    requires
        state.wf(),
        forall|k: int| 0 <= k < depths.len() ==> state.has_room_for(#[trigger] depths[k]),
    ensures
        state.rounds(depths).wf(),
        state.rounds(depths).idle == if state.idle >= deepest(depths) {
            state.idle
        } else {
            deepest(depths)
        },
        state.rounds(depths).reserved() == state.reserved(),
        state.rounds(depths).refs.in_use() == state.refs.in_use() + state.rounds(depths).idle - state.idle,
        state.rounds(depths).refs.size >= state.refs.size,
        state.rounds(depths).refs.top <= state.refs.top + state.rounds(depths).idle - state.idle,
        state.idle >= deepest(depths) ==> state.rounds(depths) == state,
    decreases depths.len(),
{
    if depths.len() > 0 {
        let earlier = depths.drop_last();
        lemma_rounds(state, earlier);
        let before = state.rounds(earlier);
        assert(state.has_room_for(depths[depths.len() - 1]));
        lemma_nested_calls(before, depths.last());
    }
}

/// A capsule parked in a slot that pinned nothing in an earlier state of
/// the stack, in which every parked capsule was pinned already, keeps the
/// state well formed.
proof fn lemma_park_keeps_wf<V>(state: ExtraDataView<V>, earlier: RefStackView, index: i32)
    requires
        state.refs.wf(),
        state.idle <= state.pool.len(),
        state.pool.no_duplicates(),
        forall|k: int|
            0 <= k < state.pool.len() ==> earlier.occupied(#[trigger] state.pool[k] as int)
                && state.refs.occupied(state.pool[k] as int),
        !earlier.occupied(index as int),
        state.refs.occupied(index as int),
    ensures
        state.park(index).wf(),
{
    let parked = state.park(index);
    assert forall|i: int, j: int| 0 <= i < parked.pool.len() && 0 <= j < parked.pool.len() && i != j implies parked.pool[i]
        != parked.pool[j] by {
        if i < state.pool.len() {
            assert(earlier.occupied(state.pool[i] as int));
        }
        if j < state.pool.len() {
            assert(earlier.occupied(state.pool[j] as int));
        }
    }
}

} // verus!
