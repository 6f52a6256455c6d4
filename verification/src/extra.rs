//! The record of shared state that accompanies one instance of the runtime.
//!
//! It owns the slot bookkeeping of the auxiliary reference stack, the pool of
//! failure capsules parked on that stack, and the values a host function has
//! set aside for suspending its call.

use crate::ref_stack::{
    lemma_grow_finds_unused_slot, lemma_pop_finds_unused_slot, RefStack, RefStackPop, RefStackView,
};
use vstd::prelude::*;

verus! {

/// The mathematical state of an [`ExtraData`].
pub struct ExtraDataView<V> {
    /// The auxiliary reference stack.
    pub refs: RefStackView,
    /// Slots of the auxiliary stack that hold a failure capsule, most
    /// recently parked last.
    pub pool: Seq<i32>,
    /// How many of the parked capsules no running call has reserved.
    pub idle: nat,
    /// Values set aside to be handed over when the current call suspends.
    pub yielded: Seq<V>,
}

impl<V> ExtraDataView<V> {
    /// The state of a new record over a stack of `size` slots.
    pub open spec fn fresh(size: int) -> ExtraDataView<V> {
        ExtraDataView { refs: RefStackView::fresh(size), pool: Seq::empty(), idle: 0, yielded: Seq::empty() }
    }

    /// The stack is well formed; every parked capsule sits in a slot of its
    /// own that pins it; no more capsules are idle than are parked.
    pub open spec fn wf(self) -> bool {
        &&& self.refs.wf()
        &&& self.idle <= self.pool.len()
        &&& self.pool.no_duplicates()
        &&& forall|k: int| 0 <= k < self.pool.len() ==> self.refs.occupied(#[trigger] self.pool[k] as int)
    }

    /// Number of parked capsules that running calls have reserved.
    pub open spec fn reserved(self) -> int {
        self.pool.len() - self.idle
    }

    /// Whether the slot `index` holds a parked capsule.
    pub open spec fn parked(self, index: int) -> bool {
        exists|k: int| 0 <= k < self.pool.len() && self.pool[k] == index
    }

    /// Whether the slot `index` pins a value other than a parked capsule.
    pub open spec fn pinned(self, index: int) -> bool {
        self.refs.occupied(index) && !self.parked(index)
    }

    /// A slot request on the auxiliary stack.
    pub open spec fn ref_stack_pop(self) -> (ExtraDataView<V>, RefStackPop) {
        (ExtraDataView { refs: self.refs.pop().0, ..self }, self.refs.pop().1)
    }

    /// The runtime's answer to a request for `requested` more slots.
    pub open spec fn ref_stack_grow(self, requested: int, granted: bool) -> (ExtraDataView<V>, RefStackPop) {
        (
            ExtraDataView { refs: self.refs.grow(requested, granted).0, ..self },
            self.refs.grow(requested, granted).1,
        )
    }

    /// Giving back the slot `index`.
    pub open spec fn free_slot(self, index: i32) -> ExtraDataView<V> {
        ExtraDataView { refs: self.refs.release(index), ..self }
    }

    /// The capsule in slot `index` joins the idle ones.
    pub open spec fn park(self, index: i32) -> ExtraDataView<V> {
        ExtraDataView { pool: self.pool.push(index), idle: self.idle + 1, ..self }
    }
}

/// Shared state of one instance of the runtime.
pub struct ExtraData<V> {
    pub(crate) refs: RefStack,
    pub(crate) wrapped_failure_pool: Vec<i32>,
    pub(crate) wrapped_failure_top: usize,
    pub(crate) yielded_values: Vec<V>,
}

impl<V> View for ExtraData<V> {
    type V = ExtraDataView<V>;

    open(crate) spec fn view(&self) -> ExtraDataView<V> {
        ExtraDataView {
            refs: self.refs@,
            pool: self.wrapped_failure_pool@,
            idle: self.wrapped_failure_top as nat,
            yielded: self.yielded_values@,
        }
    }
}

impl<V> ExtraData<V> {
    /// A record for a runtime whose auxiliary stack has `ref_stack_size`
    /// slots.
    pub fn new(ref_stack_size: i32) -> (extra: ExtraData<V>)
        requires
            ref_stack_size >= 0,
        ensures
            extra@ == ExtraDataView::<V>::fresh(ref_stack_size as int),
            extra@.wf(),
    {
        ExtraData {
            refs: RefStack::new(ref_stack_size),
            wrapped_failure_pool: Vec::new(),
            wrapped_failure_top: 0,
            yielded_values: Vec::new(),
        }
    }

    /// The auxiliary reference stack.
    pub fn ref_stack(&self) -> (refs: &RefStack)
        ensures
            refs@ == self@.refs,
    {
        &self.refs
    }

    /// Number of parked capsules that no running call has reserved.
    pub fn idle_failures(&self) -> (idle: usize)
        ensures
            idle == self@.idle,
    {
        self.wrapped_failure_top
    }

    /// Number of capsules parked on the auxiliary stack.
    pub fn parked_failures(&self) -> (parked: usize)
        ensures
            parked == self@.pool.len(),
    {
        self.wrapped_failure_pool.len()
    }

    /// Whether the slot `index` pins a value other than a parked capsule.
    pub fn is_pinned(&self, index: i32) -> (pinned: bool)
        ensures
            pinned == self@.pinned(index as int),
    {
        if !self.refs.is_occupied(index) {
            return false;
        }
        let mut at: usize = 0;
        while at < self.wrapped_failure_pool.len()
            invariant
                at <= self.wrapped_failure_pool.len(),
                forall|k: int| 0 <= k < at ==> self.wrapped_failure_pool@[k] != index,
            decreases self.wrapped_failure_pool.len() - at,
        {
            if self.wrapped_failure_pool[at] == index {
                assert(self@.pool[at as int] == index);
                return false;
            }
            at += 1;
        }
        true
    }

    /// Gives back the slot `index` of a value that no longer has to be kept.
    /// The caller clears the slot in the runtime so that it no longer keeps
    /// its value alive.
    pub fn free_slot(&mut self, index: i32)
        requires
            old(self)@.wf(),
            old(self)@.pinned(index as int),
        ensures
            final(self)@ == old(self)@.free_slot(index),
            final(self)@.wf(),
    {
        self.refs.free_slot(index);
        proof {
            let before = old(self)@;
            let after = self@;
            assert forall|k: int| 0 <= k < after.pool.len() implies after.refs.occupied(
                #[trigger] after.pool[k] as int,
            ) by {
                assert(before.refs.occupied(before.pool[k] as int));
                assert(before.pool[k] != index);
            }
        }
    }

    /// Sets `value` aside to be handed over when the current call suspends.
    pub fn push_yielded(&mut self, value: V)
        ensures
            final(self)@ == (ExtraDataView { yielded: old(self)@.yielded.push(value), ..old(self)@ }),
    {
        self.yielded_values.push(value);
    }

    /// Number of values set aside for suspending the current call.
    pub fn yielded_len(&self) -> (n: usize)
        ensures
            n == self@.yielded.len(),
    {
        self.yielded_values.len()
    }
}

/// Finds a slot on the auxiliary stack for the value on top of it.
pub fn ref_stack_pop<V>(extra: &mut ExtraData<V>) -> (step: RefStackPop)
    requires
        old(extra)@.wf(),
    ensures
        (final(extra)@, step) == old(extra)@.ref_stack_pop(),
        final(extra)@.wf(),
{
    let step = extra.refs.ref_stack_pop();
    proof {
        lemma_pop_finds_unused_slot(old(extra)@.refs);
    }
    step
}

/// Records the runtime's answer to a [`RefStackPop::Grow`] request.
pub fn ref_stack_grow<V>(extra: &mut ExtraData<V>, requested: i32, granted: bool) -> (step:
    RefStackPop)
    requires
        old(extra)@.wf(),
        0 < requested <= i32::MAX - old(extra)@.refs.size,
    ensures
        (final(extra)@, step) == old(extra)@.ref_stack_grow(requested as int, granted),
        final(extra)@.wf(),
{
    let step = extra.refs.ref_stack_grow(requested, granted);
    proof {
        lemma_grow_finds_unused_slot(old(extra)@.refs, requested as int, granted);
    }
    step
}

} // verus!
