//! Slot bookkeeping for the auxiliary reference stack.
//!
//! The auxiliary stack is a second execution context of the runtime that is
//! never run: it only stores values that have to outlive a single call. A
//! value is pinned there under a stable slot index. This module decides which
//! slot a value gets and when the stack has to grow; the caller moves the
//! values and asks the runtime for room.

use vstd::prelude::*;

verus! {

/// What the caller has to do with the value that sits on top of the
/// auxiliary stack.
#[derive(Debug, Clone, Copy, PartialEq, Eq)]
pub enum RefStackPop {
    /// Move the value into this recycled slot; the slot is its index.
    Replace(i32),
    /// Leave the value where it is: the top of the stack is its slot.
    Keep(i32),
    /// Ask the runtime for this many more slots and report the answer with
    /// [`RefStack::ref_stack_grow`].
    Grow(i32),
    /// No room can be had. Remove the value from the stack and fail; the
    /// number is the count of slots handed out so far.
    Exhausted(i32),
}

/// The mathematical state of a [`RefStack`].
pub struct RefStackView {
    /// Slots the runtime has granted.
    pub size: int,
    /// Highest slot index handed out so far.
    pub top: int,
    /// Slots that were given back, most recent last.
    pub free: Seq<i32>,
}

impl RefStackView {
    /// A stack of `size` slots, none of them handed out.
    pub open spec fn fresh(size: int) -> RefStackView {
        RefStackView { size, top: 0, free: Seq::empty() }
    }

    /// A stack of `size` slots of which the first `top` were handed out and
    /// none was given back.
    pub open spec fn filled(size: int, top: int) -> RefStackView {
        RefStackView { size, top, free: Seq::empty() }
    }

    /// The handed-out range never exceeds the granted size, and the free list
    /// names each free slot once, inside the handed-out range.
    pub open spec fn wf(self) -> bool {
        &&& 0 <= self.top <= self.size <= i32::MAX
        &&& self.free.no_duplicates()
        &&& forall|k: int| 0 <= k < self.free.len() ==> 1 <= #[trigger] self.free[k] <= self.top
    }

    /// Whether `index` currently pins a value.
    pub open spec fn occupied(self, index: int) -> bool {
        1 <= index <= self.top && !(exists|k: int| 0 <= k < self.free.len() && self.free[k] == index)
    }

    /// Number of slots that pin a value.
    pub open spec fn in_use(self) -> int {
        self.top - self.free.len()
    }

    /// The first amount to ask for when the stack is full: as much again as
    /// it already has, or whatever still fits the index type.
    pub open spec fn first_growth(self) -> int {
        if self.size <= i32::MAX - self.size {
            self.size
        } else {
            i32::MAX - self.size
        }
    }

    /// One slot request: the state afterwards, and the caller's next move.
    pub open spec fn pop(self) -> (RefStackView, RefStackPop) {
        if self.free.len() > 0 {
            (RefStackView { free: self.free.drop_last(), ..self }, RefStackPop::Replace(self.free.last()))
        } else if self.top < self.size {
            (RefStackView { top: self.top + 1, ..self }, RefStackPop::Keep((self.top + 1) as i32))
        } else if self.first_growth() == 0 {
            (self, RefStackPop::Exhausted(self.top as i32))
        } else {
            (self, RefStackPop::Grow(self.first_growth() as i32))
        }
    }

    /// The runtime's answer to a request for `requested` more slots: when it
    /// was granted the value keeps the next slot, otherwise half as much is
    /// asked for, until nothing is left to ask.
    pub open spec fn grow(self, requested: int, granted: bool) -> (RefStackView, RefStackPop) {
        if granted {
            (
                RefStackView { size: self.size + requested, top: self.top + 1, ..self },
                RefStackPop::Keep((self.top + 1) as i32),
            )
        } else if requested / 2 == 0 {
            (self, RefStackPop::Exhausted(self.top as i32))
        } else {
            (self, RefStackPop::Grow((requested / 2) as i32))
        }
    }

    /// Giving back the slot `index`.
    pub open spec fn release(self, index: i32) -> RefStackView {
        RefStackView { free: self.free.push(index), ..self }
    }
}

/// Slot allocator of the auxiliary reference stack.
pub struct RefStack {
    size: i32,
    top: i32,
    free: Vec<i32>,
}

impl View for RefStack {
    type V = RefStackView;

    closed spec fn view(&self) -> RefStackView {
        RefStackView { size: self.size as int, top: self.top as int, free: self.free@ }
    }
}

impl RefStack {
    /// A stack for which the runtime has granted `size` slots.
    pub fn new(size: i32) -> (stack: RefStack)
        requires
            size >= 0,
        ensures
            stack@ == RefStackView::fresh(size as int),
            stack@.wf(),
    {
        RefStack { size, top: 0, free: Vec::new() }
    }

    /// Number of slots the runtime has granted.
    pub fn size(&self) -> (size: i32)
        ensures
            size == self@.size,
    {
        self.size
    }

    /// Highest slot index handed out so far.
    pub fn top(&self) -> (top: i32)
        ensures
            top == self@.top,
    {
        self.top
    }

    /// Number of slots waiting on the free list.
    pub fn free_len(&self) -> (n: usize)
        ensures
            n == self@.free.len(),
    {
        self.free.len()
    }

    /// Whether `index` currently pins a value.
    pub fn is_occupied(&self, index: i32) -> (occupied: bool)
        ensures
            occupied == self@.occupied(index as int),
    {
        if index < 1 || index > self.top {
            return false;
        }
        let mut at: usize = 0;
        while at < self.free.len()
            invariant
                at <= self.free.len(),
                forall|k: int| 0 <= k < at ==> self.free@[k] != index,
            decreases self.free.len() - at,
        {
            if self.free[at] == index {
                assert(self@.free[at as int] == index);
                return false;
            }
            at += 1;
        }
        true
    }

    /// Finds a slot for the value on top of the auxiliary stack: a recycled
    /// one if there is any, else the next unused one, else it asks the caller
    /// to have the stack grown.
    pub fn ref_stack_pop(&mut self) -> (step: RefStackPop)
        requires
            old(self)@.wf(),
        ensures
            (final(self)@, step) == old(self)@.pop(),
            final(self)@.wf(),
    {
        if let Some(free) = self.free.pop() {
            return RefStackPop::Replace(free);
        }
        if self.top < self.size {
            self.top += 1;
            return RefStackPop::Keep(self.top);
        }
        let room: i32 = i32::MAX - self.size;
        let increment: i32 = if self.size <= room {
            self.size
        } else {
            room
        };
        if increment == 0 {
            RefStackPop::Exhausted(self.top)
        } else {
            RefStackPop::Grow(increment)
        }
    }

    /// Records the runtime's answer to a [`RefStackPop::Grow`] request.
    pub fn ref_stack_grow(&mut self, requested: i32, granted: bool) -> (step: RefStackPop)
        requires
            old(self)@.wf(),
            0 < requested <= i32::MAX - old(self)@.size,
        ensures
            (final(self)@, step) == old(self)@.grow(requested as int, granted),
            final(self)@.wf(),
    {
        if granted {
            self.size += requested;
            self.top += 1;
            return RefStackPop::Keep(self.top);
        }
        let increment: i32 = requested / 2;
        if increment == 0 {
            RefStackPop::Exhausted(self.top)
        } else {
            RefStackPop::Grow(increment)
        }
    }

    /// Gives the slot `index` back. The caller clears the slot in the runtime
    /// so that it no longer keeps its value alive.
    pub fn free_slot(&mut self, index: i32)
        requires
            old(self)@.wf(),
            old(self)@.occupied(index as int),
        ensures
            final(self)@ == old(self)@.release(index),
            final(self)@.wf(),
    {
        self.free.push(index);
    }
}

/// The slot that a request finds pins nothing before the request and pins
/// the value after it, lies within the granted size, and no other slot
/// changes: two values never share a slot. A request that finds no slot
/// changes nothing.
pub proof fn lemma_pop_finds_unused_slot(stack: RefStackView)
    requires
        stack.wf(),
    ensures
        stack.pop().0.wf(),
        match stack.pop().1 {
            RefStackPop::Replace(index) | RefStackPop::Keep(index) => {
                &&& !stack.occupied(index as int)
                &&& stack.pop().0.occupied(index as int)
                &&& 1 <= index <= stack.pop().0.size
                &&& stack.pop().0.in_use() == stack.in_use() + 1
                &&& forall|other: int|
                    other != index ==> stack.pop().0.occupied(other) == stack.occupied(other)
            },
            _ => stack.pop().0 == stack,
        },
{
    let after = stack.pop().0;
    if stack.free.len() > 0 {
        let index = stack.free.last();
        let last = stack.free.len() - 1;
        assert(stack.free[last] == index);
        assert forall|other: int| other != index implies after.occupied(other) == stack.occupied(other) by {
            if exists|k: int| 0 <= k < stack.free.len() && stack.free[k] == other {
                let k = choose|k: int| 0 <= k < stack.free.len() && stack.free[k] == other;
                assert(after.free[k] == other);
            }
            if exists|k: int| 0 <= k < after.free.len() && after.free[k] == other {
                let k = choose|k: int| 0 <= k < after.free.len() && after.free[k] == other;
                assert(stack.free[k] == other);
            }
        }
        assert(after.occupied(index as int)) by {
            if exists|k: int| 0 <= k < after.free.len() && after.free[k] == index {
                let k = choose|k: int| 0 <= k < after.free.len() && after.free[k] == index;
                assert(stack.free[k] == stack.free[last]);
            }
        }
    }
}

/// The slot that a granted request to grow gives pins nothing before and
/// pins the value after, lies within the new size, and no other slot
/// changes. A refused request changes nothing but what is asked for next,
/// which is less each time.
pub proof fn lemma_grow_finds_unused_slot(stack: RefStackView, requested: int, granted: bool)
    requires
        stack.wf(),
        0 < requested <= i32::MAX - stack.size,
    ensures
        stack.grow(requested, granted).0.wf(),
        match stack.grow(requested, granted).1 {
            RefStackPop::Keep(index) => {
                &&& granted
                &&& !stack.occupied(index as int)
                &&& stack.grow(requested, granted).0.occupied(index as int)
                &&& 1 <= index <= stack.grow(requested, granted).0.size
                &&& stack.grow(requested, granted).0.size == stack.size + requested
                &&& stack.grow(requested, granted).0.in_use() == stack.in_use() + 1
                &&& forall|other: int|
                    other != index ==> stack.grow(requested, granted).0.occupied(other) == stack.occupied(
                        other,
                    )
            },
            RefStackPop::Grow(next) => !granted && 0 < next < requested && stack.grow(requested, granted).0
                == stack,
            _ => !granted && stack.grow(requested, granted).0 == stack,
        },
{
}

/// A stack of `capacity` slots takes one value more than it has slots, if
/// the runtime lets it grow: the first `capacity` values get the slots 1 to
/// `capacity`; for the next one the stack asks for as many slots again, and
/// once they are granted the value gets the slot `capacity + 1` of a stack
/// twice the size. So the slots handed out are all different and none lies
/// beyond the new size.
pub proof fn lemma_one_more_than_capacity(capacity: int)
    requires
        1 <= capacity <= i32::MAX / 2,
    ensures
        RefStackView::filled(capacity, 0) == RefStackView::fresh(capacity),
        forall|taken: int|
            0 <= taken < capacity ==> #[trigger] RefStackView::filled(capacity, taken).pop() == (
                RefStackView::filled(capacity, taken + 1),
                RefStackPop::Keep((taken + 1) as i32),
            ),
        RefStackView::filled(capacity, capacity).pop() == (
            RefStackView::filled(capacity, capacity),
            RefStackPop::Grow(capacity as i32),
        ),
        RefStackView::filled(capacity, capacity).grow(capacity, true) == (
            RefStackView::filled(2 * capacity, capacity + 1),
            RefStackPop::Keep((capacity + 1) as i32),
        ),
        RefStackView::filled(2 * capacity, capacity + 1).wf(),
        capacity + 1 <= 2 * capacity,
{
}

} // verus!
