use lua_bridge::ref_stack::{RefStack, RefStackPop};

fn slot(step: RefStackPop) -> i32 {
    match step {
        RefStackPop::Replace(index) | RefStackPop::Keep(index) => index,
        other => panic!("no slot: {:?}", other),
    }
}

#[test]
fn fresh_stack_hands_out_slots_in_order() {
    let mut stack = RefStack::new(3);
    assert_eq!(stack.ref_stack_pop(), RefStackPop::Keep(1));
    assert_eq!(stack.ref_stack_pop(), RefStackPop::Keep(2));
    assert_eq!(stack.ref_stack_pop(), RefStackPop::Keep(3));
    assert_eq!(stack.top(), 3);
    assert_eq!(stack.size(), 3);
    assert_eq!(stack.free_len(), 0);
}

#[test]
fn freed_slot_is_reused_before_a_new_one() {
    let mut stack = RefStack::new(4);
    assert_eq!(stack.ref_stack_pop(), RefStackPop::Keep(1));
    assert_eq!(stack.ref_stack_pop(), RefStackPop::Keep(2));
    assert!(stack.is_occupied(1));
    stack.free_slot(1);
    assert!(!stack.is_occupied(1));
    assert_eq!(stack.free_len(), 1);
    assert_eq!(stack.ref_stack_pop(), RefStackPop::Replace(1));
    assert!(stack.is_occupied(1));
    assert_eq!(stack.top(), 2);
    assert_eq!(stack.ref_stack_pop(), RefStackPop::Keep(3));
}

#[test]
fn last_freed_slot_is_reused_first() {
    let mut stack = RefStack::new(4);
    for _ in 0..3 {
        stack.ref_stack_pop();
    }
    stack.free_slot(1);
    stack.free_slot(3);
    assert_eq!(stack.ref_stack_pop(), RefStackPop::Replace(3));
    assert_eq!(stack.ref_stack_pop(), RefStackPop::Replace(1));
    assert_eq!(stack.ref_stack_pop(), RefStackPop::Keep(4));
}

#[test]
fn occupied_is_false_outside_the_handed_out_range() {
    let mut stack = RefStack::new(4);
    stack.ref_stack_pop();
    assert!(stack.is_occupied(1));
    assert!(!stack.is_occupied(0));
    assert!(!stack.is_occupied(-1));
    assert!(!stack.is_occupied(2));
    assert!(!stack.is_occupied(i32::MAX));
}

#[test]
fn full_stack_asks_for_as_much_again() {
    let mut stack = RefStack::new(2);
    stack.ref_stack_pop();
    stack.ref_stack_pop();
    assert_eq!(stack.ref_stack_pop(), RefStackPop::Grow(2));
    assert_eq!(stack.size(), 2);
    assert_eq!(stack.top(), 2);
    assert_eq!(stack.ref_stack_grow(2, true), RefStackPop::Keep(3));
    assert_eq!(stack.size(), 4);
    assert_eq!(stack.top(), 3);
}

#[test]
fn one_more_than_capacity_gets_distinct_slots_within_twice_the_size() {
    let capacity = 8;
    let mut stack = RefStack::new(capacity);
    let mut slots = Vec::new();
    for _ in 0..capacity + 1 {
        let step = match stack.ref_stack_pop() {
            RefStackPop::Grow(requested) => {
                assert_eq!(requested, capacity);
                stack.ref_stack_grow(requested, true)
            }
            step => step,
        };
        slots.push(slot(step));
    }
    assert_eq!(slots, vec![1, 2, 3, 4, 5, 6, 7, 8, 9]);
    assert_eq!(stack.size(), 2 * capacity);
    for (at, one) in slots.iter().enumerate() {
        assert!(*one <= stack.size());
        assert!(stack.is_occupied(*one));
        for other in &slots[at + 1..] {
            assert_ne!(one, other);
        }
    }
}

#[test]
fn refused_growth_is_asked_again_at_half() {
    let mut stack = RefStack::new(6);
    for _ in 0..6 {
        stack.ref_stack_pop();
    }
    assert_eq!(stack.ref_stack_pop(), RefStackPop::Grow(6));
    assert_eq!(stack.ref_stack_grow(6, false), RefStackPop::Grow(3));
    assert_eq!(stack.ref_stack_grow(3, false), RefStackPop::Grow(1));
    assert_eq!(stack.size(), 6);
    assert_eq!(stack.ref_stack_grow(1, true), RefStackPop::Keep(7));
    assert_eq!(stack.size(), 7);
    assert_eq!(stack.top(), 7);
}

#[test]
fn growth_refused_down_to_nothing_is_exhaustion() {
    let mut stack = RefStack::new(2);
    stack.ref_stack_pop();
    stack.ref_stack_pop();
    assert_eq!(stack.ref_stack_pop(), RefStackPop::Grow(2));
    assert_eq!(stack.ref_stack_grow(2, false), RefStackPop::Grow(1));
    assert_eq!(stack.ref_stack_grow(1, false), RefStackPop::Exhausted(2));
    assert_eq!(stack.size(), 2);
    assert_eq!(stack.top(), 2);
}

#[test]
fn stack_without_slots_is_exhausted_at_once() {
    let mut stack = RefStack::new(0);
    assert_eq!(stack.ref_stack_pop(), RefStackPop::Exhausted(0));
    assert_eq!(stack.top(), 0);
}
