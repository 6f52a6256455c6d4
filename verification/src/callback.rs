//! What happens around one call of a host function by the runtime.
//!
//! Before the host function runs, the caller reserves a failure capsule
//! (see [`PreallocatedFailure::reserve`]). It then runs the host function so
//! that a panic is caught, and hands what came of it to
//! [`callback_error_ext`] or [`callback_error_ext_yieldable`]. These settle
//! the reservation and say how the call ends: with its results, by
//! suspending, or by raising a capsule that holds the failure. No host
//! failure ever leaves a call in another way.

use crate::error::{Error, ErrorView};
use crate::extra::{ExtraData, ExtraDataView};
use crate::failure::{FailureSlot, PreallocatedFailure, WrappedFailure};
use crate::ref_stack::RefStackPop;
use vstd::prelude::*;

verus! {

/// The traceback of a failure for whose capture the runtime had no stack
/// space left.
pub const NO_TRACEBACK: &'static str = "<not enough stack space for traceback>";

/// What came of running a host function with panics caught.
#[derive(Debug)]
pub enum CallOutcome<R, P> {
    /// It returned a value.
    Return(R),
    /// It returned an error.
    Error(Error),
    /// It panicked with this payload.
    Panic(P),
}

/// How the caller ends the call.
#[derive(Debug)]
pub enum CallbackStep<R, V, P> {
    /// Return `value`. If `park` is a step, the caller first moves the
    /// unused capsule from the frame to the auxiliary stack and follows it.
    Return { value: R, park: Option<RefStackPop> },
    /// Encode `values` on the stack and report the result, together with
    /// `prealloc`, to [`callback_yield`].
    Encode { values: Vec<V>, prealloc: PreallocatedFailure },
    /// Suspend the call with the topmost `results` encoded values. If `park`
    /// is a step, the caller first moves the unused capsule from the frame to
    /// the auxiliary stack and follows it; then it drops the frame and moves
    /// the values over.
    Yield { results: i32, park: Option<RefStackPop> },
    /// Write `failure` to `capsule` and raise it.
    Raise { capsule: FailureSlot, failure: WrappedFailure<P> },
    /// Capture a traceback, write the error that [`callback_error`] makes of
    /// it and `error` to `capsule`, and raise it.
    Traceback { capsule: FailureSlot, error: Error },
}

impl<V> ExtraDataView<V> {
    /// The same state with nothing set aside for suspending.
    pub open spec fn without_yielded(self) -> ExtraDataView<V> {
        ExtraDataView { yielded: Seq::empty(), ..self }
    }
}

/// How a call ends whose host function failed with `error`: undecorated
/// when `wrap_error` is off, else after a traceback was captured for it.
pub open spec fn error_step<R, V, P>(capsule: FailureSlot, wrap_error: bool, error: Error) -> CallbackStep<
    R,
    V,
    P,
> {
    if wrap_error {
        CallbackStep::Traceback { capsule, error }
    } else {
        CallbackStep::Raise { capsule, failure: WrappedFailure::Error(error) }
    }
}

/// Settles the failure of a host function: the reservation becomes the
/// capsule, and the failure is what it will hold.
fn callback_failed<R, V, P>(
    extra: &mut ExtraData<V>,
    prealloc: PreallocatedFailure,
    wrap_error: bool,
    failure: WrappedFailure<P>,
) -> (step: CallbackStep<R, V, P>)
    requires
        old(extra)@.wf(),
        old(extra)@.holds(prealloc),
    ensures
        final(extra)@.wf(),
        final(extra)@ == old(extra)@.materialize(prealloc).0,
        step == match failure {
            WrappedFailure::Error(error) => error_step::<R, V, P>(
                old(extra)@.materialize(prealloc).1,
                wrap_error,
                error,
            ),
            WrappedFailure::Panic(payload) => CallbackStep::Raise {
                capsule: old(extra)@.materialize(prealloc).1,
                failure: WrappedFailure::Panic(payload),
            },
        },
{
    let capsule = prealloc.materialize(extra);
    match failure {
        WrappedFailure::Error(error) => {
            if wrap_error {
                CallbackStep::Traceback { capsule, error }
            } else {
                CallbackStep::Raise { capsule, failure: WrappedFailure::Error(error) }
            }
        },
        WrappedFailure::Panic(payload) => CallbackStep::Raise { capsule, failure: WrappedFailure::Panic(payload) },
    }
}

/// Ends a call of a host function that returns one value.
///
/// On success nothing stays set aside for suspending, the reservation is
/// returned and the value is handed back as it is. An error goes into the
/// capsule as it is when `wrap_error` is off; otherwise it will be decorated
/// with a traceback and kept as the cause. A panic goes into the capsule
/// with the very payload that was caught.
pub fn callback_error_ext<R, V, P>(
    extra: &mut ExtraData<V>,
    prealloc: PreallocatedFailure,
    wrap_error: bool,
    outcome: CallOutcome<R, P>,
) -> (step: CallbackStep<R, V, P>)
    requires
        old(extra)@.wf(),
        old(extra)@.holds(prealloc),
    ensures
        final(extra)@.wf(),
        match outcome {
            CallOutcome::Return(value) => {
                &&& final(extra)@ == old(extra)@.without_yielded().release(prealloc).0
                &&& step == CallbackStep::<R, V, P>::Return {
                    value,
                    park: old(extra)@.release(prealloc).1,
                }
            },
            CallOutcome::Error(error) => {
                &&& final(extra)@ == old(extra)@.materialize(prealloc).0
                &&& step == error_step::<R, V, P>(old(extra)@.materialize(prealloc).1, wrap_error, error)
            },
            CallOutcome::Panic(payload) => {
                &&& final(extra)@ == old(extra)@.materialize(prealloc).0
                &&& step == CallbackStep::<R, V, P>::Raise {
                    capsule: old(extra)@.materialize(prealloc).1,
                    failure: WrappedFailure::Panic(payload),
                }
            },
        },
{
    match outcome {
        CallOutcome::Return(value) => {
            extra.yielded_values.clear();
            let park = prealloc.release(extra);
            CallbackStep::Return { value, park }
        },
        CallOutcome::Error(error) => callback_failed(extra, prealloc, wrap_error, WrappedFailure::Error(error)),
        CallOutcome::Panic(payload) => callback_failed(
            extra,
            prealloc,
            wrap_error,
            WrappedFailure::Panic(payload),
        ),
    }
}

/// Ends a call of a host function that returns a result count and may
/// suspend the call.
///
/// It differs from [`callback_error_ext`] on success only: when values were
/// set aside for suspending, they are taken out to be encoded and the
/// reservation stays open until [`callback_yield`] has the result and
/// settles it.
pub fn callback_error_ext_yieldable<V, P>(
    extra: &mut ExtraData<V>,
    prealloc: PreallocatedFailure,
    wrap_error: bool,
    outcome: CallOutcome<i32, P>,
) -> (step: CallbackStep<i32, V, P>)
    requires
        old(extra)@.wf(),
        old(extra)@.holds(prealloc),
    ensures
        final(extra)@.wf(),
        match outcome {
            CallOutcome::Return(value) => if old(extra)@.yielded.len() > 0 {
                &&& final(extra)@ == old(extra)@.without_yielded()
                &&& step matches CallbackStep::Encode { values, prealloc: kept }
                &&& values@ == old(extra)@.yielded
                &&& kept == prealloc
            } else {
                &&& final(extra)@ == old(extra)@.release(prealloc).0
                &&& step == CallbackStep::<i32, V, P>::Return {
                    value,
                    park: old(extra)@.release(prealloc).1,
                }
            },
            CallOutcome::Error(error) => {
                &&& final(extra)@ == old(extra)@.materialize(prealloc).0
                &&& step == error_step::<i32, V, P>(old(extra)@.materialize(prealloc).1, wrap_error, error)
            },
            CallOutcome::Panic(payload) => {
                &&& final(extra)@ == old(extra)@.materialize(prealloc).0
                &&& step == CallbackStep::<i32, V, P>::Raise {
                    capsule: old(extra)@.materialize(prealloc).1,
                    failure: WrappedFailure::Panic(payload),
                }
            },
        },
{
    match outcome {
        CallOutcome::Return(value) => {
            let mut values: Vec<V> = Vec::new();
            std::mem::swap(&mut extra.yielded_values, &mut values);
            if values.len() > 0 {
                return CallbackStep::Encode { values, prealloc };
            }
            assert(extra@.yielded =~= old(extra)@.yielded);
            let park = prealloc.release(extra);
            CallbackStep::Return { value, park }
        },
        CallOutcome::Error(error) => callback_failed(extra, prealloc, wrap_error, WrappedFailure::Error(error)),
        CallOutcome::Panic(payload) => callback_failed(
            extra,
            prealloc,
            wrap_error,
            WrappedFailure::Panic(payload),
        ),
    }
}

/// Ends a call that suspends, once the values it hands over are encoded.
///
/// `Ok` holds the number of encoded values: the call has succeeded, so the
/// reservation is returned as on any success, and the call suspends with
/// the values. `Err` holds the message of the failure to encode them: it is
/// raised from the capsule like any other host error, undecorated. Either
/// way the reservation is settled, once.
pub fn callback_yield<V, P>(
    extra: &mut ExtraData<V>,
    prealloc: PreallocatedFailure,
    encoded: Result<i32, String>,
) -> (step: CallbackStep<i32, V, P>)
    requires
        old(extra)@.wf(),
        old(extra)@.holds(prealloc),
    ensures
        final(extra)@.wf(),
        match encoded {
            Ok(results) => {
                &&& final(extra)@ == old(extra)@.release(prealloc).0
                &&& step == CallbackStep::<i32, V, P>::Yield {
                    results,
                    park: old(extra)@.release(prealloc).1,
                }
            },
            Err(message) => {
                &&& final(extra)@ == old(extra)@.materialize(prealloc).0
                &&& step == CallbackStep::<i32, V, P>::Raise {
                    capsule: old(extra)@.materialize(prealloc).1,
                    failure: WrappedFailure::Error(Error::ExternalError(message)),
                }
            },
        },
{
    match encoded {
        Ok(results) => {
            let park = prealloc.release(extra);
            CallbackStep::Yield { results, park }
        },
        Err(message) => callback_failed(extra, prealloc, false, WrappedFailure::Error(Error::external(message))),
    }
}

/// Decorates the error of a host function with the traceback that was
/// captured for it, or with [`NO_TRACEBACK`] when none could be captured.
/// The error itself is kept, shared, as the cause.
pub fn callback_error(error: Error, traceback: Option<String>) -> (wrapped: Error)
    ensures
        wrapped@ == ErrorView::callback_error(
            match traceback {
                Some(text) => text@,
                None => NO_TRACEBACK@,
            },
            error@,
        ),
        wrapped matches Error::CallbackError { cause, .. } && *cause == error,
{
    let traceback = match traceback {
        Some(text) => text,
        None => NO_TRACEBACK.to_owned(),
    };
    Error::CallbackError { traceback, cause: std::sync::Arc::new(error) }
}

/// Makes one execution context of the runtime the current one for as long
/// as a call lasts, and remembers which one it replaced.
#[derive(Debug)]
pub struct StateGuard<S> {
    previous: S,
}

impl<S> StateGuard<S> {
    /// The context that was current before the guard was made.
    pub closed spec fn previous(self) -> S {
        self.previous
    }

    /// Makes `state` the current context and keeps the one it replaces.
    pub fn new(current: &mut S, state: S) -> (guard: StateGuard<S>)
        ensures
            *final(current) == state,
            guard.previous() == *old(current),
    {
        let mut state = state;
        std::mem::swap(current, &mut state);
        StateGuard { previous: state }
    }

    /// Makes the context that the guard replaced current again. Guards are
    /// restored in the reverse order of their making, on every way out of
    /// the call.
    pub fn restore(self, current: &mut S)
        ensures
            *final(current) == self.previous(),
    {
        *current = self.previous;
    }
}

} // verus!
