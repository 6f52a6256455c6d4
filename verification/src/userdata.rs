//! Host objects as the runtime sees them, and the guard around every call of
//! a registered callable.
//!
//! A [`Callback`] is a callable of a host type together with what it needs
//! to protect the host object: it finds the self argument of a call, checks
//! that it is the expected host object, and borrows it for as long as the
//! call lasts.

use crate::error::{Error, ErrorView};
use crate::lock::{Borrow, UserDataLock};
use std::any::TypeId;
use vstd::prelude::*;

verus! {

/// `std::any::TypeId`, the identifier of a host type: carried around and
/// compared, never looked into.
#[verifier::external_type_specification]
#[verifier::external_body]
pub struct ExTypeId(TypeId);

/// `std::any::TypeId`'s `==`: two type identifiers compare equal exactly when
/// they are the same identifier.
#[verifier::external_body]
fn same_type(left: &TypeId, right: &TypeId) -> (same: bool)
    ensures
        same == (*left == *right),
{
    left == right
}

/// How the self argument of a method is recognised.
#[derive(Debug, Clone, Copy)]
pub enum UserDataType {
    /// Any object of the registered host type with this identifier.
    Shared(TypeId),
    /// The one object at this address.
    Unique(usize),
}

impl UserDataType {
    /// The identifier of the registered host type, if the host type is
    /// registered.
    pub fn type_id(&self) -> (id: Option<TypeId>)
        ensures
            id == self.spec_type_id(),
    {
        match self {
            UserDataType::Shared(id) => Some(*id),
            UserDataType::Unique(_) => None,
        }
    }

    /// The identifier of the registered host type, if the host type is
    /// registered.
    pub open spec fn spec_type_id(self) -> Option<TypeId> {
        match self {
            UserDataType::Shared(id) => Some(id),
            UserDataType::Unique(_) => None,
        }
    }

    /// Whether `object` is an object that methods of this kind may run on.
    pub open spec fn accepts(self, object: SelfObject) -> bool {
        match self {
            UserDataType::Shared(id) => object.type_id == Some(id),
            UserDataType::Unique(address) => object.address == address,
        }
    }
}

/// What the runtime knows of the value in the self position of a call.
#[derive(Debug, Clone, Copy)]
pub struct SelfObject {
    /// Where the object lives.
    pub address: usize,
    /// The identifier of its host type; `None` if it is not an object of a
    /// registered host type.
    pub type_id: Option<TypeId>,
}

/// The kinds of value the runtime has.
#[derive(Debug, Clone, Copy, PartialEq, Eq)]
pub enum ValueKind {
    Nil,
    Boolean,
    LightUserData,
    Integer,
    Number,
    String,
    Table,
    Function,
    Thread,
    UserData,
    Error,
    Other,
}

impl ValueKind {
    /// The name of the kind, as the runtime spells it.
    pub open spec fn spec_name(self) -> Seq<char> {
        match self {
            ValueKind::Nil => "nil"@,
            ValueKind::Boolean => "boolean"@,
            ValueKind::LightUserData => "lightuserdata"@,
            ValueKind::Integer => "integer"@,
            ValueKind::Number => "number"@,
            ValueKind::String => "string"@,
            ValueKind::Table => "table"@,
            ValueKind::Function => "function"@,
            ValueKind::Thread => "thread"@,
            ValueKind::UserData => "userdata"@,
            ValueKind::Error => "error"@,
            ValueKind::Other => "other"@,
        }
    }

    /// The name of the kind, as the runtime spells it.
    pub fn name(&self) -> (name: &'static str)
        ensures
            name@ == self.spec_name(),
    {
        match self {
            ValueKind::Nil => "nil",
            ValueKind::Boolean => "boolean",
            ValueKind::LightUserData => "lightuserdata",
            ValueKind::Integer => "integer",
            ValueKind::Number => "number",
            ValueKind::String => "string",
            ValueKind::Table => "table",
            ValueKind::Function => "function",
            ValueKind::Thread => "thread",
            ValueKind::UserData => "userdata",
            ValueKind::Error => "error",
            ValueKind::Other => "other",
        }
    }

    /// Whether a protocol field for reading or writing keys can hold a value
    /// of this kind.
    pub open spec fn indexes(self) -> bool {
        self is Nil || self is Table || self is Function
    }
}

/// A value of the runtime, by its kind and whatever the caller keeps of it.
#[derive(Debug)]
pub struct Value<V> {
    pub kind: ValueKind,
    pub data: V,
}

/// The shapes a registered callable can have.
#[derive(Debug, Clone, Copy, PartialEq, Eq)]
pub enum CallbackKind {
    /// Takes the host object by shared borrow.
    Method,
    /// Takes the host object by exclusive borrow and may change its own
    /// state.
    MethodMut,
    /// Takes no host object.
    Function,
    /// Takes no host object and may change its own state.
    FunctionMut,
}

impl CallbackKind {
    /// Whether the first argument of a call is the host object.
    pub open spec fn is_method(self) -> bool {
        self is Method || self is MethodMut
    }

    /// Whether the callable may change its own state, so that it cannot be
    /// entered again while it runs.
    pub open spec fn is_mut(self) -> bool {
        self is MethodMut || self is FunctionMut
    }
}

/// Where the arguments of a call are on the frame.
#[derive(Debug, Clone, Copy, PartialEq, Eq)]
pub struct CallArgs {
    /// Absolute position of the self argument, for a method.
    pub self_index: Option<i32>,
    /// Number of arguments after the self argument.
    pub count: i32,
    /// Position of the first of them among the arguments, counted from 1.
    pub first: i32,
}

/// An error or the mathematical value of its failure.
pub open spec fn result_view<T>(result: Result<T, Error>) -> Result<T, ErrorView> {
    match result {
        Ok(value) => Ok(value),
        Err(error) => Err(error@),
    }
}

/// The mathematical state of a [`Callback`].
pub struct CallbackView<F> {
    /// The name under which failures are reported.
    pub name: Seq<char>,
    /// The host object that methods run on.
    pub target: UserDataType,
    /// The shape of the callable.
    pub kind: CallbackKind,
    /// Whether a call that may change the callable's state is under way.
    pub running: bool,
    /// The callable itself.
    pub function: F,
}

impl<F> CallbackView<F> {
    /// Where the arguments of a call with `nargs` arguments are, on a frame
    /// of `top` values whose topmost are the arguments.
    pub open spec fn args(self, nargs: int, top: int) -> CallArgs {
        if self.kind.is_method() {
            CallArgs { self_index: Some((top - nargs + 1) as i32), count: (nargs - 1) as i32, first: 2 }
        } else {
            CallArgs { self_index: None, count: nargs as i32, first: 1 }
        }
    }

    /// The refusal of the self argument for the reason `cause`.
    pub open spec fn bad_self(self, cause: ErrorView) -> ErrorView {
        ErrorView::bad_self_argument(self.name, cause)
    }

    /// The state once no call is under way.
    pub open spec fn left(self) -> CallbackView<F> {
        CallbackView { running: false, ..self }
    }

    /// The start of a call: a callable that may change its state is not
    /// entered twice, and a method needs its self argument.
    pub open spec fn begin(self, nargs: int, top: int) -> (CallbackView<F>, Result<CallArgs, ErrorView>) {
        if self.kind.is_mut() && self.running {
            (self, Err(ErrorView::RecursiveMutCallback))
        } else if self.kind.is_method() && nargs == 0 {
            (self, Err(self.bad_self(ErrorView::missing_self())))
        } else {
            (CallbackView { running: self.running || self.kind.is_mut(), ..self }, Ok(self.args(nargs, top)))
        }
    }

    /// The check of the self argument `object`: it must be the expected
    /// host object. A refusal ends the call.
    pub open spec fn check_self(self, object: SelfObject) -> (CallbackView<F>, Result<(), ErrorView>) {
        if self.target.accepts(object) {
            (self, Ok(()))
        } else {
            (self.left(), Err(self.bad_self(ErrorView::UserDataTypeMismatch)))
        }
    }

    /// The borrow of the host object, whose borrow state is `lock`: shared
    /// for a method, exclusive for one that changes it. A refusal ends the
    /// call and leaves the borrow state as it was.
    pub open spec fn borrow_self(self, lock: Borrow) -> (CallbackView<F>, Borrow, Result<(), ErrorView>) {
        if self.kind is MethodMut {
            if lock is Unused {
                (self, Borrow::Exclusive, Ok(()))
            } else {
                (self.left(), lock, Err(self.bad_self(ErrorView::UserDataBorrowMutError)))
            }
        } else {
            if lock.admits_shared() {
                (self, lock.lock_shared(), Ok(()))
            } else {
                (self.left(), lock, Err(self.bad_self(ErrorView::UserDataBorrowError)))
            }
        }
    }

    /// The borrow that a method of this kind holds during a call.
    pub open spec fn holds(self, lock: Borrow) -> bool {
        if self.kind is MethodMut {
            lock is Exclusive
        } else {
            lock is Shared
        }
    }

    /// The borrow state after a method of this kind has given up its borrow.
    pub open spec fn unlock(self, lock: Borrow) -> Borrow {
        if self.kind is MethodMut {
            Borrow::Unused
        } else {
            lock.unlock_shared()
        }
    }
}

/// A registered callable together with what guards its calls.
#[derive(Debug)]
pub struct Callback<F> {
    name: String,
    target: UserDataType,
    kind: CallbackKind,
    running: bool,
    function: F,
}

impl<F> View for Callback<F> {
    type V = CallbackView<F>;

    closed spec fn view(&self) -> CallbackView<F> {
        CallbackView {
            name: self.name@,
            target: self.target,
            kind: self.kind,
            running: self.running,
            function: self.function,
        }
    }
}

impl<F> Callback<F> {
    /// A callable of the given shape on which no call is under way.
    /// Failures are reported under `name`; methods run on `target`.
    pub fn new(name: String, target: UserDataType, kind: CallbackKind, function: F) -> (callback:
        Callback<F>)
        ensures
            callback@ == (CallbackView { name: name@, target, kind, running: false, function }),
    {
        Callback { name, target, kind, running: false, function }
    }

    /// The name under which failures are reported.
    pub fn name(&self) -> (name: &String)
        ensures
            name@ == self@.name,
    {
        &self.name
    }

    /// The host object that methods run on.
    pub fn target(&self) -> (target: UserDataType)
        ensures
            target == self@.target,
    {
        self.target
    }

    /// The shape of the callable.
    pub fn kind(&self) -> (kind: CallbackKind)
        ensures
            kind == self@.kind,
    {
        self.kind
    }

    /// Whether a call that may change the callable's state is under way.
    pub fn is_running(&self) -> (running: bool)
        ensures
            running == self@.running,
    {
        self.running
    }

    /// Whether `lock` is in the state in which a method of this kind holds
    /// the host object during a call.
    pub fn holds(&self, lock: &UserDataLock) -> (held: bool)
        ensures
            held == self@.holds(lock@),
    {
        match self.kind {
            CallbackKind::MethodMut => lock.is_exclusive(),
            _ => lock.is_shared(),
        }
    }

    /// Whether the first argument of a call is the host object.
    pub fn is_method(&self) -> (method: bool)
        ensures
            method == self@.kind.is_method(),
    {
        match self.kind {
            CallbackKind::Method | CallbackKind::MethodMut => true,
            _ => false,
        }
    }

    /// The callable itself.
    pub fn function(&self) -> (function: &F)
        ensures
            *function == self@.function,
    {
        &self.function
    }

    /// The callable itself, for a call that may change its state.
    pub fn function_mut(&mut self) -> (function: &mut F)
        ensures
            *function == old(self)@.function,
            final(self)@ == (CallbackView { function: *final(function), ..old(self)@ }),
    {
        &mut self.function
    }

    /// Starts a call with `nargs` arguments on a frame of `top` values. On
    /// success the arguments can be found as the result says. A callable that
    /// may change its state refuses a second entry while it runs, before
    /// anything else is looked at; a method refuses a call without arguments.
    pub fn begin(&mut self, nargs: i32, top: i32) -> (args: Result<CallArgs, Error>)
        requires
            0 <= nargs <= top,
        ensures
            (final(self)@, result_view(args)) == old(self)@.begin(nargs as int, top as int),
    {
        let (is_method, is_mut) = match self.kind {
            CallbackKind::Method => (true, false),
            CallbackKind::MethodMut => (true, true),
            CallbackKind::Function => (false, false),
            CallbackKind::FunctionMut => (false, true),
        };
        if is_mut && self.running {
            return Err(Error::RecursiveMutCallback);
        }
        if is_method && nargs == 0 {
            let missing = Error::from_lua_conversion("missing argument", "userdata", None);
            return Err(Error::bad_self_argument(self.name.as_str(), missing));
        }
        if is_mut {
            self.running = true;
        }
        if is_method {
            Ok(CallArgs { self_index: Some(top - nargs + 1), count: nargs - 1, first: 2 })
        } else {
            Ok(CallArgs { self_index: None, count: nargs, first: 1 })
        }
    }

    /// Checks that the self argument of a method call is the host object
    /// that the method was registered for: an object of the registered type,
    /// or the one registered object. A refusal ends the call.
    pub fn check_self(&mut self, object: &SelfObject) -> (checked: Result<(), Error>)
        requires
            old(self)@.kind.is_method(),
        ensures
            (final(self)@, result_view(checked)) == old(self)@.check_self(*object),
    {
        let accepted = match self.target {
            UserDataType::Shared(expected) => match object.type_id {
                Some(actual) => same_type(&actual, &expected),
                None => false,
            },
            UserDataType::Unique(address) => object.address == address,
        };
        if accepted {
            return Ok(());
        }
        self.running = false;
        Err(Error::bad_self_argument(self.name.as_str(), Error::UserDataTypeMismatch))
    }

    /// Borrows the host object that [`Callback::check_self`] accepted, for
    /// as long as the call lasts: shared for a method, exclusive for one
    /// that changes it. `lock` is the borrow flag of the object. A borrow that
    /// cannot be had is refused at once; the refusal ends the call and leaves
    /// the flag as it was.
    pub fn borrow_self(&mut self, lock: &mut UserDataLock) -> (borrowed: Result<(), Error>)
        requires
            old(self)@.kind.is_method(),
        ensures
            (final(self)@, final(lock)@, result_view(borrowed)) == old(self)@.borrow_self(old(lock)@),
    {
        let refusal = match self.kind {
            CallbackKind::MethodMut => {
                if lock.try_lock_exclusive() {
                    return Ok(());
                }
                Error::UserDataBorrowMutError
            },
            _ => {
                if lock.try_lock_shared() {
                    return Ok(());
                }
                Error::UserDataBorrowError
            },
        };
        self.running = false;
        Err(Error::bad_self_argument(self.name.as_str(), refusal))
    }

    /// Ends a method call for which [`Callback::borrow_self`] borrowed the
    /// host object: the borrow is given up.
    pub fn finish(&mut self, lock: &mut UserDataLock)
        requires
            old(self)@.kind.is_method(),
            old(self)@.holds(old(lock)@),
        ensures
            final(self)@ == old(self)@.left(),
            final(lock)@ == old(self)@.unlock(old(lock)@),
    {
        match self.kind {
            CallbackKind::MethodMut => lock.unlock_exclusive(),
            _ => lock.unlock_shared(),
        }
        self.running = false;
    }

    /// Ends a call of a callable that takes no host object.
    pub fn leave(&mut self)
        ensures
            final(self)@ == old(self)@.left(),
    {
        self.running = false;
    }
}

/// A method registered for a host type refuses a self argument that is not
/// an object of that type, whether it is of another registered type or of
/// none; the call is over.
pub proof fn lemma_wrong_type_refused<F>(callback: CallbackView<F>, object: SelfObject)
    requires
        callback.target matches UserDataType::Shared(id) && object.type_id != Some(id),
    ensures
        callback.check_self(object) == (
            callback.left(),
            Err::<(), ErrorView>(callback.bad_self(ErrorView::UserDataTypeMismatch)),
        ),
{
}

/// A method registered for one object refuses every other object, also one
/// of the same host type; the call is over.
pub proof fn lemma_other_object_refused<F>(callback: CallbackView<F>, object: SelfObject)
    requires
        callback.target matches UserDataType::Unique(address) && object.address != address,
    ensures
        callback.check_self(object) == (
            callback.left(),
            Err::<(), ErrorView>(callback.bad_self(ErrorView::UserDataTypeMismatch)),
        ),
{
}

/// While a call of a callable that may change its state is under way,
/// whether or not its self argument has been checked and borrowed yet, a
/// second call is refused as a recursive one and changes nothing. Once the
/// first call has ended the callable can be entered again.
pub proof fn lemma_recursive_call_refused<F>(
    callback: CallbackView<F>,
    nargs: int,
    top: int,
    object: SelfObject,
    lock: Borrow,
    again: int,
    again_top: int,
)
    requires
        callback.kind.is_mut(),
        callback.begin(nargs, top).1 is Ok,
    ensures
        ({
            let entered = callback.begin(nargs, top).0;
            let refused = (entered, Err::<CallArgs, ErrorView>(ErrorView::RecursiveMutCallback));
            &&& entered.begin(again, again_top) == refused
            &&& entered.check_self(object).1 is Ok ==> entered.check_self(object).0.begin(again, again_top)
                == refused
            &&& entered.borrow_self(lock).2 is Ok ==> entered.borrow_self(lock).0.begin(again, again_top)
                == refused
            &&& !entered.left().running
            &&& !(entered.left().begin(again, again_top).1 matches Err(ErrorView::RecursiveMutCallback))
        }),
{
}

/// A method that takes the host object by exclusive borrow is refused
/// while the object is borrowed in any way, and a method that takes it by
/// shared borrow is refused while it is borrowed exclusively; neither
/// changes the borrow.
pub proof fn lemma_borrow_conflict_refused<F>(callback: CallbackView<F>, lock: Borrow)
    requires
        if callback.kind is MethodMut {
            !(lock is Unused)
        } else {
            lock is Exclusive
        },
    ensures
        callback.borrow_self(lock).1 == lock,
        callback.borrow_self(lock).2 == Err::<(), ErrorView>(
            callback.bad_self(
                if callback.kind is MethodMut {
                    ErrorView::UserDataBorrowMutError
                } else {
                    ErrorView::UserDataBorrowError
                },
            ),
        ),
{
}

} // verus!
