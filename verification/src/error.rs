//! Structured host errors that can be carried across the call boundary.

use std::sync::Arc;
use vstd::prelude::*;

verus! {

/// A failure of host code that the runtime can raise and host code can later
/// read back as it was.
#[derive(Debug, Clone, PartialEq, Eq)]
pub enum Error {
    /// A value of the runtime could not be converted to a host type.
    FromLuaConversionError { from: &'static str, to: String, message: Option<String> },
    /// An argument of a call was refused. `pos` counts from 1; the self
    /// argument of a method is argument 1.
    BadArgument { to: Option<String>, pos: usize, name: Option<String>, cause: Arc<Error> },
    /// The object is not of the host type that the callable was registered for.
    UserDataTypeMismatch,
    /// The host object is borrowed exclusively and cannot be borrowed again.
    UserDataBorrowError,
    /// The host object is already borrowed and cannot be borrowed exclusively.
    UserDataBorrowMutError,
    /// A callable that mutates its state was entered while it was running.
    RecursiveMutCallback,
    /// A protocol hook was given a value of a type it cannot hold.
    MetaMethodTypeError { method: String, value_type: &'static str, message: Option<String> },
    /// A host callable failed; the error carries where the runtime was and
    /// shares the failure itself.
    CallbackError { traceback: String, cause: Arc<Error> },
    /// A failure described only by its message.
    ExternalError(String),
}

/// The mathematical value of an [`Error`]: the same shape, with text as
/// sequences of characters.
pub enum ErrorView {
    FromLuaConversionError { from: Seq<char>, to: Seq<char>, message: Option<Seq<char>> },
    BadArgument { to: Option<Seq<char>>, pos: nat, name: Option<Seq<char>>, cause: Box<ErrorView> },
    UserDataTypeMismatch,
    UserDataBorrowError,
    UserDataBorrowMutError,
    RecursiveMutCallback,
    MetaMethodTypeError { method: Seq<char>, value_type: Seq<char>, message: Option<Seq<char>> },
    CallbackError { traceback: Seq<char>, cause: Box<ErrorView> },
    ExternalError(Seq<char>),
}

/// The text of an optional string.
pub open spec fn text_of(text: Option<String>) -> Option<Seq<char>> {
    match text {
        Some(text) => Some(text@),
        None => None,
    }
}

impl View for Error {
    type V = ErrorView;

    open spec fn view(&self) -> ErrorView
        decreases self,
    {
        match self {
            Error::FromLuaConversionError { from, to, message } => ErrorView::FromLuaConversionError {
                from: from@,
                to: to@,
                message: text_of(*message),
            },
            Error::BadArgument { to, pos, name, cause } => ErrorView::BadArgument {
                to: text_of(*to),
                pos: *pos as nat,
                name: text_of(*name),
                cause: Box::new((**cause).view()),
            },
            Error::UserDataTypeMismatch => ErrorView::UserDataTypeMismatch,
            Error::UserDataBorrowError => ErrorView::UserDataBorrowError,
            Error::UserDataBorrowMutError => ErrorView::UserDataBorrowMutError,
            Error::RecursiveMutCallback => ErrorView::RecursiveMutCallback,
            Error::MetaMethodTypeError { method, value_type, message } => ErrorView::MetaMethodTypeError {
                method: method@,
                value_type: value_type@,
                message: text_of(*message),
            },
            Error::CallbackError { traceback, cause } => ErrorView::CallbackError {
                traceback: traceback@,
                cause: Box::new((**cause).view()),
            },
            Error::ExternalError(message) => ErrorView::ExternalError(message@),
        }
    }
}

impl ErrorView {
    /// The refusal of the self argument of the callable `to` for the reason
    /// `cause`.
    pub open spec fn bad_self_argument(to: Seq<char>, cause: ErrorView) -> ErrorView {
        ErrorView::BadArgument { to: Some(to), pos: 1, name: Some("self"@), cause: Box::new(cause) }
    }

    /// The conversion failure reported when a method is called with no
    /// argument at all.
    pub open spec fn missing_self() -> ErrorView {
        ErrorView::FromLuaConversionError {
            from: "missing argument"@,
            to: "userdata"@,
            message: None,
        }
    }

    /// `cause` decorated with the traceback `traceback`.
    pub open spec fn callback_error(traceback: Seq<char>, cause: ErrorView) -> ErrorView {
        ErrorView::CallbackError { traceback, cause: Box::new(cause) }
    }
}

impl Error {
    /// The refusal of the self argument of the callable `to` for the reason
    /// `cause`.
    pub fn bad_self_argument(to: &str, cause: Error) -> (error: Error)
        ensures
            error@ == ErrorView::bad_self_argument(to@, cause@),
            error matches Error::BadArgument { cause: shared, .. } && *shared == cause,
    {
        Error::BadArgument {
            to: Some(to.to_owned()),
            pos: 1,
            name: Some("self".to_owned()),
            cause: Arc::new(cause),
        }
    }

    /// A failed conversion from the runtime type `from` to the host type `to`.
    pub fn from_lua_conversion(from: &'static str, to: &str, message: Option<String>) -> (error:
        Error)
        ensures
            error@ == (ErrorView::FromLuaConversionError { from: from@, to: to@, message: text_of(message) }),
    {
        Error::FromLuaConversionError { from, to: to.to_owned(), message }
    }

    /// A failure described only by its message.
    pub fn external(message: String) -> (error: Error)
        ensures
            error == Error::ExternalError(message),
    {
        Error::ExternalError(message)
    }
}

} // verus!
