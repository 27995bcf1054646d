//! The errors a function or a registration can end in, and how each reads.

use vstd::prelude::*;

use crate::text::join2;

verus! {

/// An error raised while registering or running a user-defined function.
#[derive(Debug)]
pub enum LimboError {
    /// The statement names something that cannot be used the way it is used.
    ParseError(String),
    /// A caller passed an argument the call cannot accept.
    InvalidArgument(String),
    /// An extension failed or broke the contract between it and the engine.
    ExtensionError(String),
    /// A statement failed with a message of the host language.
    SqlError(String),
    /// A broken invariant.
    InternalError(String),
    /// A running function failed; the code and the message reach the caller unchanged.
    UserFunction { code: i32, message: String },
}

pub type Result<T> = core::result::Result<T, LimboError>;

/// An error as the characters of its message.
pub enum ErrorView {
    ParseError(Seq<char>),
    InvalidArgument(Seq<char>),
    ExtensionError(Seq<char>),
    SqlError(Seq<char>),
    InternalError(Seq<char>),
    UserFunction { code: i32, message: Seq<char> },
}

impl View for LimboError {
    type V = ErrorView;

    open spec fn view(&self) -> ErrorView {
        match self {
            LimboError::ParseError(m) => ErrorView::ParseError(m@),
            LimboError::InvalidArgument(m) => ErrorView::InvalidArgument(m@),
            LimboError::ExtensionError(m) => ErrorView::ExtensionError(m@),
            LimboError::SqlError(m) => ErrorView::SqlError(m@),
            LimboError::InternalError(m) => ErrorView::InternalError(m@),
            LimboError::UserFunction { code, message } => ErrorView::UserFunction {
                code: *code,
                message: message@,
            },
        }
    }
}

impl ErrorView {
    /// The line a user reads: the message behind what kind of error it is. A function's own error
    /// and a host language's reach the user as they were raised.
    pub open spec fn text(self) -> Seq<char> {
        match self {
            ErrorView::ParseError(m) => "Parse error: "@ + m,
            ErrorView::InvalidArgument(m) => "Invalid argument supplied: "@ + m,
            ErrorView::ExtensionError(m) => "Extension error: "@ + m,
            ErrorView::SqlError(m) => m,
            ErrorView::InternalError(m) => "Internal error: "@ + m,
            ErrorView::UserFunction { code, message } => message,
        }
    }
}

impl LimboError {
    /// The error as one line of text.
    pub fn to_string(&self) -> (r: String)
        ensures
            r@ == self@.text(),
    {
        match self {
            LimboError::ParseError(m) => join2("Parse error: ", m.as_str()),
            LimboError::InvalidArgument(m) => join2("Invalid argument supplied: ", m.as_str()),
            LimboError::ExtensionError(m) => join2("Extension error: ", m.as_str()),
            LimboError::SqlError(m) => m.clone(),
            LimboError::InternalError(m) => join2("Internal error: ", m.as_str()),
            LimboError::UserFunction { code: _, message } => message.clone(),
        }
    }
}

impl Clone for LimboError {
    fn clone(&self) -> (r: Self)
        ensures
            r == *self,
    {
        match self {
            LimboError::ParseError(m) => LimboError::ParseError(m.clone()),
            LimboError::InvalidArgument(m) => LimboError::InvalidArgument(m.clone()),
            LimboError::ExtensionError(m) => LimboError::ExtensionError(m.clone()),
            LimboError::SqlError(m) => LimboError::SqlError(m.clone()),
            LimboError::InternalError(m) => LimboError::InternalError(m.clone()),
            LimboError::UserFunction { code, message } => LimboError::UserFunction {
                code: *code,
                message: message.clone(),
            },
        }
    }
}

}
