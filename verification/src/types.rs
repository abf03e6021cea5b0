//! What can go wrong inside the daemon, as the registry and the engine report it.

use vstd::prelude::*;

verus! {

/// A failure of the daemon's own making, with the text that explains it.
#[derive(Debug, Clone, PartialEq, Eq)]
pub enum ErrorEnum {
    /// Something failed that has no category of its own.
    Error(String),
    /// The name is already taken.
    AlreadyExists(String),
    /// The pool still owns something, so it cannot go.
    Busy(String),
    /// The request makes no sense.
    Invalid(String),
    /// Nothing is registered under the name.
    NotFound(String),
}

impl ErrorEnum {
    /// The text that the failure carries.
    pub open spec fn text(&self) -> Seq<char> {
        match self {
            ErrorEnum::Error(text) => text@,
            ErrorEnum::AlreadyExists(text) => text@,
            ErrorEnum::Busy(text) => text@,
            ErrorEnum::Invalid(text) => text@,
            ErrorEnum::NotFound(text) => text@,
        }
    }

    /// The text that the failure carries.
    pub fn get_error_string(&self) -> (text: String)
        ensures
            text@ == self.text(),
    {
        match self {
            ErrorEnum::Error(text) => text.clone(),
            ErrorEnum::AlreadyExists(text) => text.clone(),
            ErrorEnum::Busy(text) => text.clone(),
            ErrorEnum::Invalid(text) => text.clone(),
            ErrorEnum::NotFound(text) => text.clone(),
        }
    }
}

/// What the operating system said when an input or output operation failed, as far as the
/// daemon tells the cases apart.
#[derive(Debug, Clone, Copy, PartialEq, Eq, Structural)]
pub enum IoErrorKind {
    /// The thing asked for is not there.
    NotFound,
    /// The thing to be made is there already.
    AlreadyExists,
    /// Any other condition.
    Other,
}

/// Every failure that an operation of the daemon can end in.
#[derive(Debug, Clone, PartialEq, Eq)]
pub enum StratisError {
    /// A failure of the daemon's own making.
    Stratis(ErrorEnum),
    /// An input or output operation failed.
    Io(IoErrorKind),
    /// The message bus refused something; the text is the bus's own.
    Dbus(String),
}

/// What an operation of the daemon ends in.
pub type StratisResult<T> = Result<T, StratisError>;

} // verus!
