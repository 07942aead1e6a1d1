//! The failures that the calling protocol reports to its callers.

use vstd::prelude::*;
use vstd::string::*;

verus! {

/// A recoverable failure of the frontend.
#[derive(Debug, Clone, PartialEq, Eq)]
pub enum Error {
    /// An introspection or a conversion met a tensor without shape or data.
    EmptyArray,
    /// A lookup by name returned no handle.
    NullHandle { name: String },
    /// A call was started on a builder that holds no function.
    NoFunction,
    /// An extraction or a copy met another type than the one it needs.
    TypeMismatch { expected: String, found: String },
    /// The runtime reported a failed call; the message is its last error.
    CallFailed { message: String },
    /// A name handed to the runtime holds a NUL character.
    NulError,
    /// A call has more arguments than the runtime's argument count can hold.
    TooManyArguments,
    /// A module file path is not text, or names no format by its extension.
    InvalidPath { path: String },
}

/// What `Error::message` returns for `e`.
pub open spec fn error_message(e: Error) -> Seq<char> {
    match e {
        Error::EmptyArray => "cannot convert from empty array"@,
        Error::NullHandle { name } => "requested `"@ + name@ + "` handle is null"@,
        Error::NoFunction => "function was not set in `function::Builder`"@,
        Error::TypeMismatch { expected, found } => "expected type `"@ + expected@
            + "`, but found `"@ + found@ + "`"@,
        Error::CallFailed { message } => message@,
        Error::NulError => "nul byte found in provided data"@,
        Error::TooManyArguments => "too many arguments for one call"@,
        Error::InvalidPath { path } => "cannot load a module from `"@ + path@ + "`"@,
    }
}

impl Error {
    /// The human-readable text of the error.
    pub fn message(&self) -> (r: String)
        ensures
            r@ == error_message(*self),
    {
        match self {
            Error::EmptyArray => String::from_str("cannot convert from empty array"),
            Error::NullHandle { name } => {
                String::from_str("requested `").concat(name.as_str()).concat("` handle is null")
            },
            Error::NoFunction => String::from_str("function was not set in `function::Builder`"),
            Error::TypeMismatch { expected, found } => {
                String::from_str("expected type `").concat(expected.as_str()).concat(
                    "`, but found `",
                ).concat(found.as_str()).concat("`")
            },
            Error::CallFailed { message } => message.clone(),
            Error::NulError => String::from_str("nul byte found in provided data"),
            Error::TooManyArguments => String::from_str("too many arguments for one call"),
            Error::InvalidPath { path } => {
                String::from_str("cannot load a module from `").concat(path.as_str()).concat("`")
            },
        }
    }
}

} // verus!
