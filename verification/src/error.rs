//! Common error type shared across the chassis library.
use vstd::prelude::*;

verus! {

/// Common error type used across the library.
#[derive(Debug, Clone, Copy, PartialEq, Eq, Structural)]
#[non_exhaustive]
pub enum Error {
    /// The requested operation is not supported in the current configuration.
    Unsupported,
    /// A resource was exhausted (e.g. buffer full).
    ResourceExhausted,
    /// An invalid argument or configuration was supplied.
    InvalidArgument,
}

impl Error {
    /// Human-readable description of the error.
    pub fn message(&self) -> (r: &'static str)
        ensures
            r@ == error_message(*self),
    {
        match self {
            Error::Unsupported => "operation not supported",
            Error::ResourceExhausted => "resource exhausted",
            Error::InvalidArgument => "invalid argument",
        }
    }
}

/// The text that describes each error.
pub open spec fn error_message(e: Error) -> Seq<char> {
    match e {
        Error::Unsupported => "operation not supported"@,
        Error::ResourceExhausted => "resource exhausted"@,
        Error::InvalidArgument => "invalid argument"@,
    }
}

} // verus!
