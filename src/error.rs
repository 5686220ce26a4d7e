//! # Errors

use vstd::prelude::*;

verus! {

/// std's `io::Error`, carried through as an opaque value.
#[verifier::external_type_specification]
#[verifier::external_body]
pub struct ExIoError(std::io::Error);

/// Spire error type
#[derive(Debug)]
pub enum Error {
    /// Wrapper around `std::io::Error`
    Io(std::io::Error),
    TooManyArguments(usize),
    UnrecognizedOption(String),
    /// The line at this index (from 0) is not valid UTF-8
    Decode(usize),
}

impl From<std::io::Error> for Error {
    /// Convert a `std::io::Error` into a Spire Error
    fn from(err: std::io::Error) -> (r: Self)
        ensures
            r == Error::Io(err),
    {
        Error::Io(err)
    }
}

impl vstd::std_specs::convert::FromSpecImpl<std::io::Error> for Error {
    open spec fn obeys_from_spec() -> bool {
        true
    }

    open spec fn from_spec(v: std::io::Error) -> Error {
        Error::Io(v)
    }
}

} // verus!
