//! Error type of the crate.

use vstd::prelude::*;

verus! {

/// `std::io::Error`, declared so that [`Error`] can carry one. The value is
/// opaque to the library: it is stored and handed back, never inspected.
#[verifier::external_type_specification]
#[verifier::external_body]
pub struct ExIoError(std::io::Error);

/// Crate error type.
#[derive(Debug)]
pub enum Error {
    /// A domain rule was violated: a reserved preset id, a character that is
    /// not ASCII, or a byte buffer of the wrong length. The first field
    /// describes the rule; the second carries the observed numeric value
    /// where one belongs to the description (the length of a rejected
    /// buffer), and is `None` otherwise.
    InvalidValue(&'static str, Option<usize>),
    /// An I/O failure reported by the transport, preserved as the cause.
    Io(std::io::Error),
}

impl Error {
    /// A short description of the error.
    pub fn description(&self) -> (r: &'static str)
        ensures
            self is InvalidValue ==> r == self->InvalidValue_0,
    {
        match self {
            Error::InvalidValue(description, _) => description,
            Error::Io(_) => "IO error",
        }
    }

    /// The observed numeric value an invalid-value error carries, if any.
    pub fn observed_value(&self) -> (r: Option<usize>)
        ensures
            self is InvalidValue ==> r == self->InvalidValue_1,
            !(self is InvalidValue) ==> r is None,
    {
        match self {
            Error::InvalidValue(_, observed) => *observed,
            Error::Io(_) => None,
        }
    }
}

} // verus!
