//! The error type shared by every stage of a conversion.

use vstd::prelude::*;
use vstd::string::StringExecFns;

verus! {

/// The mathematical image of an [`Error`]: the same four kinds, with every
/// carried string replaced by its sequence of characters.
pub enum SpecError {
    BadRegex(Seq<char>),
    NoMatch,
    BadValue { name: Seq<char>, value: Seq<char> },
    Custom(Seq<char>),
}

/// An error that occurred during a conversion.
#[derive(Debug)]
pub enum Error {
    /// The pattern source could not be compiled; carries the compiler's
    /// diagnostic text.
    BadRegex(String),
    /// The input string does not match the pattern.
    NoMatch,
    /// A captured value could not be converted into the requested shape.
    BadValue {
        /// The name of the capture group.
        name: String,
        /// The captured text that could not be converted.
        value: String,
    },
    /// Some other conversion failure, surfaced as an opaque message.
    Custom(String),
}

impl View for Error {
    type V = SpecError;

    open spec fn view(&self) -> SpecError {
        match self {
            Error::BadRegex(m) => SpecError::BadRegex(m@),
            Error::NoMatch => SpecError::NoMatch,
            Error::BadValue { name, value } => SpecError::BadValue { name: name@, value: value@ },
            Error::Custom(m) => SpecError::Custom(m@),
        }
    }
}

/// The text that [`Error::message`] renders for a given error.
pub open spec fn spec_message(e: SpecError) -> Seq<char> {
    match e {
        SpecError::BadRegex(m) => m,
        SpecError::NoMatch => "String doesn't match pattern"@,
        SpecError::BadValue { name, value } => "Unable to convert value for group "@ + name
            + ": "@ + value,
        SpecError::Custom(m) => m,
    }
}

impl Error {
    /// A human-readable description of the error.
    pub fn message(&self) -> (r: String)
        ensures
            r@ == spec_message(self@),
    {
        match self {
            Error::BadRegex(m) => m.clone(),
            Error::NoMatch => "String doesn't match pattern".to_owned(),
            Error::BadValue { name, value } => {
                let mut m = "Unable to convert value for group ".to_owned();
                m.append(name.as_str());
                m.append(": ");
                m.append(value.as_str());
                m
            },
            Error::Custom(m) => m.clone(),
        }
    }
}

} // verus!
