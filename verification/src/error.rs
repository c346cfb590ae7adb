//! The ways a request can fail.

use vstd::prelude::*;
use vstd::string::StringExecFns;

verus! {

/// Why a call failed. Every failure ends the call: nothing is retried.
#[derive(Clone, Debug, PartialEq, Eq)]
pub enum RequestError {
    /// The URL did not parse as an absolute URL; holds the parser's message.
    InvalidUrl(String),
    /// A row of the header collection was not a pair of two strings.
    InvalidHeaderEntry,
    /// A body was given that is not a string.
    InvalidBodyType,
    /// The transport could not deliver the request; holds its message.
    RequestFailed(String),
    /// The response arrived but its body could not be read; holds the cause.
    BodyReadFailed(String),
}

/// The mathematical value of a [`RequestError`].
pub enum Failure {
    InvalidUrl(Seq<char>),
    InvalidHeaderEntry,
    InvalidBodyType,
    RequestFailed(Seq<char>),
    BodyReadFailed(Seq<char>),
}

/// The class of exception a host should raise for a failure.
#[derive(Clone, Copy, Debug, PartialEq, Eq, Structural)]
pub enum ErrorClass {
    /// A value of the wrong type was handed in.
    Type,
    /// Anything that went wrong while carrying the request out.
    Runtime,
}

impl View for RequestError {
    type V = Failure;

    open spec fn view(&self) -> Failure {
        match self {
            RequestError::InvalidUrl(m) => Failure::InvalidUrl(m@),
            RequestError::InvalidHeaderEntry => Failure::InvalidHeaderEntry,
            RequestError::InvalidBodyType => Failure::InvalidBodyType,
            RequestError::RequestFailed(m) => Failure::RequestFailed(m@),
            RequestError::BodyReadFailed(m) => Failure::BodyReadFailed(m@),
        }
    }
}

impl Failure {
    /// The text shown to the caller: a fixed lead, then the underlying cause.
    pub open spec fn message(self) -> Seq<char> {
        match self {
            Failure::InvalidUrl(m) => "failed to parse URL: "@ + m,
            Failure::InvalidHeaderEntry => "expected a pair of strings for each header"@,
            Failure::InvalidBodyType => "expected a string for body"@,
            Failure::RequestFailed(m) => "failed to send request: "@ + m,
            Failure::BodyReadFailed(m) => "failed to get response body: "@ + m,
        }
    }

    /// Wrongly typed arguments are type errors; all else is a runtime error.
    pub open spec fn class(self) -> ErrorClass {
        match self {
            Failure::InvalidHeaderEntry | Failure::InvalidBodyType => ErrorClass::Type,
            _ => ErrorClass::Runtime,
        }
    }
}

impl RequestError {
    /// Returns the human-readable message of this failure.
    pub fn message(&self) -> (r: String)
        ensures
            r@ == self@.message(),
    {
        match self {
            RequestError::InvalidUrl(m) => String::from_str("failed to parse URL: ").concat(
                m.as_str(),
            ),
            RequestError::InvalidHeaderEntry => String::from_str(
                "expected a pair of strings for each header",
            ),
            RequestError::InvalidBodyType => String::from_str("expected a string for body"),
            RequestError::RequestFailed(m) => String::from_str("failed to send request: ").concat(
                m.as_str(),
            ),
            RequestError::BodyReadFailed(m) => String::from_str(
                "failed to get response body: ",
            ).concat(m.as_str()),
        }
    }

    /// Returns the class of exception that reports this failure.
    pub fn class(&self) -> (r: ErrorClass)
        ensures
            r == self@.class(),
    {
        match self {
            RequestError::InvalidHeaderEntry | RequestError::InvalidBodyType => ErrorClass::Type,
            _ => ErrorClass::Runtime,
        }
    }
}

} // verus!
