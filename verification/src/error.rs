//! The error type of the store's operations.

use vstd::prelude::*;

verus! {

/// `std::string::FromUtf8Error`, carried unopened.
#[verifier::external_type_specification]
#[verifier::external_body]
pub struct ExFromUtf8Error(std::string::FromUtf8Error);

/// `std::str::Utf8Error`, carried unopened.
#[verifier::external_type_specification]
#[verifier::external_body]
pub struct ExUtf8Error(std::str::Utf8Error);

/// `std::io::Error`, carried unopened.
#[verifier::external_type_specification]
#[verifier::external_body]
pub struct ExIoError(std::io::Error);

/// What can go wrong in an operation on the store.
#[derive(Debug)]
pub enum Error {
    /// The error stream, or the output stream of a direct invocation, was
    /// not UTF-8.
    FromUtf8(std::string::FromUtf8Error),
    /// The payload of a framed reply was not structured data.
    Json(json::Error),
    /// The process could not be started, written to or waited for.
    Io(std::io::Error),
    /// The entry path was blank, or the request too long to be framed.
    InvalidInput,
    /// The reply did not have the shape that the operation expects.
    InvalidOutput,
    /// The program reported a failure on its error stream; this is its text.
    Pass(String),
    /// The payload of a framed reply was not UTF-8.
    Utf8(std::str::Utf8Error),
}

/// An [`Error`] without what its outside causes carry: the variant, and the
/// text of a report.
pub enum Failure {
    FromUtf8,
    Json,
    Io,
    InvalidInput,
    InvalidOutput,
    Pass(Seq<char>),
    Utf8,
}

impl View for Error {
    type V = Failure;

    open spec fn view(&self) -> Failure {
        match self {
            Error::FromUtf8(_) => Failure::FromUtf8,
            Error::Json(_) => Failure::Json,
            Error::Io(_) => Failure::Io,
            Error::InvalidInput => Failure::InvalidInput,
            Error::InvalidOutput => Failure::InvalidOutput,
            Error::Pass(text) => Failure::Pass(text@),
            Error::Utf8(_) => Failure::Utf8,
        }
    }
}

/// Whether `result` is `expected`, seen through the views of its value and
/// of its error.
pub open spec fn agrees<T: View>(result: Result<T, Error>, expected: Result<T::V, Failure>) -> bool {
    match expected {
        Ok(value) => result matches Ok(found) && found@ == value,
        Err(failure) => result matches Err(error) && error@ == failure,
    }
}

impl From<json::Error> for Error {
    fn from(error: json::Error) -> (converted: Error) {
        Error::Json(error)
    }
}

impl vstd::std_specs::convert::FromSpecImpl<json::Error> for Error {
    open spec fn obeys_from_spec() -> bool {
        true
    }

    open spec fn from_spec(error: json::Error) -> Error {
        Error::Json(error)
    }
}

impl From<std::io::Error> for Error {
    fn from(error: std::io::Error) -> (converted: Error) {
        Error::Io(error)
    }
}

impl vstd::std_specs::convert::FromSpecImpl<std::io::Error> for Error {
    open spec fn obeys_from_spec() -> bool {
        true
    }

    open spec fn from_spec(error: std::io::Error) -> Error {
        Error::Io(error)
    }
}

impl From<std::str::Utf8Error> for Error {
    fn from(error: std::str::Utf8Error) -> (converted: Error) {
        Error::Utf8(error)
    }
}

impl vstd::std_specs::convert::FromSpecImpl<std::str::Utf8Error> for Error {
    open spec fn obeys_from_spec() -> bool {
        true
    }

    open spec fn from_spec(error: std::str::Utf8Error) -> Error {
        Error::Utf8(error)
    }
}

impl From<std::string::FromUtf8Error> for Error {
    fn from(error: std::string::FromUtf8Error) -> (converted: Error) {
        Error::FromUtf8(error)
    }
}

impl vstd::std_specs::convert::FromSpecImpl<std::string::FromUtf8Error> for Error {
    open spec fn obeys_from_spec() -> bool {
        true
    }

    open spec fn from_spec(error: std::string::FromUtf8Error) -> Error {
        Error::FromUtf8(error)
    }
}

impl Error {
    /// The text that describes the error: the program's own words for
    /// [`Error::Pass`], a fixed phrase for an invalid input and for an
    /// invalid output, and what the cause displays otherwise.
    pub fn message(&self) -> (text: String)
        ensures
            self@ == Failure::InvalidInput ==> text@ == "invalid input"@,
            self@ == Failure::InvalidOutput ==> text@ == "invalid output"@,
            self@ matches Failure::Pass(words) ==> text@ == words,
            self matches Error::FromUtf8(cause) ==> vstd::string::to_string_from_display_ensures(
                cause,
                text,
            ),
            self matches Error::Json(cause) ==> vstd::string::to_string_from_display_ensures(
                cause,
                text,
            ),
            self matches Error::Io(cause) ==> vstd::string::to_string_from_display_ensures(
                cause,
                text,
            ),
            self matches Error::Utf8(cause) ==> vstd::string::to_string_from_display_ensures(
                cause,
                text,
            ),
    {
        match self {
            Error::FromUtf8(error) => error.to_string(),
            Error::Json(error) => error.to_string(),
            Error::Io(error) => error.to_string(),
            Error::InvalidInput => "invalid input".to_string(),
            Error::InvalidOutput => "invalid output".to_string(),
            Error::Pass(text) => text.clone(),
            Error::Utf8(error) => error.to_string(),
        }
    }
}

} // verus!
