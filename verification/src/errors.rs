//! Error types returned by the library.

use vstd::prelude::*;

verus! {

/// Declares `std::io::Error` so that error values handed in by callers can
/// be carried through the library's own error types. Values of it are opaque
/// here.
#[verifier::external_type_specification]
#[verifier::external_body]
pub struct ExIoError(std::io::Error);

/// `DataStoreError` enumerates all possible errors returned by this library
/// when collecting or serving data.
#[derive(Debug)]
pub enum DataStoreError {
    /// An empty source: for example, an empty text file to collect data from.
    EmptySource,
    /// A failure to read from input.
    ReadError {
        /// The underlying error.
        source: std::io::Error,
    },
    /// All other cases of `std::io::Error`.
    IOError(std::io::Error),
    /// An unknown data store error.
    Unknown,
}

impl DataStoreError {
    /// The human-readable message for this error. For a carried
    /// `std::io::Error` the platform's own message is rendered, of which
    /// nothing is promised.
    pub fn message(&self) -> (r: String)
        ensures
            *self is EmptySource ==> r@ == "Source contains no data"@,
            *self is ReadError ==> r@ == "Read error"@,
            *self is Unknown ==> r@ == "unknown data store error"@,
    {
        match self {
            DataStoreError::EmptySource => "Source contains no data".to_owned(),
            DataStoreError::ReadError { source: _ } => "Read error".to_owned(),
            DataStoreError::IOError(e) => io_error_message(e),
            DataStoreError::Unknown => "unknown data store error".to_owned(),
        }
    }
}

/// Errors of the word-count facilities.
#[derive(Debug)]
pub enum LibError {
    /// A carried `std::io::Error`.
    IOError(std::io::Error),
    /// Something went wrong that has no more precise description.
    BadThingHappened,
}

impl LibError {
    /// The human-readable message for this error. For a carried
    /// `std::io::Error` the platform's own message is rendered, of which
    /// nothing is promised.
    pub fn message(&self) -> (r: String)
        ensures
            *self is BadThingHappened ==> r@ == "Oops it blew up"@,
    {
        match self {
            LibError::IOError(e) => io_error_message(e),
            LibError::BadThingHappened => "Oops it blew up".to_owned(),
        }
    }
}

/// Relies on `std::io::Error`'s `Display` implementation, rendered with
/// `to_string`: the platform's message for the error; nothing is promised of
/// its content.
#[verifier::external_body]
fn io_error_message(e: &std::io::Error) -> String {
    e.to_string()
}

/// Relies on `std::io::Error::new`: builds a not-found error carrying the
/// given message. The value is opaque here, so nothing is promised of it.
#[verifier::external_body]
pub(crate) fn io_not_found(msg: &str) -> std::io::Error {
    std::io::Error::new(std::io::ErrorKind::NotFound, msg.to_string())
}

} // verus!
