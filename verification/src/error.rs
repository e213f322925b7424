//! The failures this library reports.

use vstd::prelude::*;
use vstd::string::*;
use crate::text::join;

verus! {

/// `std::io::Error`, carried through unopened.
#[verifier::external_type_specification]
#[verifier::external_body]
pub struct ExIoError(std::io::Error);

/// What can go wrong when talking to the detection service.
#[derive(Debug)]
pub enum Error {
    /// Invalid configuration
    InvalidConfig(String),
    /// Authentication failure
    Unauthorized(String),
    /// Resource not found
    NotFound,
    /// Server error from the API
    ServerError(String),
    /// Invalid file
    InvalidFile(String),
    /// Upload failed
    UploadFailed(String),
    /// Invalid request
    InvalidRequest(String),
    /// Invalid data format
    InvalidData(String),
    /// HTTP request error, with the transport's own description of it
    RequestError(String),
    /// IO error
    IOError(std::io::Error),
    /// JSON parsing error, with the parser's own description of it
    JsonError(String),
    /// Unknown error
    UnknownError(String),
}

/// The result of an operation that can fail with an [`Error`].
pub type Result<T> = std::result::Result<T, Error>;

/// `Display` of `std::io::Error`. The text may come from the operating
/// system, so nothing is claimed of it.
#[verifier::external_body]
fn io_error_text(e: &std::io::Error) -> (r: String)
{
    e.to_string()
}

impl Error {
    /// The message of an error, when it is one of the kinds that this
    /// library words itself.
    pub open spec fn spec_message(self) -> Seq<char> {
        match self {
            Error::InvalidConfig(m) => "Invalid configuration: "@ + m@,
            Error::Unauthorized(m) => m@,
            Error::NotFound => "Resource not found"@,
            Error::ServerError(m) => "API error: "@ + m@,
            Error::InvalidFile(m) => "Invalid file: "@ + m@,
            Error::UploadFailed(m) => "Upload failed: "@ + m@,
            Error::InvalidRequest(m) => "Invalid request: "@ + m@,
            Error::InvalidData(m) => "Invalid data format: "@ + m@,
            Error::RequestError(m) => "HTTP request error: "@ + m@,
            Error::IOError(_) => "IO error: "@,
            Error::JsonError(m) => "JSON parsing error: "@ + m@,
            Error::UnknownError(m) => "Unknown error: "@ + m@,
        }
    }

    /// The message a reader is shown for this error.
    pub fn to_string(&self) -> (r: String)
        ensures
            !(self is IOError) ==> r@ == self.spec_message(),
            self is IOError ==> self.spec_message().is_prefix_of(r@),
    {
        match self {
            Error::InvalidConfig(m) => join("Invalid configuration: ", m.as_str()),
            Error::Unauthorized(m) => m.clone(),
            Error::NotFound => "Resource not found".to_owned(),
            Error::ServerError(m) => join("API error: ", m.as_str()),
            Error::InvalidFile(m) => join("Invalid file: ", m.as_str()),
            Error::UploadFailed(m) => join("Upload failed: ", m.as_str()),
            Error::InvalidRequest(m) => join("Invalid request: ", m.as_str()),
            Error::InvalidData(m) => join("Invalid data format: ", m.as_str()),
            Error::RequestError(m) => join("HTTP request error: ", m.as_str()),
            Error::IOError(e) => {
                let t = io_error_text(e);
                join("IO error: ", t.as_str())
            },
            Error::JsonError(m) => join("JSON parsing error: ", m.as_str()),
            Error::UnknownError(m) => join("Unknown error: ", m.as_str()),
        }
    }
}

impl From<std::io::Error> for Error {
    fn from(e: std::io::Error) -> (r: Error) {
        Error::IOError(e)
    }
}

impl vstd::std_specs::convert::FromSpecImpl<std::io::Error> for Error {
    open spec fn obeys_from_spec() -> bool {
        true
    }

    open spec fn from_spec(e: std::io::Error) -> Error {
        Error::IOError(e)
    }
}

} // verus!
