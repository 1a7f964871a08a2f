//! The closed set of failures that the client reports.

use vstd::prelude::*;
use crate::text::{decimal, u16_to_decimal};

verus! {

/// Why an operation failed.
#[derive(Debug, Clone)]
pub enum Error {
    /// The HTTP exchange itself could not be completed.
    Http(String),
    /// A value could not be written to or read from JSON.
    Json(String),
    /// The base address or a constructed URL is not well formed.
    UrlParse(String),
    /// A credential or header value holds characters that HTTP refuses.
    InvalidHeaderValue(String),
    /// The service answered with a status of 400 or above; `message` is
    /// the response body as it came.
    Api { status: u16, message: String },
    /// Authentication failed.
    Authentication,
    /// A search over a list response found no match.
    NotFound,
    /// A precondition of the operation failed before any exchange.
    InvalidInput(String),
}

/// The result of an operation of this library.
pub type ApiResult<T> = Result<T, Error>;

/// The descriptive message of each error.
pub open spec fn message_of(e: Error) -> Seq<char> {
    match e {
        Error::Http(m) => "HTTP request failed: "@ + m@,
        Error::Json(m) => "JSON serialization/deserialization failed: "@ + m@,
        Error::UrlParse(m) => "URL parsing failed: "@ + m@,
        Error::InvalidHeaderValue(m) => "Invalid header value: "@ + m@,
        Error::Api { status, message } => "API error: "@ + decimal(status as nat) + " - "@
            + message@,
        Error::Authentication => "Authentication failed"@,
        Error::NotFound => "Resource not found"@,
        Error::InvalidInput(m) => "Invalid input: "@ + m@,
    }
}

fn prefixed(prefix: &str, m: &String) -> (r: String)
    ensures
        r@ == prefix@ + m@,
{
    let mut out = String::from_str(prefix);
    out.append(m.as_str());
    out
}

impl Error {
    /// A descriptive message for this error; an `Api` error keeps the
    /// service's text verbatim.
    pub fn message(&self) -> (r: String)
        ensures
            r@ == message_of(*self),
    {
        match self {
            Error::Http(m) => prefixed("HTTP request failed: ", m),
            Error::Json(m) => prefixed("JSON serialization/deserialization failed: ", m),
            Error::UrlParse(m) => prefixed("URL parsing failed: ", m),
            Error::InvalidHeaderValue(m) => prefixed("Invalid header value: ", m),
            Error::Api { status, message } => {
                let mut out = String::from_str("API error: ");
                let code = u16_to_decimal(*status);
                out.append(code.as_str());
                out.append(" - ");
                out.append(message.as_str());
                out
            },
            Error::Authentication => String::from_str("Authentication failed"),
            Error::NotFound => String::from_str("Resource not found"),
            Error::InvalidInput(m) => prefixed("Invalid input: ", m),
        }
    }
}

} // verus!
