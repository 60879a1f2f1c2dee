//! The library's error type and how each error reads.
use vstd::prelude::*;

verus! {

/// What can go wrong across the library. Errors raised by other components (I/O, the
/// database, JSON, URLs, paths, dates, integer parsing and the rest) carry their message.
#[derive(Debug)]
pub enum Error {
    InvalidEndpoint(String),
    NotLoggedIn(String),
    RateLimit(String),
    Timeout(String),
    ObjectNotFound(String),
    ObjectNotComplete(String),
    ObjectAlreadyExists(String),
    UnknownField(String),
    IOError(String),
    DatabaseError(String),
    JSONError(String),
    UrlError(String),
    PathError(String),
    DateError(String),
    IntegerError(String),
    Other(String),
}

/// How an error reads: a phrase naming its kind around the message it carries; an
/// error of another component reads as that component's message.
pub open spec fn error_message(e: Error) -> Seq<char> {
    match e {
        Error::InvalidEndpoint(m) => "Invalid endpoint: "@ + m@,
        Error::NotLoggedIn(m) => "Not logged in: "@ + m@,
        Error::RateLimit(m) => "Rate Limit: "@ + m@,
        Error::Timeout(m) => "Timeout: "@ + m@,
        Error::ObjectNotFound(m) => "Object `"@ + m@ + "` not found"@,
        Error::ObjectNotComplete(m) => "Object `"@ + m@ + "` is not complete"@,
        Error::ObjectAlreadyExists(m) => "Object `"@ + m@ + "` already exists"@,
        Error::UnknownField(m) => "Unknown field: "@ + m@,
        Error::IOError(m) => "IO Error: "@ + m@,
        Error::DatabaseError(m) => "Database error: "@ + m@,
        Error::JSONError(m) => "Cannot encode/decode JSON: "@ + m@,
        Error::UrlError(m) => "Cannot parse URL: "@ + m@,
        Error::PathError(m) => "Cannot parse path: "@ + m@,
        Error::DateError(m) => "Cannot parse date: "@ + m@,
        Error::IntegerError(m) => "Cannot parse integer: "@ + m@,
        Error::Other(m) => m@,
    }
}

/// `prefix`, then `m`, then `suffix`.
pub fn framed(prefix: &str, m: &str, suffix: &str) -> (r: String)
    ensures
        r@ == prefix@ + m@ + suffix@,
{
    let mut s = String::from_str(prefix);
    s.append(m);
    s.append(suffix);
    s
}

impl Error {
    /// The error as text (see `error_message`).
    pub fn message(&self) -> (r: String)
        ensures
            r@ == error_message(*self),
    {
        proof {
            reveal_strlit("");
        }
        let r = match self {
            Error::InvalidEndpoint(m) => framed("Invalid endpoint: ", m.as_str(), ""),
            Error::NotLoggedIn(m) => framed("Not logged in: ", m.as_str(), ""),
            Error::RateLimit(m) => framed("Rate Limit: ", m.as_str(), ""),
            Error::Timeout(m) => framed("Timeout: ", m.as_str(), ""),
            Error::ObjectNotFound(m) => framed("Object `", m.as_str(), "` not found"),
            Error::ObjectNotComplete(m) => framed("Object `", m.as_str(), "` is not complete"),
            Error::ObjectAlreadyExists(m) => framed("Object `", m.as_str(), "` already exists"),
            Error::UnknownField(m) => framed("Unknown field: ", m.as_str(), ""),
            Error::IOError(m) => framed("IO Error: ", m.as_str(), ""),
            Error::DatabaseError(m) => framed("Database error: ", m.as_str(), ""),
            Error::JSONError(m) => framed("Cannot encode/decode JSON: ", m.as_str(), ""),
            Error::UrlError(m) => framed("Cannot parse URL: ", m.as_str(), ""),
            Error::PathError(m) => framed("Cannot parse path: ", m.as_str(), ""),
            Error::DateError(m) => framed("Cannot parse date: ", m.as_str(), ""),
            Error::IntegerError(m) => framed("Cannot parse integer: ", m.as_str(), ""),
            Error::Other(m) => m.clone(),
        };
        assert(r@ =~= error_message(*self));
        r
    }
}

} // verus!
