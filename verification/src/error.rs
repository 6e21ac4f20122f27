use vstd::prelude::*;
use vstd::string::StringExecFns;

verus! {

/// Error taxonomy of the client.
///
/// `JsonError` marks a body that is not a recognizable envelope (fatal decode
/// mismatch); `RequestError` marks a transport-level failure (connection,
/// timeout); `ParseError` marks a malformed or unsupported date string;
/// `IOError` and `SqlError` are carried for callers that persist or store
/// results. Each variant holds a human-readable description.
#[derive(Debug, Clone, PartialEq, Eq)]
pub enum Error {
    SqlError(String),
    JsonError(String),
    ParseError(String),
    IOError(String),
    RequestError(String),
}

impl Error {
    /// The description carried by the error, whichever variant it is.
    pub fn detail(&self) -> (r: &str)
        ensures
            match self {
                Error::SqlError(m) => r@ == m@,
                Error::JsonError(m) => r@ == m@,
                Error::ParseError(m) => r@ == m@,
                Error::IOError(m) => r@ == m@,
                Error::RequestError(m) => r@ == m@,
            },
    {
        match self {
            Error::SqlError(m) => m.as_str(),
            Error::JsonError(m) => m.as_str(),
            Error::ParseError(m) => m.as_str(),
            Error::IOError(m) => m.as_str(),
            Error::RequestError(m) => m.as_str(),
        }
    }

    /// A rendering in the style `"<kind> error: <detail>"`, offered in place
    /// of a `Display` implementation.
    pub fn describe(&self) -> (r: String)
        ensures
            match self {
                Error::SqlError(m) => r@ == "SQL error: "@ + m@,
                Error::JsonError(m) => r@ == "JSON error: "@ + m@,
                Error::ParseError(m) => r@ == "Parse Error : "@ + m@,
                Error::IOError(m) => r@ == "Io error: "@ + m@,
                Error::RequestError(m) => r@ == "Request error: "@ + m@,
            },
    {
        match self {
            Error::SqlError(m) => String::from_str("SQL error: ").concat(m.as_str()),
            Error::JsonError(m) => String::from_str("JSON error: ").concat(m.as_str()),
            Error::ParseError(m) => String::from_str("Parse Error : ").concat(m.as_str()),
            Error::IOError(m) => String::from_str("Io error: ").concat(m.as_str()),
            Error::RequestError(m) => String::from_str("Request error: ").concat(m.as_str()),
        }
    }
}

} // verus!
