use vstd::prelude::*;
use crate::json::JsonValue;

verus! {

/// Why an operation failed.
#[derive(Debug, Clone, Copy, PartialEq, Eq, Structural)]
pub enum ErrorKind {
    BadRequest,
    Unauthorized,
    Forbidden,
    NotFound,
    MethodNotAllowed,
    Conflict,
    ServerError,
}

/// What an error says beyond its kind: a message of this library, or a
/// document that a backend handed back.
#[derive(Debug)]
pub enum Detail {
    Message(String),
    Document(JsonValue),
}

/// A failed operation. Never fatal: it is returned to the caller as a value.
#[derive(Debug)]
pub struct Error {
    pub kind: ErrorKind,
    pub detail: Detail,
}

impl Error {
    /// Whether this error is of `kind` and carries the message `msg`.
    pub open spec fn says(self, kind: ErrorKind, msg: Seq<char>) -> bool {
        &&& self.kind == kind
        &&& self.detail matches Detail::Message(m) && m@ == msg
    }

    /// An error with a backend's document as its detail.
    pub fn new(kind: ErrorKind, detail: JsonValue) -> (r: Error)
        ensures
            r.kind == kind,
            r.detail == Detail::Document(detail),
    {
        Error { kind, detail: Detail::Document(detail) }
    }

    /// An error of `kind` with the message `msg`.
    pub fn with_message(kind: ErrorKind, msg: &str) -> (r: Error)
        ensures
            r.says(kind, msg@),
    {
        Error { kind, detail: Detail::Message(msg.to_owned()) }
    }

    pub fn bad_request(msg: &str) -> (r: Error)
        ensures
            r.says(ErrorKind::BadRequest, msg@),
    {
        Error::with_message(ErrorKind::BadRequest, msg)
    }

    pub fn server_error(msg: &str) -> (r: Error)
        ensures
            r.says(ErrorKind::ServerError, msg@),
    {
        Error::with_message(ErrorKind::ServerError, msg)
    }
}

} // verus!
