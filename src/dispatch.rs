use vstd::prelude::*;
use crate::error::{Error, ErrorKind};
use crate::json::JsonValue;
use crate::reply::{Reply, ReplyData};
use crate::request::{Method, Request};

verus! {

/// The message of a request that lacks the identifier its method needs.
pub open spec fn missing_id_message() -> Seq<char> {
    "missing id in request"@
}

/// The message of a `Listen` request, which a plain backend cannot serve.
pub open spec fn listen_message() -> Seq<char> {
    "passed listen request to database adapter"@
}

/// The message of an `Action` request, which a plain backend cannot serve.
pub open spec fn action_message() -> Seq<char> {
    "passed action request to database adapter"@
}

/// The five operations of a backend.
#[derive(Debug, Clone, Copy, PartialEq, Eq, Structural)]
pub enum Operation {
    /// `find(params)`
    Find,
    /// `get(id, params)`
    Get,
    /// `create(body, params)`
    Create,
    /// `update(id, body, params)`
    Update,
    /// `delete(id, params)`
    Delete,
}

impl Operation {
    /// Whether the operation is called with the request's identifier.
    pub open spec fn takes_id(self) -> bool {
        self is Get || self is Update || self is Delete
    }
}

/// The one backend operation that a request with `method` goes to, where
/// `has_id` tells whether it carries an identifier; `None` where it goes to none.
pub open spec fn operation_for(method: Method, has_id: bool) -> Option<Operation> {
    match method {
        Method::List => Some(Operation::Find),
        Method::Post => Some(Operation::Create),
        Method::Get => if has_id { Some(Operation::Get) } else { None },
        Method::Delete => if has_id { Some(Operation::Delete) } else { None },
        Method::Patch => if has_id { Some(Operation::Update) } else { None },
        Method::Listen | Method::Action(_) => None,
    }
}

/// The kind and message with which a request is refused before any backend
/// call; `None` where it is not refused.
pub open spec fn refusal_for(method: Method, has_id: bool) -> Option<(ErrorKind, Seq<char>)> {
    if method is Listen {
        Some((ErrorKind::ServerError, listen_message()))
    } else if method.needs_id() && !has_id {
        Some((ErrorKind::BadRequest, missing_id_message()))
    } else if method is Action {
        Some((ErrorKind::ServerError, action_message()))
    } else {
        None
    }
}

/// Decides which backend operation serves `req`, or refuses it. A refused
/// request reaches no backend operation; any other reaches exactly one, and
/// one that takes an identifier only where the request carries one.
pub fn route(req: &Request) -> (r: Result<Operation, Error>)
    ensures
        r matches Ok(op) ==> operation_for(req.method, req.id is Some) == Some(op),
        r matches Ok(op) ==> (op.takes_id() ==> req.id is Some),
        r matches Err(e) ==> operation_for(req.method, req.id is Some) is None,
        r matches Err(e) ==> refusal_for(req.method, req.id is Some) matches Some(f) && e.says(
            f.0,
            f.1,
        ),
{
    let has_id = req.id.is_some();
    match &req.method {
        Method::List => Ok(Operation::Find),
        Method::Post => Ok(Operation::Create),
        Method::Listen => Err(Error::server_error("passed listen request to database adapter")),
        _ if !has_id => Err(Error::bad_request("missing id in request")),
        Method::Get => Ok(Operation::Get),
        Method::Delete => Ok(Operation::Delete),
        Method::Patch => Ok(Operation::Update),
        Method::Action(_) => Err(Error::server_error("passed action request to database adapter")),
    }
}

/// Turns the outcome of the backend operation that served `req` into the
/// answer: the document, untouched, as a single-value reply to `req`; or the
/// backend's kind and detail, untouched, as the error.
pub fn complete(req: Request, outcome: Result<JsonValue, (ErrorKind, JsonValue)>) -> (r: Result<Reply, Error>)
    ensures
        outcome matches Ok(doc) ==> r matches Ok(reply) && reply.data == ReplyData::Value(doc)
            && reply.req == Some(req) && reply.code == 200,
        outcome matches Err((kind, detail)) ==> r matches Err(e) && e.kind == kind && e.detail
            == crate::error::Detail::Document(detail),
{
    match outcome {
        Ok(doc) => Ok(req.into_reply(doc)),
        Err((kind, detail)) => Err(Error::new(kind, detail)),
    }
}

/// A request is either served by exactly one backend operation or refused,
/// never both.
pub proof fn lemma_served_or_refused(method: Method, has_id: bool)
    ensures
        operation_for(method, has_id) is Some <==> refusal_for(method, has_id) is None,
{
}

/// `Get`, `Patch` and `Delete` without an identifier are refused as bad
/// requests and reach no backend operation.
pub proof fn lemma_missing_id_refused(method: Method)
    requires
        method is Get || method is Patch || method is Delete,
    ensures
        operation_for(method, false) is None,
        refusal_for(method, false) == Some((ErrorKind::BadRequest, missing_id_message())),
{
}

/// `List` goes to `find` and `Post` to `create`, whether or not the request
/// carries an identifier.
pub proof fn lemma_list_and_post_ignore_id(has_id: bool)
    ensures
        operation_for(Method::List, has_id) == Some(Operation::Find),
        operation_for(Method::Post, has_id) == Some(Operation::Create),
{
}

/// `Listen`, with or without an identifier, and `Action` on an identified
/// item are refused as server errors and reach no backend operation.
pub proof fn lemma_listen_and_action_refused(method: Method, has_id: bool)
    requires
        method is Listen || (method is Action && has_id),
    ensures
        operation_for(method, has_id) is None,
        refusal_for(method, has_id) matches Some(f) && f.0 == ErrorKind::ServerError,
{
}

} // verus!
