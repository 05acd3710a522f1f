use vstd::prelude::*;
use crate::json::{JsonObject, JsonValue};
use crate::reply::{Reply, ReplyData};

verus! {

/// The operation a request asks for.
#[derive(Debug, Clone)]
pub enum Method {
    /// Every item of a resource (idempotent).
    List,
    /// One item, by identifier (idempotent).
    Get,
    /// Remove one item, by identifier (idempotent).
    Delete,
    /// Create an item.
    Post,
    /// Change one item, by identifier.
    Patch,
    /// Subscribe to a live stream of events.
    Listen,
    /// A named custom operation on one item.
    Action(String),
}

impl Method {
    /// Whether this method names one item and so cannot do without an identifier.
    pub open spec fn needs_id(self) -> bool {
        match self {
            Method::Get | Method::Patch | Method::Delete | Method::Action(_) => true,
            _ => false,
        }
    }

    /// Whether repeating the operation has the same effect as doing it once.
    pub open spec fn spec_is_idempotent(self) -> bool {
        match self {
            Method::List | Method::Get | Method::Delete => true,
            _ => false,
        }
    }

    pub fn requires_id(&self) -> (r: bool)
        ensures
            r == self.needs_id(),
    {
        match self {
            Method::Get | Method::Patch | Method::Delete | Method::Action(_) => true,
            _ => false,
        }
    }

    pub fn is_idempotent(&self) -> (r: bool)
        ensures
            r == self.spec_is_idempotent(),
    {
        match self {
            Method::List | Method::Get | Method::Delete => true,
            _ => false,
        }
    }
}

/// One inbound operation: which resource, which method, an optional item
/// identifier, a body document and the query parameters.
#[derive(Debug)]
pub struct Request {
    pub id: Option<String>,
    pub params: JsonObject,
    pub data: JsonValue,
    pub resource: String,
    pub method: Method,
}

impl Request {
    pub fn new(resource: String, method: Method, id: Option<String>, data: JsonValue, params: JsonObject) -> (r: Request)
        ensures
            r.resource == resource,
            r.method == method,
            r.id == id,
            r.data == data,
            r.params == params,
    {
        Request { resource, method, id, data, params }
    }

    /// A successful single-value reply to this request, carrying it along.
    pub fn into_reply(self, reply: JsonValue) -> (r: Reply)
        ensures
            r.code == 200,
            r.data == ReplyData::Value(reply),
            r.req == Some(self),
    {
        Reply::new(200, Some(self), reply)
    }

    pub fn method(&self) -> (r: &Method)
        ensures
            *r == self.method,
    {
        &self.method
    }

    pub fn resource(&self) -> (r: &str)
        ensures
            r@ == self.resource@,
    {
        self.resource.as_str()
    }

    pub fn id(&self) -> (r: &Option<String>)
        ensures
            *r == self.id,
    {
        &self.id
    }

    pub fn params(&self) -> (r: &JsonObject)
        ensures
            *r == self.params,
    {
        &self.params
    }

    pub fn data(&self) -> (r: &JsonValue)
        ensures
            *r == self.data,
    {
        &self.data
    }

    /// The body document, for middleware that rewrites it before dispatch;
    /// everything else stays as it was.
    pub fn data_mut(&mut self) -> (r: &mut JsonValue)
        ensures
            *r == old(self).data,
            final(self).data == *final(r),
            final(self).id == old(self).id,
            final(self).params == old(self).params,
            final(self).resource == old(self).resource,
            final(self).method == old(self).method,
    {
        &mut self.data
    }
}

} // verus!
