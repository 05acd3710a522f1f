//! A transport-agnostic dispatch layer: a `Request` describing one API
//! operation is routed onto exactly one backend operation, and the backend's
//! outcome becomes either a `Reply` or an `Error`. A `Reply` is either a single
//! JSON document or a stream of chunks fed through a `Sender`.

pub mod json;
pub mod error;
pub mod dispatch;
pub mod request;
pub mod reply;

pub use json::{JsonObject, JsonValue};
pub use request::{Method, Request};
pub use error::{Detail, Error, ErrorKind};
pub use dispatch::{complete, route, Operation};
pub use reply::{Body, Pull, Reply, ReplyData, Sender, Wire};
