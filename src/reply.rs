use vstd::prelude::*;
use vstd::utf8::encode_utf8;
use futures::sync::mpsc::{UnboundedReceiver, UnboundedSender};
use crate::json::JsonValue;
use crate::request::Request;

verus! {

#[verifier::external_type_specification]
#[verifier::external_body]
#[verifier::reject_recursive_types(T)]
pub struct ExUnboundedSender<T>(UnboundedSender<T>);

#[verifier::external_type_specification]
#[verifier::external_body]
#[verifier::reject_recursive_types(T)]
pub struct ExUnboundedReceiver<T>(UnboundedReceiver<T>);

/// The text that serde_json writes for a document.
pub uninterp spec fn json_text_of(v: JsonValue) -> Seq<char>;

/// Relies on serde_json's `Display` for `Value` (through `to_string`): the
/// compact JSON text of the document, which depends on the document alone.
/// Writing a `Value` cannot fail, so `to_string` does not panic.
#[verifier::external_body]
fn json_text(v: &JsonValue) -> (r: String)
    ensures
        r@ == json_text_of(*v),
{
    v.to_string()
}

/// Relies on `futures::sync::mpsc::unbounded`: a fresh queue with no bound on
/// what it buffers, as a sending and a receiving end.
#[verifier::external_body]
fn open_queue() -> (UnboundedSender<String>, UnboundedReceiver<String>) {
    futures::sync::mpsc::unbounded()
}

/// Relies on `UnboundedSender::unbounded_send`: queues the chunk, or hands it
/// back as an error once the receiving end is gone. Which of the two happens
/// depends on the receiving end, so nothing is promised of the result. It
/// panics only with more than `usize::MAX / 2` chunks queued, which memory
/// runs out before.
#[verifier::external_body]
fn queue_push(tx: &UnboundedSender<String>, chunk: String) -> (queued: bool) {
    tx.unbounded_send(chunk).is_ok()
}

/// Relies on `Clone` for `UnboundedSender`: one more sending end of the same
/// queue. It panics only with more than `usize::MAX / 2` senders alive.
#[verifier::external_body]
fn queue_sender_clone(tx: &UnboundedSender<String>) -> UnboundedSender<String> {
    tx.clone()
}

/// What a reply carries: one document, or the receiving end of a queue of chunks.
#[derive(Debug)]
pub enum ReplyData {
    Value(JsonValue),
    Stream(UnboundedReceiver<String>),
}

/// The answer to one request.
#[derive(Debug)]
pub struct Reply {
    pub data: ReplyData,
    pub code: i64,
    pub req: Option<Request>,
}

/// The producing end of a streamed reply. Chunks sent through one `Sender`
/// arrive in the order they were sent. The queue behind it buffers without
/// bound: a producer that outpaces the consumer grows it without limit.
pub struct Sender {
    tx: UnboundedSender<String>,
}

impl Sender {
    /// Queues one chunk for the paired reply's body. Once that reply or its
    /// body is gone the chunk is discarded; the result tells which happened.
    pub fn send(&self, chunk: String) -> (queued: bool) {
        queue_push(&self.tx, chunk)
    }
}

impl Clone for Sender {
    /// One more producer on the same queue.
    fn clone(&self) -> Sender {
        Sender { tx: queue_sender_clone(&self.tx) }
    }
}

/// The consuming side of a reply: a sequence of chunks that is pulled once,
/// never replayed.
#[derive(Debug)]
pub enum Body {
    /// A single chunk, taken out when it is pulled.
    Once(Option<String>),
    /// Whatever the queue yields, until every `Sender` is gone.
    Stream(UnboundedReceiver<String>),
}

/// The outcome of pulling a body.
#[derive(Debug, PartialEq, Eq)]
pub enum Pull {
    /// The next chunk.
    Chunk(String),
    /// No chunk yet; the queue is still open.
    Pending,
    /// The body has ended cleanly.
    End,
    /// The queue failed: the body ends short.
    Incomplete,
}

impl Pull {
    /// What a body yields for one poll of its queue: `Ok(None)` where no chunk
    /// is ready, `Ok(Some(None))` where the queue is closed, and `Err(())`
    /// where it failed.
    pub fn from_queue(polled: Result<Option<Option<String>>, ()>) -> (r: Pull)
        ensures
            polled matches Ok(Some(Some(c))) ==> r == Pull::Chunk(c),
            polled matches Ok(Some(None)) ==> r == Pull::End,
            polled matches Ok(None) ==> r == Pull::Pending,
            polled is Err ==> r == Pull::Incomplete,
    {
        match polled {
            Ok(Some(Some(c))) => Pull::Chunk(c),
            Ok(Some(None)) => Pull::End,
            Ok(None) => Pull::Pending,
            Err(()) => Pull::Incomplete,
        }
    }
}

impl Body {
    /// Pulls a single-chunk body: its chunk the first time, the end after
    /// that. A streamed body is left as it is and `None` comes back: its queue
    /// is polled by the transport, and `Pull::from_queue` reads the outcome.
    pub fn poll_once(&mut self) -> (r: Option<Pull>)
        ensures
            *old(self) matches Body::Once(Some(c)) ==> r == Some(Pull::Chunk(c)) && *final(self)
                == Body::Once(None),
            *old(self) matches Body::Once(None) ==> r == Some(Pull::End) && *final(self)
                == Body::Once(None),
            *old(self) is Stream ==> r is None && *final(self) == *old(self),
    {
        match self {
            Body::Once(opt) => match opt.take() {
                Some(c) => Some(Pull::Chunk(c)),
                None => Some(Pull::End),
            },
            Body::Stream(_) => None,
        }
    }
}

/// A reply as a transport writes it.
#[derive(Debug)]
pub struct Wire {
    /// The exact length in bytes of the body, where it is known in advance.
    pub content_length: Option<usize>,
    /// Whether the body is an event stream of UTF-8 text.
    pub event_stream: bool,
    pub body: Body,
}

impl Reply {
    pub fn new(code: i64, req: Option<Request>, data: JsonValue) -> (r: Reply)
        ensures
            r.code == code,
            r.req == req,
            r.data == ReplyData::Value(data),
    {
        Reply { code, req, data: ReplyData::Value(data) }
    }

    /// A streamed reply and the `Sender` that feeds it: the only way to make
    /// one.
    pub fn new_streamed(code: i64, req: Option<Request>) -> (r: (Sender, Reply))
        ensures
            r.1.code == code,
            r.1.req == req,
            r.1.data is Stream,
    {
        let (tx, rx) = open_queue();
        let reply = Reply { code, req, data: ReplyData::Stream(rx) };
        (Sender { tx }, reply)
    }

    /// The document of a single-value reply.
    pub fn data(&self) -> (r: Option<&JsonValue>)
        ensures
            self.data matches ReplyData::Value(v) ==> r == Some(&v),
            self.data is Stream ==> r is None,
    {
        match &self.data {
            ReplyData::Value(v) => Some(v),
            ReplyData::Stream(_) => None,
        }
    }

    pub fn code(&self) -> (r: i64)
        ensures
            r == self.code,
    {
        self.code
    }

    pub fn request(&self) -> (r: &Option<Request>)
        ensures
            *r == self.req,
    {
        &self.req
    }

    /// The reply as a transport writes it. A document is written as its JSON
    /// text, in one chunk, with its exact length in bytes; a stream is
    /// marked as an event stream and written chunk by chunk from its queue.
    pub fn into_wire(self) -> (w: Wire)
        ensures
            self.data matches ReplyData::Value(v) ==> {
                &&& w.body matches Body::Once(Some(t)) && t@ == json_text_of(v)
                    && w.content_length == Some(encode_utf8(t@).len() as usize)
                &&& !w.event_stream
            },
            self.data matches ReplyData::Stream(rx) ==> {
                &&& w.body == Body::Stream(rx)
                &&& w.content_length is None
                &&& w.event_stream
            },
    {
        match self.data {
            ReplyData::Value(v) => {
                let text = json_text(&v);
                let len = text.as_str().len();
                Wire { content_length: Some(len), event_stream: false, body: Body::Once(Some(text)) }
            },
            ReplyData::Stream(rx) => Wire { content_length: None, event_stream: true, body: Body::Stream(rx) },
        }
    }
}

} // verus!
