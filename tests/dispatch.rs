use backtalk::{complete, route, Detail, Error, ErrorKind, JsonObject, JsonValue, Method, Operation, Reply, Request};

/// A backend that answers each operation with a document naming it, and fails
/// on `create`.
struct TestAdapter {
    calls: std::cell::Cell<usize>,
}

impl TestAdapter {
    fn new() -> TestAdapter {
        TestAdapter { calls: std::cell::Cell::new(0) }
    }

    fn call(&self, op: Operation, _req: &Request) -> Result<JsonValue, (ErrorKind, JsonValue)> {
        self.calls.set(self.calls.get() + 1);
        let name = match op {
            Operation::Find => "find",
            Operation::Get => "get",
            Operation::Update => "patch",
            Operation::Delete => "delete",
            Operation::Create => {
                return Err((ErrorKind::ServerError, json("{\"error\": \"testerror\"}")));
            }
        };
        let mut obj = JsonObject::new();
        obj.insert("method".to_string(), JsonValue::String(name.to_string()));
        Ok(JsonValue::Object(obj))
    }

    fn handle(&self, req: Request) -> Result<Reply, Error> {
        let op = route(&req)?;
        let outcome = self.call(op, &req);
        complete(req, outcome)
    }
}

fn json(text: &str) -> JsonValue {
    serde_json::from_str(text).unwrap()
}

fn make_req(m: Method, id: Option<&str>) -> Request {
    Request::new("resource".to_string(), m, id.map(|s| s.to_string()), JsonValue::Object(JsonObject::new()), JsonObject::new())
}

fn message(e: &Error) -> &str {
    match &e.detail {
        Detail::Message(m) => m.as_str(),
        Detail::Document(_) => panic!("expected a message"),
    }
}

#[test]
fn adapter_can_list() {
    let adapter = TestAdapter::new();
    let res = adapter.handle(make_req(Method::List, None)).unwrap();
    assert!(res.data().unwrap().get("method").unwrap() == "find");
}

#[test]
fn adapter_can_get() {
    let adapter = TestAdapter::new();
    let res = adapter.handle(make_req(Method::Get, Some("12"))).unwrap();
    assert!(res.data().unwrap().get("method").unwrap() == "get");
}

#[test]
fn adapter_can_patch() {
    let adapter = TestAdapter::new();
    let res = adapter.handle(make_req(Method::Patch, Some("12"))).unwrap();
    assert!(res.data().unwrap().get("method").unwrap() == "patch");
}

#[test]
fn adapter_can_delete() {
    let adapter = TestAdapter::new();
    let res = adapter.handle(make_req(Method::Delete, Some("12"))).unwrap();
    assert!(res.data().unwrap().get("method").unwrap() == "delete");
}

#[test]
fn adapter_rejects_without_id() {
    let adapter = TestAdapter::new();
    for method in vec![Method::Patch, Method::Delete, Method::Get] {
        let _res = adapter.handle(make_req(method, None)).unwrap_err();
    }
}

#[test]
fn adapter_can_show_errors() {
    let adapter = TestAdapter::new();
    let _res = adapter.handle(make_req(Method::Post, None)).unwrap_err();
}

#[test]
fn missing_id_calls_no_operation() {
    let adapter = TestAdapter::new();
    for method in vec![Method::Patch, Method::Delete, Method::Get, Method::Action("close".to_string())] {
        let e = adapter.handle(make_req(method, None)).unwrap_err();
        assert_eq!(e.kind, ErrorKind::BadRequest);
        assert_eq!(message(&e), "missing id in request");
    }
    assert_eq!(adapter.calls.get(), 0);
}

#[test]
fn list_and_post_ignore_the_id() {
    assert_eq!(route(&make_req(Method::List, None)).unwrap(), Operation::Find);
    assert_eq!(route(&make_req(Method::List, Some("7"))).unwrap(), Operation::Find);
    assert_eq!(route(&make_req(Method::Post, None)).unwrap(), Operation::Create);
    assert_eq!(route(&make_req(Method::Post, Some("7"))).unwrap(), Operation::Create);
}

#[test]
fn identified_methods_route_to_their_operation() {
    assert_eq!(route(&make_req(Method::Get, Some("1"))).unwrap(), Operation::Get);
    assert_eq!(route(&make_req(Method::Patch, Some("1"))).unwrap(), Operation::Update);
    assert_eq!(route(&make_req(Method::Delete, Some("1"))).unwrap(), Operation::Delete);
}

#[test]
fn listen_is_refused_with_or_without_id() {
    let adapter = TestAdapter::new();
    for id in vec![None, Some("3")] {
        let e = adapter.handle(make_req(Method::Listen, id)).unwrap_err();
        assert_eq!(e.kind, ErrorKind::ServerError);
        assert_eq!(message(&e), "passed listen request to database adapter");
    }
    assert_eq!(adapter.calls.get(), 0);
}

#[test]
fn action_on_an_item_is_refused() {
    let adapter = TestAdapter::new();
    let e = adapter.handle(make_req(Method::Action("close".to_string()), Some("3"))).unwrap_err();
    assert_eq!(e.kind, ErrorKind::ServerError);
    assert_eq!(message(&e), "passed action request to database adapter");
    assert_eq!(adapter.calls.get(), 0);
}

#[test]
fn list_widgets_returns_the_document() {
    let req = Request::new("widgets".to_string(), Method::List, None, JsonValue::Null, JsonObject::new());
    assert_eq!(route(&req).unwrap(), Operation::Find);
    let reply = complete(req, Ok(json("{\"items\":[]}"))).unwrap();
    assert_eq!(reply.data().unwrap(), &json("{\"items\":[]}"));
    assert_eq!(reply.code(), 200);
    assert_eq!(reply.request().as_ref().unwrap().resource(), "widgets");
}

#[test]
fn get_without_id_is_a_bad_request() {
    let e = route(&make_req(Method::Get, None)).unwrap_err();
    assert_eq!(e.kind, ErrorKind::BadRequest);
    assert_eq!(message(&e), "missing id in request");
}

#[test]
fn patch_returns_the_backend_document() {
    let req = Request::new("widgets".to_string(), Method::Patch, Some("12".to_string()), json("{\"x\":1}"), JsonObject::new());
    assert_eq!(route(&req).unwrap(), Operation::Update);
    assert_eq!(req.id().as_deref(), Some("12"));
    assert_eq!(req.data(), &json("{\"x\":1}"));
    let reply = complete(req, Ok(json("{\"x\":1,\"id\":\"12\"}"))).unwrap();
    assert_eq!(reply.data().unwrap(), &json("{\"x\":1,\"id\":\"12\"}"));
}

#[test]
fn backend_error_passes_through() {
    let req = make_req(Method::Get, Some("9"));
    let e = complete(req, Err((ErrorKind::NotFound, json("{\"missing\":\"9\"}")))).unwrap_err();
    assert_eq!(e.kind, ErrorKind::NotFound);
    match e.detail {
        Detail::Document(d) => assert_eq!(d, json("{\"missing\":\"9\"}")),
        Detail::Message(_) => panic!("expected the backend's document"),
    }
}

#[test]
fn error_constructors() {
    let e = Error::bad_request("nope");
    assert_eq!(e.kind, ErrorKind::BadRequest);
    assert_eq!(message(&e), "nope");
    let e = Error::server_error("boom");
    assert_eq!(e.kind, ErrorKind::ServerError);
    assert_eq!(message(&e), "boom");
    let e = Error::new(ErrorKind::Conflict, JsonValue::Bool(true));
    assert_eq!(e.kind, ErrorKind::Conflict);
    assert!(matches!(e.detail, Detail::Document(JsonValue::Bool(true))));
}

#[test]
fn method_properties() {
    assert!(Method::Get.requires_id());
    assert!(Method::Action("x".to_string()).requires_id());
    assert!(!Method::List.requires_id());
    assert!(!Method::Post.requires_id());
    assert!(!Method::Listen.requires_id());
    assert!(Method::Delete.is_idempotent());
    assert!(!Method::Patch.is_idempotent());
    assert!(!Method::Post.is_idempotent());
}

#[test]
fn data_mut_rewrites_only_the_body() {
    let mut req = make_req(Method::Post, None);
    *req.data_mut() = json("{\"checked\":true}");
    assert_eq!(req.data(), &json("{\"checked\":true}"));
    assert_eq!(req.resource(), "resource");
    assert!(req.id().is_none());
    assert!(req.params().is_empty());
}
