use mcp_center::response::{ApiError, Payload, Response, TextError};

#[test]
fn new_without_payload_is_null() {
    let r = Response::new(201, "created", None);
    assert_eq!(r.code, 201);
    assert_eq!(r.message, "created");
    assert!(matches!(r.data, Some(Payload::Null)));
}

#[test]
fn success_carries_payload() {
    let r = Response::success(Payload::Text("x".to_string()));
    assert_eq!(r.code, 200);
    assert_eq!(r.message, "OK");
    assert!(matches!(r.data, Some(Payload::Text(ref t)) if t == "x"));
}

#[test]
fn fixed_bodies() {
    let e = Response::error("boom");
    assert_eq!((e.code, e.message.as_str()), (500, "boom"));
    let i = Response::internal_server_error();
    assert_eq!((i.code, i.message.as_str()), (500, "Internal Server Error"));
    let n = Response::not_found();
    assert_eq!((n.code, n.message.as_str()), (404, "Not Found"));
    let u = Response::unauthorized();
    assert_eq!((u.code, u.message.as_str()), (401, "Unauthorized"));
    let c = Response::common(418, "teapot");
    assert_eq!((c.code, c.message.as_str()), (418, "teapot"));
    assert!(matches!(c.data, Some(Payload::Null)));
}

#[test]
fn error_constructors() {
    let e = ApiError::internal("bad");
    assert_eq!(e.status, 500);
    assert_eq!(e.body.code, 500);
    assert_eq!(e.body.message, "bad");
    let c = ApiError::common(401, "no");
    assert_eq!((c.status, c.body.code, c.body.message.as_str()), (401, 401, "no"));
    let t = TextError::new(404, "missing");
    assert_eq!((t.status, t.message.as_str()), (404, "missing"));
}
