use healthz_cache::{
    error_response, handle_error, healthz, post_healthz, serve, Request, TtlStore, RMW_KEY,
    STATUS_BAD_REQUEST, STATUS_INTERNAL_SERVER_ERROR, STATUS_OK, TTL_MILLIS,
};

#[test]
fn query_is_fixed() {
    let r = healthz();
    assert_eq!(r.status, 200);
    assert_eq!(r.content, "foo");
}

#[test]
fn query_ignores_cache_state() {
    let mut s = TtlStore::new();
    let r1 = serve(&mut s, Request::Query, 0);
    serve(&mut s, Request::ReadModifyWrite(Some("bar".to_string())), 1);
    let r2 = serve(&mut s, Request::Query, 2);
    assert_eq!((r1.status, r1.content.as_str()), (STATUS_OK, "foo"));
    assert_eq!((r2.status, r2.content.as_str()), (STATUS_OK, "foo"));
    assert_eq!(s.get(RMW_KEY, 3), Some("bar".to_string()));
}

#[test]
fn read_modify_write_sequence() {
    let mut s = TtlStore::new();
    let r1 = post_healthz(&mut s, Some("bar".to_string()), 0);
    assert_eq!(r1.status, 200);
    assert_eq!(r1.content, " bar");
    let r2 = post_healthz(&mut s, Some("baz".to_string()), 1);
    assert_eq!(r2.status, 200);
    assert_eq!(r2.content, "bar baz");
    assert_eq!(s.get(0, 2), Some("baz".to_string()));
}

#[test]
fn read_modify_write_after_expiry_sees_empty() {
    let mut s = TtlStore::new();
    post_healthz(&mut s, Some("bar".to_string()), 0);
    let r = post_healthz(&mut s, Some("baz".to_string()), TTL_MILLIS);
    assert_eq!(r.content, " baz");
}

#[test]
fn malformed_body_is_bad_request() {
    let mut s = TtlStore::new();
    s.insert(0, "kept".to_string(), 0);
    let r = post_healthz(&mut s, None, 1);
    assert_eq!(r.status, STATUS_BAD_REQUEST);
    assert_eq!(r.content, "");
    assert_eq!(s.get(0, 2), Some("kept".to_string()));
    let r = serve(&mut s, Request::ReadModifyWrite(None), 3);
    assert_eq!(r.status, 400);
    assert_eq!(r.content, "invalid parameter is set.");
}

#[test]
fn internal_failure_response() {
    let mut r = error_response();
    assert_eq!(r.status, STATUS_INTERNAL_SERVER_ERROR);
    assert_eq!(r.content, "error occurred");
    assert!(handle_error(&mut r));
    assert_eq!(r.status, 500);
    assert_eq!(r.content, "internal error occurred.");
}
