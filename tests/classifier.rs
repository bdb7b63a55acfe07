use healthz_cache::{
    classify_status, handle_error, is_client_error, is_informational,
    is_redirection, is_server_error, is_success, Response,
};

fn run(status: u16) -> (bool, Response) {
    let mut r = Response { status, content: String::new() };
    let stop = handle_error(&mut r);
    (stop, r)
}

#[test]
fn bad_request_is_invalid_parameter() {
    let (stop, r) = run(400);
    assert!(stop);
    assert_eq!(r.status, 400);
    assert_eq!(r.content, "invalid parameter is set.");
}

#[test]
fn internal_server_error_is_internal_error() {
    let (stop, r) = run(500);
    assert!(stop);
    assert_eq!(r.status, 500);
    assert_eq!(r.content, "internal error occurred.");
}

#[test]
fn other_client_errors() {
    for s in [401u16, 404, 418, 499] {
        let (stop, r) = run(s);
        assert!(stop);
        assert_eq!(r.status, s);
        assert_eq!(r.content, "4xx error occurred.");
    }
}

#[test]
fn other_server_errors() {
    for s in [501u16, 503, 599] {
        let (stop, r) = run(s);
        assert!(stop);
        assert_eq!(r.status, s);
        assert_eq!(r.content, "5xx error occurred.");
    }
}

#[test]
fn success_is_left_unchanged() {
    let mut r = Response { status: 200, content: "kept".to_string() };
    assert!(!handle_error(&mut r));
    assert_eq!(r.status, 200);
    assert_eq!(r.content, "kept");
    for s in [100u16, 204, 302, 399] {
        let (stop, r) = run(s);
        assert!(!stop);
        assert_eq!(r.content, "");
    }
}

#[test]
fn unrecognised_status_is_not_rewritten() {
    let mut r = Response { status: 700, content: "x".to_string() };
    assert!(!handle_error(&mut r));
    assert_eq!(r.content, "x");
}

#[test]
fn table_messages() {
    assert_eq!(classify_status(400), "invalid parameter is set.");
    assert_eq!(classify_status(500), "internal error occurred.");
    assert_eq!(classify_status(404), "4xx error occurred.");
    assert_eq!(classify_status(502), "5xx error occurred.");
    assert_eq!(classify_status(200), "");
    assert_eq!(classify_status(301), "");
    assert_eq!(classify_status(101), "");
    assert_eq!(classify_status(700), "something went wrong.");
    assert_eq!(classify_status(99), "something went wrong.");
}

#[test]
fn status_categories() {
    assert!(is_informational(100) && !is_informational(200));
    assert!(is_success(299) && !is_success(300));
    assert!(is_redirection(300) && !is_redirection(400));
    assert!(is_client_error(400) && is_client_error(499) && !is_client_error(500));
    assert!(is_server_error(500) && is_server_error(599) && !is_server_error(600));
}
