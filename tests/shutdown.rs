use healthz_cache::Drain;

#[test]
fn accepts_until_stopped() {
    let mut d = Drain::new();
    assert!(d.on_request());
    assert!(d.on_request());
    assert_eq!(d.in_flight(), 2);
    assert!(!d.may_exit());
}

#[test]
fn drain_on_stop() {
    let mut d = Drain::new();
    assert!(d.on_request());
    d.stop();
    assert!(!d.on_request());
    assert_eq!(d.in_flight(), 1);
    assert!(!d.may_exit());
    d.on_complete();
    assert_eq!(d.in_flight(), 0);
    assert!(d.may_exit());
    assert!(!d.on_request());
}

#[test]
fn idle_server_exits_at_once_on_stop() {
    let mut d = Drain::new();
    assert!(!d.may_exit());
    d.stop();
    assert!(d.may_exit());
}
