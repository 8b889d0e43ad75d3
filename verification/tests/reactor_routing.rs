use perfprox::proxy::{Proxy, ReadRoute, Verbosity, WriteRoute, SERVER};
use perfprox::server::MAX_CONNECTIONS;

#[test]
fn readable_on_the_reserved_token_means_accept() {
    let proxy = Proxy::new();
    let r = proxy.ready(SERVER, true, false);
    assert_eq!(r.read_route, Some(ReadRoute::Accept));
    assert_eq!(r.write_route, None);
}

#[test]
fn readable_on_a_session_token_goes_to_that_session() {
    let proxy = Proxy::new();
    let r = proxy.ready(7, true, false);
    assert_eq!(r.read_route, Some(ReadRoute::Session(7)));
    assert_eq!(r.write_route, None);
}

#[test]
fn writable_on_the_reserved_token_is_a_contract_violation() {
    let proxy = Proxy::new();
    let r = proxy.ready(SERVER, false, true);
    assert_eq!(r.read_route, None);
    assert_eq!(r.write_route, Some(WriteRoute::ListenerViolation));
}

#[test]
fn both_halves_of_one_notification_are_routed() {
    let proxy = Proxy::new();
    let r = proxy.ready(3, true, true);
    assert_eq!(r.read_route, Some(ReadRoute::Session(3)));
    assert_eq!(r.write_route, Some(WriteRoute::Session(3)));
    let r = proxy.ready(3, false, false);
    assert_eq!(r.read_route, None);
    assert_eq!(r.write_route, None);
}

#[test]
fn a_fresh_proxy_has_an_empty_table_of_standard_capacity() {
    let mut proxy = Proxy::new();
    assert_eq!(proxy.server.session_count(), 0);
    assert_eq!(MAX_CONNECTIONS, 32768);
    let adm = proxy.server.accept().unwrap();
    assert_eq!(adm.handle, 1);
    assert_ne!(adm.handle, SERVER, "session handles never collide with the listener token");
}

#[test]
fn stacked_verbosity_flags_pick_the_log_level() {
    assert_eq!(perfprox::proxy::verbosity_for(0), Verbosity::Info);
    assert_eq!(perfprox::proxy::verbosity_for(1), Verbosity::Debug);
    assert_eq!(perfprox::proxy::verbosity_for(2), Verbosity::Trace);
    assert_eq!(perfprox::proxy::verbosity_for(9), Verbosity::Trace);
}
