use perfprox::connection::{ReadEvent, SocketSide, WriteEvent};
use perfprox::metrics::Metric;
use perfprox::server::Server;

#[test]
fn admission_hands_out_handles_and_registrations() {
    let mut server = Server::new(4);
    let adm = server.accept().expect("an empty table admits");
    assert_eq!(adm.handle, 1);
    assert_eq!(adm.client_registration.side, SocketSide::ClientSock);
    assert!(adm.client_registration.interest.readable);
    assert!(!adm.client_registration.interest.writable);
    assert!(adm.client_registration.oneshot);
    assert_eq!(adm.backend_registration.side, SocketSide::BackendSock);
    assert!(adm.backend_registration.interest.hangup);
    assert!(!adm.backend_registration.interest.readable);
    assert!(adm.backend_registration.oneshot);

    let adm2 = server.accept().expect("a second admission fits");
    assert_eq!(adm2.handle, 2);
    assert_eq!(server.session_count(), 2);
}

#[test]
fn the_table_rejects_admissions_beyond_capacity() {
    let capacity: usize = 3;
    let mut server = Server::new(capacity);
    for expected in 1..=capacity {
        let adm = server.accept().expect("should admit below capacity");
        assert_eq!(adm.handle, expected);
    }
    assert_eq!(server.session_count(), capacity);

    // The one-past-capacity admission is rejected...
    assert!(server.accept().is_none());
    // ...and the existing sessions are untouched.
    assert_eq!(server.session_count(), capacity);
    for handle in 1..=capacity {
        let conn = server.conn(handle).expect("existing session must survive");
        assert!(!conn.is_closed());
    }
}

#[test]
fn a_freed_handle_is_reused_by_the_next_admission() {
    let mut server = Server::new(8);
    let h1 = server.accept().unwrap().handle;
    let h2 = server.accept().unwrap().handle;
    let h3 = server.accept().unwrap().handle;
    assert_eq!((h1, h2, h3), (1, 2, 3));

    // The backend of session 2 closes while idle: zero-byte read.
    let out = server.conn_readable(h2, ReadEvent::Data(Vec::new()), 5);
    assert!(out.removed, "a closed session is removed at once");
    assert!(server.conn(h2).is_none(), "its handle is no longer live");
    assert!(server.conn(h1).is_some());
    assert!(server.conn(h3).is_some());
    assert_eq!(server.session_count(), 2);

    // The next admission reuses the freed handle.
    let adm = server.accept().expect("a freed slot admits");
    assert_eq!(adm.handle, h2);
    assert_eq!(server.session_count(), 3);
}

#[test]
fn dispatch_relays_a_full_exchange_through_the_table() {
    let mut server = Server::new(4);
    let h = server.accept().unwrap().handle;

    let out = server.conn_readable(h, ReadEvent::Data(b"PING".to_vec()), 10);
    assert!(!out.removed);
    assert!(out.directive.sample.is_none());
    assert_eq!(
        server.conn(h).unwrap().staged().unwrap(),
        &b"PING".to_vec(),
        "the request is staged byte-for-byte"
    );

    let d = server.conn_writable(h, WriteEvent::Wrote, 20);
    assert!(d.sample.is_none());
    assert!(server.conn(h).unwrap().staged().is_none());

    let out = server.conn_readable(h, ReadEvent::Data(b"PONG".to_vec()), 30);
    assert!(!out.removed);
    assert_eq!(server.conn(h).unwrap().staged().unwrap(), &b"PONG".to_vec());

    let d = server.conn_writable(h, WriteEvent::Wrote, 40);
    assert!(d.sample.is_none());

    // The next request closes the first full measured cycle.
    let out = server.conn_readable(h, ReadEvent::Data(b"PING".to_vec()), 50);
    let s = out.directive.sample.unwrap();
    assert_eq!((s.start, s.stop, s.metric), (40, 50, Metric::Backend));
    let d = server.conn_writable(h, WriteEvent::Wrote, 60);
    let s = d.sample.unwrap();
    assert_eq!((s.start, s.stop, s.metric), (30, 60, Metric::Frontend));
}

#[test]
fn peer_close_removes_the_session_after_traffic() {
    let mut server = Server::new(4);
    let h = server.accept().unwrap().handle;
    server.conn_readable(h, ReadEvent::Data(b"PING".to_vec()), 10);
    server.conn_writable(h, WriteEvent::Wrote, 20);

    let out = server.conn_readable(h, ReadEvent::Data(Vec::new()), 30);
    assert!(out.removed);
    assert!(out.directive.rearm.is_none());
    assert!(out.directive.sample.is_none());
    assert!(server.conn(h).is_none());
    assert_eq!(server.session_count(), 0);
}

#[test]
fn lookups_outside_the_table_yield_nothing() {
    let mut server = Server::new(2);
    assert!(server.conn(0).is_none(), "the listener's reserved token is never a session");
    assert!(server.conn(1).is_none());
    let h = server.accept().unwrap().handle;
    assert!(server.conn(h).is_some());
    assert!(server.conn(h + 1).is_none());
}
