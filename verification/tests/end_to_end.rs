use perfprox::client::{Client, SendOutcome};
use perfprox::connection::{ReadEvent, SocketSide, WriteEvent};
use perfprox::metrics::Metric;
use perfprox::proxy::{Proxy, ReadRoute, WriteRoute};

#[test]
fn a_thousand_ping_pong_rounds_relay_cleanly_and_sample_in_pairs() {
    let mut proxy = Proxy::new();
    let h = proxy.server.accept().unwrap().handle;

    let mut clock: u64 = 0;
    let mut samples = Vec::new();
    let mut backend_received = Vec::new();
    let mut client_received = Vec::new();
    let rounds: usize = 1000;

    for _ in 0..rounds {
        // The client socket turns readable: the request arrives.
        clock += 1;
        let decision = proxy.ready(h, true, false);
        assert_eq!(decision.read_route, Some(ReadRoute::Session(h)));
        let out = proxy.server.conn_readable(h, ReadEvent::Data(b"PING".to_vec()), clock);
        assert!(!out.removed);
        samples.extend(out.directive.sample);

        // The backend socket turns writable: forward the request.
        clock += 1;
        let decision = proxy.ready(h, false, true);
        assert_eq!(decision.write_route, Some(WriteRoute::Session(h)));
        let conn = proxy.server.conn(h).unwrap();
        assert_eq!(conn.active_side(), SocketSide::BackendSock);
        backend_received.push(conn.staged().unwrap().clone());
        let d = proxy.server.conn_writable(h, WriteEvent::Wrote, clock);
        samples.extend(d.sample);

        // The backend socket turns readable: the reply arrives.
        clock += 1;
        let out = proxy.server.conn_readable(h, ReadEvent::Data(b"PONG".to_vec()), clock);
        assert!(!out.removed);
        samples.extend(out.directive.sample);

        // The client socket turns writable: deliver the reply.
        clock += 1;
        let conn = proxy.server.conn(h).unwrap();
        assert_eq!(conn.active_side(), SocketSide::ClientSock);
        client_received.push(conn.staged().unwrap().clone());
        let d = proxy.server.conn_writable(h, WriteEvent::Wrote, clock);
        samples.extend(d.sample);
    }

    // Zero byte corruption in either direction.
    assert_eq!(backend_received.len(), rounds);
    assert_eq!(client_received.len(), rounds);
    assert!(backend_received.iter().all(|m| m == b"PING"));
    assert!(client_received.iter().all(|m| m == b"PONG"));

    // One sample pair per round once the first round has anchored the
    // timestamps; every sample measures a forward interval.
    assert_eq!(samples.len(), 2 * (rounds - 1));
    for pair in samples.chunks(2) {
        assert_eq!(pair[0].metric, Metric::Backend);
        assert_eq!(pair[1].metric, Metric::Frontend);
        assert!(pair[0].start < pair[0].stop);
        assert!(pair[1].start < pair[1].stop);
    }
}

#[test]
fn a_scripted_client_sees_its_messages_echoed_byte_for_byte() {
    let mut proxy = Proxy::new();
    let h = proxy.server.accept().unwrap().handle;

    let msgs: Vec<Vec<u8>> = (0..50).map(|i| format!("message-{}", i).into_bytes()).collect();
    let mut client = Client::new(h, msgs.clone());

    let mut clock: u64 = 0;
    for expected in &msgs {
        // The client sends the whole message in flight.
        let msg = client.message().clone();
        assert_eq!(&msg, expected);
        let interest = client.writable(SendOutcome::Sent(msg.len()));
        assert!(interest.readable, "after sending, the client waits for the echo");

        // The relay reads the request and forwards it to the backend.
        clock += 1;
        proxy.server.conn_readable(h, ReadEvent::Data(msg.clone()), clock);
        clock += 1;
        let to_backend = proxy.server.conn(h).unwrap().staged().unwrap().clone();
        assert_eq!(&to_backend, expected, "the backend receives exactly what was sent");
        proxy.server.conn_writable(h, WriteEvent::Wrote, clock);

        // An echoing backend returns the same bytes; the relay delivers
        // them to the client.
        clock += 1;
        proxy.server.conn_readable(h, ReadEvent::Data(to_backend), clock);
        clock += 1;
        let to_client = proxy.server.conn(h).unwrap().staged().unwrap().clone();
        assert_eq!(&to_client, expected, "the client receives exactly the backend's reply");
        proxy.server.conn_writable(h, WriteEvent::Wrote, clock);

        // The scripted client checks the echo and moves on.
        let r = client.readable(ReadEvent::Data(to_client));
        assert!(r.matched, "the echo must match the script byte-for-byte");
    }
    assert_eq!(client.queued(), 0, "the whole script was exchanged");
    assert!(!proxy.server.conn(h).unwrap().is_closed());
}
