use perfprox::client::{Client, SendOutcome};
use perfprox::connection::ReadEvent;

fn script() -> Vec<Vec<u8>> {
    vec![b"alpha".to_vec(), b"beta".to_vec()]
}

#[test]
fn a_new_client_wants_to_send_the_first_message() {
    let client = Client::new(9, script());
    assert_eq!(client.token(), 9);
    assert_eq!(client.message(), &b"alpha".to_vec());
    assert_eq!(client.progress(), (0, 0));
    assert_eq!(client.queued(), 1);
    assert!(!client.interest().readable);
    assert!(!client.interest().writable);
}

#[test]
fn a_completed_send_switches_interest_to_reading_the_echo() {
    let mut client = Client::new(1, script());
    let interest = client.writable(SendOutcome::Sent(5));
    assert_eq!(client.progress(), (5, 0));
    assert!(interest.readable);
    assert!(!interest.writable);
}

#[test]
fn a_blocked_send_asks_for_write_readiness() {
    let mut client = Client::new(1, script());
    let interest = client.writable(SendOutcome::WouldBlock);
    assert_eq!(client.progress(), (0, 0));
    assert!(interest.writable);
}

#[test]
fn a_failed_send_changes_nothing() {
    let mut client = Client::new(1, script());
    let interest = client.writable(SendOutcome::Fault);
    assert_eq!(client.progress(), (0, 0));
    assert!(!interest.writable);
    assert!(!interest.readable);
}

#[test]
fn the_echo_is_checked_and_the_script_advances() {
    let mut client = Client::new(1, script());
    client.writable(SendOutcome::Sent(5));

    // The echo arrives in two pieces.
    let r = client.readable(ReadEvent::Data(b"al".to_vec()));
    assert!(r.matched);
    assert_eq!(client.progress(), (5, 2));
    assert_eq!(client.queued(), 1);

    let r = client.readable(ReadEvent::Data(b"pha".to_vec()));
    assert!(r.matched);
    // The echo completed, so the client moved on to the next message.
    assert_eq!(client.message(), &b"beta".to_vec());
    assert_eq!(client.progress(), (0, 0));
    assert_eq!(client.queued(), 0);
    assert!(r.interest.writable, "the next message asks for write readiness");
}

#[test]
fn a_deviating_echo_is_reported_and_changes_nothing() {
    let mut client = Client::new(1, script());
    client.writable(SendOutcome::Sent(5));
    let r = client.readable(ReadEvent::Data(b"alXha".to_vec()));
    assert!(!r.matched);
    assert_eq!(client.message(), &b"alpha".to_vec());
    assert_eq!(client.progress(), (5, 0));
    assert_eq!(client.queued(), 1);
}

#[test]
fn an_overlong_echo_is_reported() {
    let mut client = Client::new(1, script());
    client.writable(SendOutcome::Sent(5));
    let r = client.readable(ReadEvent::Data(b"alphaalpha".to_vec()));
    assert!(!r.matched);
    assert_eq!(client.progress(), (5, 0));
}

#[test]
fn a_would_block_read_changes_nothing() {
    let mut client = Client::new(1, script());
    client.writable(SendOutcome::Sent(5));
    let r = client.readable(ReadEvent::WouldBlock);
    assert!(r.matched);
    assert_eq!(client.progress(), (5, 0));
}

#[test]
fn the_script_ends_after_the_last_echo() {
    let mut client = Client::new(1, vec![b"only".to_vec()]);
    client.writable(SendOutcome::Sent(4));
    let r = client.readable(ReadEvent::Data(b"only".to_vec()));
    assert!(r.matched);
    assert_eq!(client.queued(), 0);
    // With nothing queued the client stays on the finished message.
    assert!(!client.next_msg());
    assert_eq!(client.message(), &b"only".to_vec());
}
