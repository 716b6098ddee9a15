use dualstack_ping::listener::{dual_stack_plan, plan_accepts, AddressFamily, BACKLOG};
use dualstack_ping::protocol::{is_ping, ping, pong, reply_to, MESSAGE_LEN};
use dualstack_ping::server::{start, step, Action, Event, Note, ServerState};

fn sent(a: &Action) -> Vec<u8> {
    match a {
        Action::Send(b) => b.to_vec(),
        _ => Vec::new(),
    }
}

#[test]
fn messages_are_ascii_ping_and_pong() {
    assert_eq!(&ping(), b"ping");
    assert_eq!(&pong(), b"pong");
    assert_eq!(MESSAGE_LEN, 4);
}

#[test]
fn ping_is_recognised_and_nothing_else() {
    assert!(is_ping(b"ping"));
    assert!(!is_ping(b"xyz!"));
    assert!(!is_ping(b"pong"));
    assert!(!is_ping(b"Ping"));
    assert!(!is_ping(b"pinG"));
    assert!(!is_ping(&[0, 0, 0, 0]));
}

#[test]
fn reply_to_ping_is_pong() {
    assert_eq!(reply_to(b"ping"), Some(*b"pong"));
}

#[test]
fn reply_to_other_bytes_is_none() {
    assert_eq!(reply_to(b"xyz!"), None);
    assert_eq!(reply_to(b"pong"), None);
    assert_eq!(reply_to(&[b'p', b'i', b'n', 0]), None);
}

#[test]
fn loop_starts_by_accepting() {
    let s = start();
    assert_eq!(s.state, ServerState::AwaitingConnection);
    assert!(matches!(s.action, Action::Accept));
    assert_eq!(s.note, Note::Quiet);
}

#[test]
fn ping_connection_is_answered_with_pong_then_closed() {
    let s = step(ServerState::AwaitingConnection, Event::Accepted);
    assert_eq!(s.state, ServerState::Reading);
    assert!(matches!(s.action, Action::ReadRequest));
    assert_eq!(s.note, Note::ConnectionAccepted);
    let s = step(s.state, Event::Received(*b"ping"));
    assert_eq!(s.state, ServerState::Replying);
    assert_eq!(sent(&s.action), b"pong".to_vec());
    assert_eq!(s.note, Note::PingReceived);
    let s = step(s.state, Event::Sent);
    assert_eq!(s.state, ServerState::AwaitingConnection);
    assert!(matches!(s.action, Action::CloseAndAccept));
    assert_eq!(s.note, Note::Quiet);
}

#[test]
fn other_payload_is_dropped_without_reply() {
    let s = step(ServerState::Reading, Event::Received(*b"xyz!"));
    assert_eq!(s.state, ServerState::AwaitingConnection);
    assert!(matches!(s.action, Action::CloseAndAccept));
    assert!(sent(&s.action).is_empty());
    assert_eq!(s.note, Note::UnexpectedPayload);
}

#[test]
fn short_read_is_dropped_silently() {
    let s = step(ServerState::Reading, Event::ReadFailed);
    assert_eq!(s.state, ServerState::AwaitingConnection);
    assert!(matches!(s.action, Action::CloseAndAccept));
    assert_eq!(s.note, Note::Quiet);
}

#[test]
fn failed_send_is_reported_and_connection_dropped() {
    let s = step(ServerState::Replying, Event::SendFailed);
    assert_eq!(s.state, ServerState::AwaitingConnection);
    assert!(matches!(s.action, Action::CloseAndAccept));
    assert_eq!(s.note, Note::SendError);
}

#[test]
fn accept_error_keeps_the_loop_going() {
    let s = step(ServerState::AwaitingConnection, Event::AcceptFailed);
    assert_eq!(s.state, ServerState::AwaitingConnection);
    assert!(matches!(s.action, Action::Accept));
    assert_eq!(s.note, Note::AcceptError);
}

#[test]
fn second_accept_waits_for_first_connection() {
    // While a connection is read or answered, no accept is asked for.
    let s = step(ServerState::AwaitingConnection, Event::Accepted);
    assert!(!matches!(s.action, Action::Accept | Action::CloseAndAccept));
    let s = step(s.state, Event::Received(*b"ping"));
    assert!(!matches!(s.action, Action::Accept | Action::CloseAndAccept));
    let s = step(s.state, Event::Sent);
    assert!(matches!(s.action, Action::CloseAndAccept));
}

#[test]
fn cancel_stops_from_every_state() {
    for st in [
        ServerState::AwaitingConnection,
        ServerState::Reading,
        ServerState::Replying,
        ServerState::Stopped,
    ] {
        let s = step(st, Event::Cancelled);
        assert_eq!(s.state, ServerState::Stopped);
        assert!(matches!(s.action, Action::Stop));
        assert_eq!(s.note, Note::Quiet);
    }
}

#[test]
fn dual_stack_plan_takes_both_families() {
    let p = dual_stack_plan();
    assert_eq!(p.domain, AddressFamily::V6);
    assert!(!p.only_v6);
    assert_eq!(p.address, 0);
    assert_eq!(p.port, 0);
    assert_eq!(p.backlog, 128);
    assert_eq!(BACKLOG, 128);
    assert!(plan_accepts(&p, AddressFamily::V4));
    assert!(plan_accepts(&p, AddressFamily::V6));
}

#[test]
fn v6_only_plan_refuses_v4() {
    let mut p = dual_stack_plan();
    p.only_v6 = true;
    assert!(!plan_accepts(&p, AddressFamily::V4));
    assert!(plan_accepts(&p, AddressFamily::V6));
}

/// Runs one connection through the loop: accept, read the request, then
/// finish whatever the loop asks for. Returns the bytes the client is sent
/// and whether the connection was closed at the end.
fn serve_one(request: [u8; 4]) -> (Vec<u8>, bool) {
    let mut out = Vec::new();
    let s = step(start().state, Event::Accepted);
    assert!(matches!(s.action, Action::ReadRequest));
    let mut s = step(s.state, Event::Received(request));
    out.extend(sent(&s.action));
    if matches!(s.action, Action::Send(_)) {
        s = step(s.state, Event::Sent);
    }
    (out, matches!(s.action, Action::CloseAndAccept) && s.state == ServerState::AwaitingConnection)
}

#[test]
fn ipv6_client_ping_reads_back_pong() {
    assert!(plan_accepts(&dual_stack_plan(), AddressFamily::V6));
    assert_eq!(serve_one(*b"ping"), (b"pong".to_vec(), true));
}

#[test]
fn ipv4_client_ping_reads_back_pong() {
    assert!(plan_accepts(&dual_stack_plan(), AddressFamily::V4));
    assert_eq!(serve_one(*b"ping"), (b"pong".to_vec(), true));
}

#[test]
fn non_ping_client_reads_nothing_and_is_closed() {
    assert_eq!(serve_one(*b"xyz!"), (Vec::new(), true));
}

#[test]
fn nothing_is_served_after_cancel() {
    let s = step(ServerState::Reading, Event::Cancelled);
    let s = step(s.state, Event::Cancelled);
    assert_eq!(s.state, ServerState::Stopped);
    assert!(matches!(s.action, Action::Stop));
}
