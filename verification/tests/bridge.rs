use hpts::bridge::{
    tunnel_ready, Action, BridgeState, Direction, Event, Handshake, HptsContext, BUF_CAPACITY,
};
use hpts::error::BridgeError;
use hpts::head::HeadParse;
use hpts::request::Header;
use hpts::socks5::IpLiteral;

const CONNECT_REQUEST: &[u8] =
    b"CONNECT example.com:443 HTTP/1.1\r\nHost: example.com:443\r\n\r\n";
const GET_REQUEST: &[u8] =
    b"GET http://example.com/index.html HTTP/1.1\r\nHost: example.com\r\nAccept: */*\r\n\r\n";

fn parsed(request: &[u8]) -> HptsContext {
    let mut ctx = HptsContext::new();
    ctx.step(Event::ClientRead(request.to_vec()));
    ctx
}

fn negotiating(request: &[u8], ip: Option<IpLiteral>) -> HptsContext {
    let mut ctx = parsed(request);
    assert_eq!(ctx.state(), BridgeState::Parsed);
    ctx.step(Event::HostClassified(ip));
    ctx
}

fn forwarding(request: &[u8]) -> HptsContext {
    let mut ctx = negotiating(request, None);
    for event in [
        Event::RelayConnected,
        Event::Sent,
        Event::RelayReplied,
        Event::Sent,
        Event::RelayReplied,
        Event::Sent,
    ] {
        ctx.step(event);
    }
    assert_eq!(ctx.state(), BridgeState::Forwarding { client_done: false, relay_done: false });
    ctx
}

#[test]
fn new_context_awaits_the_read() {
    let ctx = HptsContext::new();
    assert_eq!(ctx.state(), BridgeState::Reading);
    assert_eq!(ctx.pos(), 0);
    assert_eq!(ctx.buffered(), b"");
    assert!(ctx.resend());
    assert_eq!(ctx.action(), Action::ReadClient(4096));
    assert_eq!(BUF_CAPACITY, 4096);
}

#[test]
fn tunnel_scenario() {
    let mut ctx = HptsContext::new();
    assert_eq!(ctx.action(), Action::ReadClient(4096));

    ctx.step(Event::ClientRead(CONNECT_REQUEST.to_vec()));
    assert_eq!(ctx.state(), BridgeState::Parsed);
    assert_eq!(ctx.host(), "example.com");
    assert_eq!(ctx.port(), 443);
    assert!(!ctx.resend());
    assert_eq!(ctx.pos(), CONNECT_REQUEST.len());
    assert_eq!(ctx.action(), Action::ClassifyHost("example.com".to_string()));

    ctx.step(Event::HostClassified(None));
    assert_eq!(ctx.state(), BridgeState::Negotiating(Handshake::Connecting));
    assert_eq!(ctx.action(), Action::ConnectRelay);

    ctx.step(Event::RelayConnected);
    assert_eq!(ctx.action(), Action::SendRelay(vec![0x05, 0x02, 0x00, 0x01]));

    ctx.step(Event::Sent);
    assert_eq!(ctx.action(), Action::ReadRelay);

    ctx.step(Event::RelayReplied);
    let mut command = vec![5, 1, 0, 3, 11];
    command.extend_from_slice(b"example.com");
    command.extend_from_slice(&[0x01, 0xbb]);
    assert_eq!(ctx.action(), Action::SendRelay(command));

    ctx.step(Event::Sent);
    assert_eq!(ctx.action(), Action::ReadRelay);

    ctx.step(Event::RelayReplied);
    assert_eq!(ctx.state(), BridgeState::Negotiating(Handshake::FirstPayload));
    assert_eq!(ctx.action(), Action::SendClient(b"HTTP/1.1 200 OK\r\n\r\n".to_vec()));

    ctx.step(Event::Sent);
    assert_eq!(ctx.state(), BridgeState::Forwarding { client_done: false, relay_done: false });
    assert_eq!(ctx.action(), Action::Forward);

    ctx.step(Event::DirectionFinished(Direction::ClientToRelay));
    assert_eq!(ctx.state(), BridgeState::Forwarding { client_done: true, relay_done: false });
    assert_eq!(ctx.action(), Action::Forward);

    ctx.step(Event::DirectionFinished(Direction::RelayToClient));
    assert_eq!(ctx.state(), BridgeState::Closed);
    assert_eq!(ctx.action(), Action::Close);
}

#[test]
fn plain_request_scenario() {
    let mut ctx = HptsContext::new();
    ctx.step(Event::ClientRead(GET_REQUEST.to_vec()));
    assert_eq!(ctx.state(), BridgeState::Parsed);
    assert_eq!(ctx.host(), "example.com");
    assert_eq!(ctx.port(), 80);
    assert!(ctx.resend());
    assert_eq!(ctx.buffered(), GET_REQUEST);

    ctx.step(Event::HostClassified(None));
    ctx.step(Event::RelayConnected);
    ctx.step(Event::Sent);
    ctx.step(Event::RelayReplied);
    let mut command = vec![5, 1, 0, 3, 11];
    command.extend_from_slice(b"example.com");
    command.extend_from_slice(&[0, 80]);
    assert_eq!(ctx.action(), Action::SendRelay(command));
    ctx.step(Event::Sent);
    ctx.step(Event::RelayReplied);

    assert_eq!(ctx.action(), Action::SendRelay(GET_REQUEST.to_vec()));
    ctx.step(Event::Sent);
    assert_eq!(ctx.action(), Action::Forward);
    assert_eq!(ctx.buffered(), GET_REQUEST);
}

#[test]
fn tunnel_response_is_the_literal_line() {
    assert_eq!(tunnel_ready(), b"HTTP/1.1 200 OK\r\n\r\n".to_vec());
    assert_eq!(tunnel_ready().len(), 19);
}

#[test]
fn client_that_leaves_at_once_closes_the_connection() {
    let mut ctx = HptsContext::new();
    ctx.step(Event::ClientRead(Vec::new()));
    assert_eq!(ctx.state(), BridgeState::Closed);
    assert_eq!(ctx.action(), Action::Close);
    assert_eq!(ctx.pos(), 0);
    ctx.step(Event::RelayConnected);
    assert_eq!(ctx.state(), BridgeState::Closed);
    assert_eq!(ctx.action(), Action::Close);
}

#[test]
fn incomplete_head_fails_without_a_second_read() {
    let mut ctx = HptsContext::new();
    ctx.step(Event::ClientRead(b"GET / HTTP/1.1\r\nHost: exam".to_vec()));
    assert_eq!(ctx.state(), BridgeState::Failed(BridgeError::IncompleteRequest));
    assert_eq!(ctx.action(), Action::Fail(BridgeError::IncompleteRequest));
    assert_eq!(ctx.pos(), 26);

    ctx.step(Event::ClientRead(b"ple.com\r\n\r\n".to_vec()));
    assert_eq!(ctx.state(), BridgeState::Failed(BridgeError::IncompleteRequest));
    assert_eq!(ctx.action(), Action::Fail(BridgeError::IncompleteRequest));
    assert_eq!(ctx.pos(), 26);
}

#[test]
fn no_state_but_the_first_asks_for_a_read() {
    let mut ctx = HptsContext::new();
    let events = vec![
        Event::ClientRead(GET_REQUEST.to_vec()),
        Event::HostClassified(None),
        Event::RelayConnected,
        Event::Sent,
        Event::RelayReplied,
        Event::Sent,
        Event::RelayReplied,
        Event::Sent,
        Event::DirectionFinished(Direction::RelayToClient),
        Event::DirectionFinished(Direction::ClientToRelay),
    ];
    for event in events {
        ctx.step(event);
        assert!(!matches!(ctx.action(), Action::ReadClient(_)));
        assert_ne!(ctx.state(), BridgeState::Reading);
    }
    assert_eq!(ctx.state(), BridgeState::Closed);
}

#[test]
fn missing_host_header_fails_before_the_relay_is_contacted() {
    let mut ctx = HptsContext::new();
    ctx.step(Event::ClientRead(b"GET / HTTP/1.1\r\nAccept: */*\r\n\r\n".to_vec()));
    assert_eq!(ctx.state(), BridgeState::Failed(BridgeError::MissingHostHeader));
    assert_eq!(ctx.action(), Action::Fail(BridgeError::MissingHostHeader));
}

#[test]
fn broken_host_header_fails_the_connection() {
    let mut ctx = HptsContext::new();
    ctx.step(Event::ClientRead(b"GET / HTTP/1.1\r\nHost: a:b\r\n\r\n".to_vec()));
    assert_eq!(ctx.state(), BridgeState::Failed(BridgeError::InvalidHostHeader));
    assert_eq!(ctx.action(), Action::Fail(BridgeError::InvalidHostHeader));
}

#[test]
fn ipv4_host_is_sent_as_an_address() {
    let request = b"GET / HTTP/1.1\r\nHost: 192.0.2.7:8080\r\n\r\n";
    let mut ctx = negotiating(request, Some(IpLiteral::V4([192, 0, 2, 7])));
    ctx.step(Event::RelayConnected);
    ctx.step(Event::Sent);
    ctx.step(Event::RelayReplied);
    assert_eq!(ctx.action(), Action::SendRelay(vec![5, 1, 0, 1, 192, 0, 2, 7, 0x1f, 0x90]));
}

#[test]
fn ipv6_host_is_sent_as_an_address() {
    let request = b"CONNECT x HTTP/1.1\r\nHost: relay6\r\n\r\n";
    let mut octets = [0u8; 16];
    octets[0] = 0xfd;
    octets[15] = 0x01;
    let mut ctx = negotiating(request, Some(IpLiteral::V6(octets)));
    ctx.step(Event::RelayConnected);
    ctx.step(Event::Sent);
    ctx.step(Event::RelayReplied);
    let mut command = vec![5, 1, 0, 4];
    command.extend_from_slice(&octets);
    command.extend_from_slice(&[0x01, 0xbb]);
    assert_eq!(ctx.action(), Action::SendRelay(command));
}

#[test]
fn overlong_host_fails_when_the_command_is_due() {
    let host = "h".repeat(256);
    let request = format!("GET / HTTP/1.1\r\nHost: {}\r\n\r\n", host).into_bytes();
    let mut ctx = negotiating(&request, None);
    ctx.step(Event::RelayConnected);
    ctx.step(Event::Sent);
    assert_eq!(ctx.state(), BridgeState::Negotiating(Handshake::MethodReply));
    ctx.step(Event::RelayReplied);
    assert_eq!(ctx.state(), BridgeState::Failed(BridgeError::HostTooLong));
    assert_eq!(ctx.action(), Action::Fail(BridgeError::HostTooLong));
}

#[test]
fn longest_host_still_negotiates() {
    let host = "h".repeat(255);
    let request = format!("GET / HTTP/1.1\r\nHost: {}:81\r\n\r\n", host).into_bytes();
    let mut ctx = negotiating(&request, None);
    ctx.step(Event::RelayConnected);
    ctx.step(Event::Sent);
    ctx.step(Event::RelayReplied);
    assert_eq!(ctx.state(), BridgeState::Negotiating(Handshake::Command));
    match ctx.action() {
        Action::SendRelay(command) => {
            assert_eq!(command.len(), 262);
            assert_eq!(command[4], 255);
            assert_eq!(&command[5..260], host.as_bytes());
            assert_eq!(command[260..], [0, 81]);
        }
        other => panic!("unexpected action {:?}", other),
    }
}

#[test]
fn unreachable_relay_is_a_connect_failure() {
    let mut ctx = negotiating(GET_REQUEST, None);
    ctx.step(Event::Failed);
    assert_eq!(ctx.state(), BridgeState::Failed(BridgeError::ConnectFailure));
    assert_eq!(ctx.action(), Action::Fail(BridgeError::ConnectFailure));
}

#[test]
fn failed_read_is_an_io_failure() {
    let mut ctx = HptsContext::new();
    ctx.step(Event::Failed);
    assert_eq!(ctx.state(), BridgeState::Failed(BridgeError::Io));
    assert_eq!(ctx.action(), Action::Fail(BridgeError::Io));
}

#[test]
fn failed_exchange_with_the_relay_is_an_io_failure() {
    for steps in 1..=6usize {
        let mut ctx = negotiating(CONNECT_REQUEST, None);
        let script = [
            Event::RelayConnected,
            Event::Sent,
            Event::RelayReplied,
            Event::Sent,
            Event::RelayReplied,
        ];
        for event in script.into_iter().take(steps.min(5)) {
            ctx.step(event);
        }
        assert!(matches!(ctx.state(), BridgeState::Negotiating(_)));
        ctx.step(Event::Failed);
        assert_eq!(ctx.state(), BridgeState::Failed(BridgeError::Io));
    }
}

#[test]
fn copy_failure_ends_forwarding_at_once() {
    let mut ctx = forwarding(GET_REQUEST);
    ctx.step(Event::Failed);
    assert_eq!(ctx.state(), BridgeState::Failed(BridgeError::CopyError));
    assert_eq!(ctx.action(), Action::Fail(BridgeError::CopyError));
}

#[test]
fn copy_failure_after_one_direction_ended() {
    let mut ctx = forwarding(CONNECT_REQUEST);
    ctx.step(Event::DirectionFinished(Direction::RelayToClient));
    assert_eq!(ctx.state(), BridgeState::Forwarding { client_done: false, relay_done: true });
    ctx.step(Event::Failed);
    assert_eq!(ctx.state(), BridgeState::Failed(BridgeError::CopyError));
}

#[test]
fn first_error_wins() {
    let mut ctx = forwarding(CONNECT_REQUEST);
    ctx.step(Event::Failed);
    ctx.step(Event::DirectionFinished(Direction::ClientToRelay));
    ctx.step(Event::DirectionFinished(Direction::RelayToClient));
    assert_eq!(ctx.state(), BridgeState::Failed(BridgeError::CopyError));
    assert_eq!(ctx.action(), Action::Fail(BridgeError::CopyError));
}

#[test]
fn one_direction_ending_twice_does_not_close() {
    let mut ctx = forwarding(CONNECT_REQUEST);
    ctx.step(Event::DirectionFinished(Direction::ClientToRelay));
    ctx.step(Event::DirectionFinished(Direction::ClientToRelay));
    assert_eq!(ctx.state(), BridgeState::Forwarding { client_done: true, relay_done: false });
    ctx.step(Event::DirectionFinished(Direction::RelayToClient));
    assert_eq!(ctx.state(), BridgeState::Closed);
}

#[test]
fn directions_may_end_in_either_order() {
    let mut ctx = forwarding(GET_REQUEST);
    ctx.step(Event::DirectionFinished(Direction::RelayToClient));
    assert_eq!(ctx.action(), Action::Forward);
    ctx.step(Event::DirectionFinished(Direction::ClientToRelay));
    assert_eq!(ctx.state(), BridgeState::Closed);
}

#[test]
fn events_that_are_not_awaited_change_nothing() {
    let mut ctx = HptsContext::new();
    for event in [
        Event::HostClassified(None),
        Event::RelayConnected,
        Event::Sent,
        Event::RelayReplied,
        Event::DirectionFinished(Direction::ClientToRelay),
    ] {
        ctx.step(event);
        assert_eq!(ctx.state(), BridgeState::Reading);
    }
    let mut ctx = negotiating(GET_REQUEST, None);
    for event in [
        Event::ClientRead(b"more".to_vec()),
        Event::HostClassified(Some(IpLiteral::V4([1, 1, 1, 1]))),
        Event::Sent,
        Event::RelayReplied,
        Event::DirectionFinished(Direction::RelayToClient),
    ] {
        ctx.step(event);
        assert_eq!(ctx.state(), BridgeState::Negotiating(Handshake::Connecting));
        assert_eq!(ctx.buffered(), GET_REQUEST);
    }
}

#[test]
fn final_states_are_final() {
    let mut closed = HptsContext::new();
    closed.step(Event::ClientRead(Vec::new()));
    let mut failed = HptsContext::new();
    failed.step(Event::ClientRead(b"nonsense".to_vec()));
    for event in [
        Event::ClientRead(GET_REQUEST.to_vec()),
        Event::HostClassified(None),
        Event::RelayConnected,
        Event::Sent,
        Event::RelayReplied,
        Event::DirectionFinished(Direction::ClientToRelay),
        Event::Failed,
    ] {
        closed.step(event);
        assert_eq!(closed.state(), BridgeState::Closed);
    }
    for event in [
        Event::ClientRead(GET_REQUEST.to_vec()),
        Event::HostClassified(None),
        Event::RelayConnected,
        Event::Sent,
        Event::RelayReplied,
        Event::DirectionFinished(Direction::ClientToRelay),
        Event::Failed,
    ] {
        failed.step(event);
        assert_eq!(failed.state(), BridgeState::Failed(BridgeError::IncompleteRequest));
    }
}

#[test]
fn a_full_buffer_is_accepted() {
    let mut request = b"GET / HTTP/1.1\r\nHost: full.example\r\nX-Pad: ".to_vec();
    while request.len() < BUF_CAPACITY - 4 {
        request.push(b'p');
    }
    request.extend_from_slice(b"\r\n\r\n");
    assert_eq!(request.len(), BUF_CAPACITY);
    let ctx = parsed(&request);
    assert_eq!(ctx.state(), BridgeState::Parsed);
    assert_eq!(ctx.pos(), 4096);
    assert_eq!(ctx.host(), "full.example");
    assert_eq!(ctx.buffered(), &request[..]);
}

#[test]
fn step_with_takes_the_head_as_given() {
    let head = HeadParse::Complete {
        method: "CONNECT".to_string(),
        headers: vec![Header { name: "Host".to_string(), value: b"given.example:22".to_vec() }],
    };
    let mut ctx = HptsContext::new();
    ctx.step_with(Event::ClientRead(b"anything".to_vec()), &head);
    assert_eq!(ctx.state(), BridgeState::Parsed);
    assert_eq!(ctx.host(), "given.example");
    assert_eq!(ctx.port(), 22);
    assert!(!ctx.resend());
    assert_eq!(ctx.buffered(), b"anything");

    let mut ctx = HptsContext::new();
    ctx.step_with(Event::ClientRead(b"anything".to_vec()), &HeadParse::Partial);
    assert_eq!(ctx.state(), BridgeState::Failed(BridgeError::IncompleteRequest));

    let mut ctx = HptsContext::new();
    ctx.step_with(Event::ClientRead(Vec::new()), &head);
    assert_eq!(ctx.state(), BridgeState::Closed);

    let mut ctx = HptsContext::new();
    ctx.step_with(Event::RelayConnected, &head);
    assert_eq!(ctx.state(), BridgeState::Reading);
}

#[test]
fn every_failure_has_its_message() {
    assert_eq!(BridgeError::IncompleteRequest.message(), "incomplete http request");
    assert_eq!(BridgeError::MissingHostHeader.message(), "missing host header");
    assert_eq!(BridgeError::InvalidHostHeader.message(), "invalid host header");
    assert_eq!(BridgeError::HostTooLong.message(), "host name too long");
    assert_eq!(BridgeError::ConnectFailure.message(), "cannot connect to socks5 relay");
    assert_eq!(BridgeError::CopyError.message(), "forwarding failed");
    assert_eq!(BridgeError::Io.message(), "i/o failure");
}
