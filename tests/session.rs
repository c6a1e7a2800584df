use socks5::session::failure_reply;
use socks5::{
    AddressType, Authentication, AuthenticationType, BoundAddress, ConnectionState,
    ConnectionType, DialError, Reply, ConnectionInstance, SessionAction, SessionEvent, SubprotocolOutcome,
};

fn no_auth() -> Authentication {
    Authentication::Assigned(AuthenticationType::NoAuthentication)
}

fn rank(p: ConnectionState) -> u8 {
    match p {
        ConnectionState::AwaitGreeting => 0,
        ConnectionState::AwaitAuthSubprotocol => 1,
        ConnectionState::AwaitRequest => 2,
        ConnectionState::Relaying => 3,
        ConnectionState::Closing => 4,
    }
}

/// Runs the events in order; checks after each step that phases only move
/// forward and that no more than one selection and one reply were written.
fn drive(s: &mut ConnectionInstance, events: Vec<SessionEvent>) -> Vec<SessionAction> {
    let mut out = Vec::new();
    let mut selections = 0;
    let mut replies = 0;
    for e in events {
        let before = rank(s.phase);
        let a = s.step(e);
        assert!(rank(s.phase) >= before);
        match &a {
            SessionAction::Send(b) | SessionAction::SendAndAuthenticate(b, _) if b.len() == 2 => {
                selections += 1
            }
            SessionAction::SendAndClose(b) if b.len() == 2 => selections += 1,
            SessionAction::SendAndRelay(_, _) | SessionAction::SendAndClose(_) => replies += 1,
            _ => {}
        }
        assert!(selections <= 1 && replies <= 1);
        out.push(a);
    }
    out
}

fn negotiated() -> ConnectionInstance {
    let mut s = ConnectionInstance::new();
    assert!(matches!(
        s.step(SessionEvent::ClientData(vec![0x05, 0x01, 0x00])),
        SessionAction::ChooseMethod(ref m) if *m == vec![no_auth()]
    ));
    assert_eq!(
        s.step(SessionEvent::MethodChosen(no_auth())),
        SessionAction::Send(vec![0x05, 0x00])
    );
    assert_eq!(s.phase, ConnectionState::AwaitRequest);
    s
}

#[test]
fn no_auth_connect_success() {
    let mut s = negotiated();
    let a = s.step(SessionEvent::ClientData(vec![
        0x05, 0x01, 0x00, 0x01, 0x7F, 0x00, 0x00, 0x01, 0x05, 0x39,
    ]));
    match a {
        SessionAction::Dial(req) => {
            assert_eq!(req.cmd, ConnectionType::Connect);
            assert_eq!(req.atyp, AddressType::IPv4);
            assert_eq!(req.dst_addr, vec![127, 0, 0, 1]);
            assert_eq!(req.dst_port, 1337);
        }
        other => panic!("expected a dial, got {:?}", other),
    }
    let a = s.step(SessionEvent::Connected(BoundAddress {
        atyp: AddressType::IPv4,
        addr: vec![127, 0, 0, 1],
        port: 1337,
    }));
    assert_eq!(
        a,
        SessionAction::SendAndRelay(
            vec![0x05, 0x00, 0x00, 0x01, 0x7F, 0x00, 0x00, 0x01, 0x05, 0x39],
            vec![]
        )
    );
    assert_eq!(s.phase, ConnectionState::Relaying);
    assert_eq!(s.step(SessionEvent::RelayFinished), SessionAction::Close);
    assert_eq!(s.phase, ConnectionState::Closing);
}

#[test]
fn no_acceptable_method() {
    let mut s = ConnectionInstance::new();
    let actions = drive(
        &mut s,
        vec![
            SessionEvent::ClientData(vec![0x05, 0x01, 0x02]),
            SessionEvent::MethodChosen(Authentication::NoAcceptable),
        ],
    );
    assert_eq!(actions[1], SessionAction::SendAndClose(vec![0x05, 0xFF]));
    assert_eq!(s.phase, ConnectionState::Closing);
}

#[test]
fn unsupported_command() {
    let mut s = negotiated();
    let a = s.step(SessionEvent::ClientData(vec![
        0x05, 0x02, 0x00, 0x01, 0x7F, 0x00, 0x00, 0x01, 0x00, 0x50,
    ]));
    assert_eq!(
        a,
        SessionAction::SendAndClose(vec![0x05, 0x07, 0x00, 0x01, 0, 0, 0, 0, 0, 0])
    );
    assert_eq!(s.phase, ConnectionState::Closing);
}

#[test]
fn domain_resolution_failure() {
    let mut s = negotiated();
    let mut req = vec![0x05, 0x01, 0x00, 0x03, 12];
    req.extend_from_slice(b"no.such.host");
    req.extend_from_slice(&[0x00, 0x50]);
    match s.step(SessionEvent::ClientData(req)) {
        SessionAction::Dial(r) => assert_eq!(r.dst_addr, b"no.such.host".to_vec()),
        other => panic!("expected a dial, got {:?}", other),
    }
    assert_eq!(
        s.step(SessionEvent::DialFailed(DialError::ResolutionFailed)),
        SessionAction::SendAndClose(vec![0x05, 0x04, 0x00, 0x01, 0, 0, 0, 0, 0, 0])
    );
    assert_eq!(s.phase, ConnectionState::Closing);
}

#[test]
fn malformed_greeting_closes_silently() {
    let mut s = ConnectionInstance::new();
    assert_eq!(
        s.step(SessionEvent::ClientData(vec![0x04, 0x01, 0x00])),
        SessionAction::Close
    );
    assert_eq!(s.phase, ConnectionState::Closing);
}

#[test]
fn truncated_request_times_out_without_dial() {
    let mut s = negotiated();
    assert_eq!(
        s.step(SessionEvent::ClientData(vec![0x05, 0x01, 0x00, 0x03, 0x05, 0x68, 0x65])),
        SessionAction::Wait
    );
    assert_eq!(s.step(SessionEvent::Timeout), SessionAction::Close);
    assert_eq!(s.phase, ConnectionState::Closing);
    assert!(s.target.is_none());
}

#[test]
fn greeting_split_across_reads() {
    let mut s = ConnectionInstance::new();
    assert_eq!(s.step(SessionEvent::ClientData(vec![0x05])), SessionAction::Wait);
    assert_eq!(s.step(SessionEvent::ClientData(vec![0x02, 0x00])), SessionAction::Wait);
    assert_eq!(
        s.step(SessionEvent::ClientData(vec![0x02])),
        SessionAction::ChooseMethod(vec![
            no_auth(),
            Authentication::Assigned(AuthenticationType::UsernamePassword)
        ])
    );
}

#[test]
fn bytes_past_greeting_are_a_violation() {
    let mut s = ConnectionInstance::new();
    assert_eq!(
        s.step(SessionEvent::ClientData(vec![0x05, 0x01, 0x00, 0x05])),
        SessionAction::Close
    );
}

#[test]
fn username_password_runs_exchange_then_request() {
    let mut s = ConnectionInstance::new();
    let up = Authentication::Assigned(AuthenticationType::UsernamePassword);
    s.step(SessionEvent::ClientData(vec![0x05, 0x02, 0x00, 0x02]));
    assert_eq!(
        s.step(SessionEvent::MethodChosen(up)),
        SessionAction::SendAndAuthenticate(vec![0x05, 0x02], up)
    );
    assert_eq!(s.phase, ConnectionState::AwaitAuthSubprotocol);
    assert_eq!(
        s.step(SessionEvent::SubprotocolDone(SubprotocolOutcome::Granted)),
        SessionAction::Wait
    );
    assert_eq!(s.phase, ConnectionState::AwaitRequest);
    assert_eq!(s.auth_method, Some(up));
}

#[test]
fn denied_exchange_closes_silently() {
    let mut s = ConnectionInstance::new();
    let up = Authentication::Assigned(AuthenticationType::UsernamePassword);
    s.step(SessionEvent::ClientData(vec![0x05, 0x01, 0x02]));
    s.step(SessionEvent::MethodChosen(up));
    assert_eq!(
        s.step(SessionEvent::SubprotocolDone(SubprotocolOutcome::Denied)),
        SessionAction::Close
    );
    assert_eq!(s.phase, ConnectionState::Closing);
}

#[test]
fn choice_outside_offer_is_refused() {
    let mut s = ConnectionInstance::new();
    s.step(SessionEvent::ClientData(vec![0x05, 0x01, 0x00]));
    let a = s.step(SessionEvent::MethodChosen(Authentication::Custom(0x80)));
    assert_eq!(a, SessionAction::SendAndClose(vec![0x05, 0xFF]));
}

#[test]
fn request_split_and_early_payload_kept() {
    let mut s = negotiated();
    assert_eq!(s.step(SessionEvent::ClientData(vec![0x05, 0x01, 0x00])), SessionAction::Wait);
    let a = s.step(SessionEvent::ClientData(vec![
        0x01, 10, 0, 0, 1, 0x00, 0x50, b'G', b'E',
    ]));
    assert!(matches!(a, SessionAction::Dial(_)));
    assert_eq!(s.step(SessionEvent::ClientData(vec![b'T'])), SessionAction::Wait);
    let a = s.step(SessionEvent::Connected(BoundAddress {
        atyp: AddressType::IPv4,
        addr: vec![192, 168, 0, 2],
        port: 40000,
    }));
    assert_eq!(
        a,
        SessionAction::SendAndRelay(
            vec![0x05, 0x00, 0x00, 0x01, 192, 168, 0, 2, 0x9C, 0x40],
            b"GET".to_vec()
        )
    );
}

#[test]
fn unknown_address_type_and_empty_domain() {
    let mut s = negotiated();
    assert_eq!(
        s.step(SessionEvent::ClientData(vec![0x05, 0x01, 0x00, 0x02])),
        SessionAction::SendAndClose(vec![0x05, 0x08, 0x00, 0x01, 0, 0, 0, 0, 0, 0])
    );
    let mut s = negotiated();
    assert_eq!(
        s.step(SessionEvent::ClientData(vec![0x05, 0x01, 0x00, 0x03, 0x00, 0x00, 0x50])),
        SessionAction::SendAndClose(vec![0x05, 0x01, 0x00, 0x01, 0, 0, 0, 0, 0, 0])
    );
}

#[test]
fn dial_errors_map_to_replies() {
    let cases = [
        (DialError::NotAllowed, 0x02),
        (DialError::NetworkUnreachable, 0x03),
        (DialError::HostUnreachable, 0x04),
        (DialError::Refused, 0x05),
        (DialError::TtlExpired, 0x06),
        (DialError::Other, 0x01),
    ];
    for (e, code) in cases {
        let mut s = negotiated();
        s.step(SessionEvent::ClientData(vec![0x05, 0x01, 0x00, 0x01, 1, 2, 3, 4, 0, 80]));
        assert_eq!(
            s.step(SessionEvent::DialFailed(e)),
            SessionAction::SendAndClose(vec![0x05, code, 0x00, 0x01, 0, 0, 0, 0, 0, 0])
        );
    }
}

#[test]
fn timeout_while_dialing_replies_general_failure() {
    let mut s = negotiated();
    s.step(SessionEvent::ClientData(vec![0x05, 0x01, 0x00, 0x01, 1, 2, 3, 4, 0, 80]));
    assert_eq!(
        s.step(SessionEvent::Timeout),
        SessionAction::SendAndClose(failure_reply(Reply::GeneralSocksServerFailure))
    );
}

#[test]
fn phases_never_go_back_and_messages_are_single() {
    let mut s = ConnectionInstance::new();
    drive(
        &mut s,
        vec![
            SessionEvent::ClientData(vec![0x05, 0x01, 0x00]),
            SessionEvent::MethodChosen(no_auth()),
            SessionEvent::MethodChosen(no_auth()),
            SessionEvent::ClientData(vec![0x05, 0x01, 0x00]),
        ],
    );
    assert_eq!(s.phase, ConnectionState::Closing);
    assert_eq!(s.selections_sent, 1);
    assert_eq!(s.step(SessionEvent::ClientData(vec![0x05, 0x01, 0x00])), SessionAction::Close);
    assert_eq!(s.replies_sent, 0);
}

#[test]
fn relaying_ignores_stray_events_until_relay_ends() {
    let mut s = negotiated();
    s.step(SessionEvent::ClientData(vec![0x05, 0x01, 0x00, 0x01, 1, 2, 3, 4, 0, 80]));
    s.step(SessionEvent::Connected(BoundAddress { atyp: AddressType::IPv4, addr: vec![0; 4], port: 0 }));
    assert_eq!(s.step(SessionEvent::Timeout), SessionAction::Wait);
    assert_eq!(s.step(SessionEvent::ClientClosed), SessionAction::Wait);
    assert_eq!(s.step(SessionEvent::ClientData(vec![1])), SessionAction::Wait);
    assert_eq!(s.phase, ConnectionState::Relaying);
    assert_eq!(s.step(SessionEvent::RelayFinished), SessionAction::Close);
}
