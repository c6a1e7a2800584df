//! The per-connection negotiation, as a state machine from events to actions.
//!
//! The machine performs no I/O. Its driver reads bytes from the client, asks
//! the authentication handler, dials the target and relays; it hands each
//! outcome back as a `SessionEvent` and carries out the `SessionAction` that
//! `step` returns.
use crate::authentication::{
    auth_codes, greeting_ok, selection_ok, AuthenticationRequest, AuthenticationResponse,
};
use crate::connection::{
    lemma_addressed_frame, reply_ok, request_ok, with_zero_rsv, ConnectionRequest,
    ConnectionResponse,
};
use crate::constants::{
    auth_code, cmd_code, is_atyp_code, phase_rank, reply_code, AddressType, Authentication,
    AuthenticationType, ConnectionState, ConnectionType, Reply, SOCKS_VERSION,
};
use crate::protocol::{
    addr_len_ok, addressed_bytes, addressed_declared_len, addressed_frame_ok,
    addressed_message_len, Serialization,
};
use vstd::prelude::*;

verus! {

/// How the method-specific exchange after the method selection ended.
#[derive(Clone, Copy, Debug, PartialEq, Eq, Structural)]
pub enum SubprotocolOutcome {
    Granted,
    Denied,
    ProtocolError,
}

/// Why a target could not be reached.
#[derive(Clone, Copy, Debug, PartialEq, Eq, Structural)]
pub enum DialError {
    ResolutionFailed,
    NotAllowed,
    NetworkUnreachable,
    HostUnreachable,
    Refused,
    TtlExpired,
    Other,
}

/// The local endpoint of an upstream connection, as a reply names it.
#[derive(Clone, Debug, PartialEq)]
pub struct BoundAddress {
    pub atyp: AddressType,
    pub addr: Vec<u8>,
    pub port: u16,
}

/// What happened since the last step.
#[derive(Clone, Debug, PartialEq)]
pub enum SessionEvent {
    /// Bytes read from the client.
    ClientData(Vec<u8>),
    /// The authentication handler's choice among the offered methods.
    MethodChosen(Authentication),
    /// The method-specific exchange finished.
    SubprotocolDone(SubprotocolOutcome),
    /// The target was dialed; the upstream connection is bound here.
    Connected(BoundAddress),
    /// Resolving or dialing the target failed.
    DialFailed(DialError),
    /// The deadline of the current phase passed.
    Timeout,
    /// The client closed its side before relaying began.
    ClientClosed,
    /// Both relay directions finished.
    RelayFinished,
}

/// What the driver is to do next.
#[derive(Clone, Debug, PartialEq)]
pub enum SessionAction {
    /// Read more bytes from the client.
    Wait,
    /// Ask the authentication handler to choose among these methods.
    ChooseMethod(Vec<Authentication>),
    /// Write these bytes to the client, then read more.
    Send(Vec<u8>),
    /// Write these bytes to the client, then run the exchange of the method.
    SendAndAuthenticate(Vec<u8>, Authentication),
    /// Resolve and dial the target of this request.
    Dial(ConnectionRequest),
    /// Write the reply to the client, write the second bytes to the upstream,
    /// then relay in both directions.
    SendAndRelay(Vec<u8>, Vec<u8>),
    /// Write these bytes to the client, then close the session.
    SendAndClose(Vec<u8>),
    /// Close the session without writing anything.
    Close,
}

/// Most client bytes kept while the target is being dialed.
pub const MAX_EARLY_PAYLOAD: usize = 65536;

/// The bytes that an action writes to the client.
pub open spec fn emitted(a: SessionAction) -> Seq<u8> {
    match a {
        SessionAction::Send(b) => b@,
        SessionAction::SendAndAuthenticate(b, _) => b@,
        SessionAction::SendAndRelay(b, _) => b@,
        SessionAction::SendAndClose(b) => b@,
        _ => Seq::empty(),
    }
}

/// A reply with the given status that names no endpoint (`0.0.0.0:0`).
pub open spec fn failure_reply_bytes(rep: Reply) -> Seq<u8> {
    addressed_bytes(SOCKS_VERSION, reply_code(rep), 0, AddressType::IPv4, seq![0u8, 0, 0, 0], 0)
}

/// The reply status for a failed dial.
pub open spec fn dial_error_reply(e: DialError) -> Reply {
    match e {
        DialError::ResolutionFailed => Reply::HostUnreachable,
        DialError::NotAllowed => Reply::ConnectionNotAllowedByRuleset,
        DialError::NetworkUnreachable => Reply::NetworkUnreachable,
        DialError::HostUnreachable => Reply::HostUnreachable,
        DialError::Refused => Reply::ConnectionRefused,
        DialError::TtlExpired => Reply::TTLExpired,
        DialError::Other => Reply::GeneralSocksServerFailure,
    }
}

/// The method the session goes on with, given the handler's choice: the choice
/// itself where it was offered (or is the refusal 0xFF), the refusal otherwise.
pub open spec fn accepted_choice(offered: Seq<Authentication>, m: Authentication) -> Authentication {
    if m == Authentication::NoAcceptable || offered.contains(m) {
        m
    } else {
        Authentication::NoAcceptable
    }
}

/// What greeting bytes lead to: wait for the declared methods; ask for a
/// choice among them once they are in; close without a word on a wrong
/// version, on bytes beyond the declared methods, or on a malformed greeting.
pub open spec fn greeting_data_outcome(s0: ConnectionInstance, s1: ConnectionInstance, data: Seq<u8>, r: SessionAction) -> bool {
    let buf = s0.buffer@ + data;
    if buf.len() >= 1 && buf[0] != SOCKS_VERSION {
        r == SessionAction::Close && s1.phase == ConnectionState::Closing
    } else if buf.len() < 2 || buf.len() < 2 + buf[1] as nat {
        r == SessionAction::Wait && s1.phase == ConnectionState::AwaitGreeting && s1.buffer@ == buf
            && s1.offered is None
    } else if greeting_ok(buf) {
        &&& s1.phase == ConnectionState::AwaitGreeting
        &&& s1.buffer@.len() == 0
        &&& r is ChooseMethod
        &&& auth_codes(r->ChooseMethod_0@) == buf.subrange(2, buf.len() as int)
        &&& s1.offered is Some
        &&& s1.offered->Some_0@ == r->ChooseMethod_0@
    } else {
        r == SessionAction::Close && s1.phase == ConnectionState::Closing
    }
}

/// What the handler's choice leads to: the method selection of the accepted
/// choice is written; a refusal closes, no authentication goes straight to the
/// request, any other method runs its exchange first.
pub open spec fn method_chosen_outcome(s0: ConnectionInstance, s1: ConnectionInstance, m: Authentication, r: SessionAction) -> bool {
    let c = accepted_choice(s0.offered->Some_0@, m);
    &&& s1.auth_method == Some(c)
    &&& emitted(r) == seq![SOCKS_VERSION, auth_code(c)]
    &&& s1.offered is None
    &&& if c == Authentication::NoAcceptable {
        r is SendAndClose && s1.phase == ConnectionState::Closing
    } else if c == Authentication::Assigned(AuthenticationType::NoAuthentication) {
        r is Send && s1.phase == ConnectionState::AwaitRequest && s1.buffer@.len() == 0
    } else {
        r is SendAndAuthenticate && r->SendAndAuthenticate_1 == c && s1.phase
            == ConnectionState::AwaitAuthSubprotocol
    }
}

/// What the end of the method exchange leads to.
pub open spec fn subprotocol_outcome(s1: ConnectionInstance, o: SubprotocolOutcome, r: SessionAction) -> bool {
    if o == SubprotocolOutcome::Granted {
        r == SessionAction::Wait && s1.phase == ConnectionState::AwaitRequest && s1.buffer@.len() == 0
    } else {
        r == SessionAction::Close && s1.phase == ConnectionState::Closing
    }
}

/// What request bytes lead to, before a request is accepted: wait for the
/// length the header declares; close without a word on a wrong version; reply
/// 0x08 to an unknown address type and 0x01 to an empty domain; once the
/// request is in, dial a CONNECT and keep what follows it, and reply 0x07 to
/// any other command.
pub open spec fn request_data_outcome(s0: ConnectionInstance, s1: ConnectionInstance, data: Seq<u8>, r: SessionAction) -> bool {
    let buf = s0.buffer@ + data;
    if buf.len() >= 1 && buf[0] != SOCKS_VERSION {
        r == SessionAction::Close && s1.phase == ConnectionState::Closing
    } else if buf.len() >= 4 && !is_atyp_code(buf[3]) {
        r is SendAndClose && emitted(r) == failure_reply_bytes(Reply::AddressTypeNotSupported)
            && s1.phase == ConnectionState::Closing
    } else if buf.len() < 5 {
        r == SessionAction::Wait && s1.phase == ConnectionState::AwaitRequest && s1.buffer@ == buf
            && s1.target is None
    } else if addressed_declared_len(buf) == 0 {
        r is SendAndClose && emitted(r) == failure_reply_bytes(Reply::GeneralSocksServerFailure)
            && s1.phase == ConnectionState::Closing
    } else if buf.len() < addressed_declared_len(buf) {
        r == SessionAction::Wait && s1.phase == ConnectionState::AwaitRequest && s1.buffer@ == buf
            && s1.target is None
    } else {
        let n = addressed_declared_len(buf) as int;
        let frame = buf.subrange(0, n);
        &&& request_ok(frame)
        &&& if buf[1] == 0x01 {
            &&& r is Dial
            &&& r->Dial_0.wf()
            &&& r->Dial_0.spec_bytes() == with_zero_rsv(frame)
            &&& s1.target is Some
            &&& s1.target->Some_0.spec_bytes() == with_zero_rsv(frame)
            &&& s1.buffer@ == buf.subrange(n, buf.len() as int)
            &&& s1.phase == ConnectionState::AwaitRequest
        } else {
            r is SendAndClose && emitted(r) == failure_reply_bytes(Reply::CommandNotSupported)
                && s1.phase == ConnectionState::Closing
        }
    }
}

/// What client bytes lead to while the target is dialed: they are kept for
/// the upstream, up to a bound past which the session closes.
pub open spec fn early_payload_outcome(s0: ConnectionInstance, s1: ConnectionInstance, data: Seq<u8>, r: SessionAction) -> bool {
    let buf = s0.buffer@ + data;
    if buf.len() <= MAX_EARLY_PAYLOAD {
        r == SessionAction::Wait && s1.phase == ConnectionState::AwaitRequest && s1.buffer@ == buf
    } else {
        r == SessionAction::Close && s1.phase == ConnectionState::Closing
    }
}

/// The success reply naming the bound endpoint, or `0.0.0.0:0` where the
/// endpoint cannot be written.
pub open spec fn success_reply_bytes(b: BoundAddress) -> Seq<u8> {
    if addr_len_ok(b.atyp, b.addr@.len()) {
        addressed_bytes(SOCKS_VERSION, reply_code(Reply::Succeeded), 0, b.atyp, b.addr@, b.port)
    } else {
        failure_reply_bytes(Reply::Succeeded)
    }
}

/// What a successful dial leads to: the success reply, then relaying, with
/// the client bytes kept so far as the first bytes for the upstream.
pub open spec fn connected_outcome(s0: ConnectionInstance, s1: ConnectionInstance, b: BoundAddress, r: SessionAction) -> bool {
    &&& r is SendAndRelay
    &&& emitted(r) == success_reply_bytes(b)
    &&& r->SendAndRelay_1@ == s0.buffer@
    &&& s1.phase == ConnectionState::Relaying
}

/// What a failed dial leads to: the reply that the failure maps to, then close.
pub open spec fn dial_failed_outcome(s1: ConnectionInstance, e: DialError, r: SessionAction) -> bool {
    r is SendAndClose && emitted(r) == failure_reply_bytes(dial_error_reply(e)) && s1.phase
        == ConnectionState::Closing
}

/// What the expiry of a deadline leads to: relaying has none; a request being
/// dialed gets reply 0x01; any other phase closes without a word.
pub open spec fn timeout_outcome(s0: ConnectionInstance, s1: ConnectionInstance, r: SessionAction) -> bool {
    if s0.phase == ConnectionState::Relaying {
        r == SessionAction::Wait && s1.phase == ConnectionState::Relaying
    } else if s0.phase == ConnectionState::AwaitRequest && s0.target is Some {
        r is SendAndClose && emitted(r) == failure_reply_bytes(Reply::GeneralSocksServerFailure)
            && s1.phase == ConnectionState::Closing
    } else {
        r == SessionAction::Close && s1.phase == ConnectionState::Closing
    }
}

/// What an event leads to in each phase. An event that the phase does not
/// expect is a protocol violation and closes the session, except while
/// relaying, where only the end of the relay matters.
pub open spec fn step_outcome(s0: ConnectionInstance, s1: ConnectionInstance, e: SessionEvent, r: SessionAction) -> bool {
    if s0.phase == ConnectionState::Closing {
        r == SessionAction::Close && s1.phase == ConnectionState::Closing
    } else {
        match e {
            SessionEvent::ClientData(d) => {
                if s0.phase == ConnectionState::AwaitGreeting && s0.offered is None {
                    greeting_data_outcome(s0, s1, d@, r)
                } else if s0.phase == ConnectionState::AwaitRequest && s0.target is None {
                    request_data_outcome(s0, s1, d@, r)
                } else if s0.phase == ConnectionState::AwaitRequest {
                    early_payload_outcome(s0, s1, d@, r)
                } else {
                    unexpected_outcome(s0, s1, r)
                }
            },
            SessionEvent::MethodChosen(m) => {
                if s0.phase == ConnectionState::AwaitGreeting && s0.offered is Some {
                    method_chosen_outcome(s0, s1, m, r)
                } else {
                    unexpected_outcome(s0, s1, r)
                }
            },
            SessionEvent::SubprotocolDone(o) => {
                if s0.phase == ConnectionState::AwaitAuthSubprotocol {
                    subprotocol_outcome(s1, o, r)
                } else {
                    unexpected_outcome(s0, s1, r)
                }
            },
            SessionEvent::Connected(b) => {
                if s0.phase == ConnectionState::AwaitRequest && s0.target is Some {
                    connected_outcome(s0, s1, b, r)
                } else {
                    unexpected_outcome(s0, s1, r)
                }
            },
            SessionEvent::DialFailed(x) => {
                if s0.phase == ConnectionState::AwaitRequest && s0.target is Some {
                    dial_failed_outcome(s1, x, r)
                } else {
                    unexpected_outcome(s0, s1, r)
                }
            },
            SessionEvent::Timeout => timeout_outcome(s0, s1, r),
            SessionEvent::ClientClosed => unexpected_outcome(s0, s1, r),
            SessionEvent::RelayFinished => r == SessionAction::Close && s1.phase
                == ConnectionState::Closing,
        }
    }
}

/// An event the phase does not expect: ignored while relaying, fatal before.
pub open spec fn unexpected_outcome(s0: ConnectionInstance, s1: ConnectionInstance, r: SessionAction) -> bool {
    if s0.phase == ConnectionState::Relaying {
        r == SessionAction::Wait && s1.phase == ConnectionState::Relaying
    } else {
        r == SessionAction::Close && s1.phase == ConnectionState::Closing
    }
}

/// The state of one client connection.
#[derive(Clone, Debug, PartialEq)]
pub struct ConnectionInstance {
    pub phase: ConnectionState,
    /// Client bytes not yet consumed.
    pub buffer: Vec<u8>,
    /// The methods of the parsed greeting, until the choice is made.
    pub offered: Option<Vec<Authentication>>,
    /// The selected method, set once.
    pub auth_method: Option<Authentication>,
    /// The accepted request, set once.
    pub target: Option<ConnectionRequest>,
    /// Method selections written so far.
    pub selections_sent: u8,
    /// Replies written so far.
    pub replies_sent: u8,
}

pub fn failure_reply(rep: Reply) -> (r: Vec<u8>)
    ensures
        r@ == failure_reply_bytes(rep),
{
    let v: Vec<u8> = vec![0, 0, 0, 0];
    ConnectionResponse::new(rep, AddressType::IPv4, v, 0).serialize()
}

pub fn reply_for_dial_error(e: DialError) -> (r: Reply)
    ensures
        r == dial_error_reply(e),
{
    match e {
        DialError::ResolutionFailed => Reply::HostUnreachable,
        DialError::NotAllowed => Reply::ConnectionNotAllowedByRuleset,
        DialError::NetworkUnreachable => Reply::NetworkUnreachable,
        DialError::HostUnreachable => Reply::HostUnreachable,
        DialError::Refused => Reply::ConnectionRefused,
        DialError::TtlExpired => Reply::TTLExpired,
        DialError::Other => Reply::GeneralSocksServerFailure,
    }
}

/// `a` followed by `b`.
fn concat(a: &Vec<u8>, b: &Vec<u8>) -> (r: Vec<u8>)
    ensures
        r@ == a@ + b@,
{
    let mut r = a.clone();
    let mut i: usize = 0;
    while i < b.len()
        invariant
            0 <= i <= b@.len(),
            r@ == a@ + b@.subrange(0, i as int),
        decreases b@.len() - i,
    {
        r.push(b[i]);
        i = i + 1;
        assert(r@ =~= a@ + b@.subrange(0, i as int));
    }
    assert(b@.subrange(0, b@.len() as int) =~= b@);
    r
}

/// The bytes of `v` from `start` to `end`.
fn copy_range(v: &Vec<u8>, start: usize, end: usize) -> (r: Vec<u8>)
    requires
        start <= end <= v@.len(),
    ensures
        r@ == v@.subrange(start as int, end as int),
{
    let mut r: Vec<u8> = Vec::new();
    let mut i: usize = start;
    while i < end
        invariant
            start <= i <= end,
            end <= v@.len(),
            r@ == v@.subrange(start as int, i as int),
        decreases end - i,
    {
        r.push(v[i]);
        i = i + 1;
        assert(r@ =~= v@.subrange(start as int, i as int));
    }
    r
}

/// A request with the same fields as `req`.
fn copy_request(req: &ConnectionRequest) -> (r: ConnectionRequest)
    ensures
        r.ver == req.ver,
        r.cmd == req.cmd,
        r.rsv == req.rsv,
        r.atyp == req.atyp,
        r.dst_addr@ == req.dst_addr@,
        r.dst_port == req.dst_port,
{
    ConnectionRequest {
        ver: req.ver,
        cmd: req.cmd,
        rsv: req.rsv,
        atyp: req.atyp,
        dst_addr: req.dst_addr.clone(),
        dst_port: req.dst_port,
    }
}

proof fn lemma_failure_reply_ok(rep: Reply)
    ensures
        reply_ok(failure_reply_bytes(rep)),
{
    lemma_addressed_frame(reply_code(rep), AddressType::IPv4, seq![0u8, 0, 0, 0], 0);
}

proof fn lemma_success_reply_ok(b: BoundAddress)
    ensures
        reply_ok(success_reply_bytes(b)),
{
    lemma_failure_reply_ok(Reply::Succeeded);
    if addr_len_ok(b.atyp, b.addr@.len()) {
        lemma_addressed_frame(reply_code(Reply::Succeeded), b.atyp, b.addr@, b.port);
    }
}

impl ConnectionInstance {
    /// The counters of written messages agree with the phase: a method
    /// selection is written on leaving the greeting phase, and a reply on
    /// entering relaying or closing from the request phase.
    pub open spec fn wf(&self) -> bool {
        &&& self.selections_sent <= 1
        &&& self.replies_sent <= 1
        &&& self.phase == ConnectionState::AwaitGreeting ==> self.selections_sent == 0
            && self.replies_sent == 0 && self.auth_method is None && self.target is None
        &&& (self.phase == ConnectionState::AwaitAuthSubprotocol || self.phase
            == ConnectionState::AwaitRequest) ==> self.selections_sent == 1 && self.replies_sent
            == 0 && self.auth_method is Some
        &&& self.phase == ConnectionState::Relaying ==> self.selections_sent == 1
            && self.replies_sent == 1 && self.target is Some
        &&& self.phase != ConnectionState::AwaitGreeting ==> self.offered is None
        &&& self.target matches Some(t) ==> t.wf() && t.cmd == ConnectionType::Connect
        &&& self.phase == ConnectionState::AwaitAuthSubprotocol ==> self.target is None
    }

    /// A fresh session, waiting for the client's greeting.
    pub fn new() -> (r: Self)
        ensures
            r.wf(),
            r.phase == ConnectionState::AwaitGreeting,
            r.buffer@.len() == 0,
            r.offered is None,
            r.selections_sent == 0,
            r.replies_sent == 0,
    {
        ConnectionInstance {
            phase: ConnectionState::AwaitGreeting,
            buffer: Vec::new(),
            offered: None,
            auth_method: None,
            target: None,
            selections_sent: 0,
            replies_sent: 0,
        }
    }

    /// Ends the session without writing anything.
    fn close(&mut self) -> (r: SessionAction)
        ensures
            final(self).phase == ConnectionState::Closing,
            final(self).selections_sent == old(self).selections_sent,
            final(self).replies_sent == old(self).replies_sent,
            final(self).target == old(self).target,
            final(self).auth_method == old(self).auth_method,
            final(self).offered is None,
            r == SessionAction::Close,
    {
        self.phase = ConnectionState::Closing;
        self.offered = None;
        self.buffer = Vec::new();
        SessionAction::Close
    }

    /// Greeting bytes arrived. Waits until the declared number of methods is
    /// in, then asks for a choice among them; closes without a word on a wrong
    /// version, on bytes beyond the declared methods, or on a malformed greeting.
    pub fn on_greeting_data(&mut self, data: Vec<u8>) -> (r: SessionAction)
        requires
            old(self).wf(),
            old(self).phase == ConnectionState::AwaitGreeting,
            old(self).offered is None,
        ensures
            final(self).wf(),
            emitted(r).len() == 0,
            final(self).selections_sent == old(self).selections_sent,
            final(self).replies_sent == old(self).replies_sent,
            greeting_data_outcome(*old(self), *final(self), data@, r),
    {
        let buf = concat(&self.buffer, &data);
        if buf.len() >= 1 && buf[0] != SOCKS_VERSION {
            return self.close();
        }
        if buf.len() < 2 || buf.len() < 2 + buf[1] as usize {
            self.buffer = buf;
            return SessionAction::Wait;
        }
        if buf.len() > 2 + buf[1] as usize {
            return self.close();
        }
        match AuthenticationRequest::deserialize(buf) {
            Ok(greeting) => {
                let methods = greeting.auth;
                self.offered = Some(methods.clone());
                self.buffer = Vec::new();
                assert(greeting.spec_bytes().subrange(2, greeting.spec_bytes().len() as int)
                    =~= auth_codes(methods@));
                SessionAction::ChooseMethod(methods)
            },
            Err(_) => self.close(),
        }
    }
    /// The authentication handler chose `m` among the offered methods.
    pub fn on_method_chosen(&mut self, m: Authentication) -> (r: SessionAction)
        requires
            old(self).wf(),
            old(self).phase == ConnectionState::AwaitGreeting,
            old(self).offered is Some,
        ensures
            final(self).wf(),
            final(self).selections_sent == 1,
            final(self).replies_sent == old(self).replies_sent,
            method_chosen_outcome(*old(self), *final(self), m, r),
    {
        let offered = match self.offered.take() {
            Some(o) => o,
            None => Vec::new(),
        };
        let ghost o = offered@;
        let mut found = false;
        let mut i: usize = 0;
        while i < offered.len()
            invariant
                0 <= i <= offered@.len(),
                offered@ == o,
                found <==> exists|j: int| 0 <= j < i && o[j] == m,
            decreases offered@.len() - i,
        {
            if offered[i] == m {
                found = true;
            }
            i = i + 1;
        }
        let c = if m == Authentication::NoAcceptable || found {
            m
        } else {
            Authentication::NoAcceptable
        };
        assert(c == accepted_choice(o, m));
        self.auth_method = Some(c);
        self.selections_sent = 1;
        self.buffer = Vec::new();
        let bytes = AuthenticationResponse::new(c).serialize();
        assert(bytes@ =~= seq![SOCKS_VERSION, auth_code(c)]);
        match c {
            Authentication::NoAcceptable => {
                self.phase = ConnectionState::Closing;
                SessionAction::SendAndClose(bytes)
            },
            Authentication::Assigned(AuthenticationType::NoAuthentication) => {
                self.phase = ConnectionState::AwaitRequest;
                SessionAction::Send(bytes)
            },
            _ => {
                self.phase = ConnectionState::AwaitAuthSubprotocol;
                SessionAction::SendAndAuthenticate(bytes, c)
            },
        }
    }

    /// The method-specific exchange ended with `o`.
    pub fn on_subprotocol_done(&mut self, o: SubprotocolOutcome) -> (r: SessionAction)
        requires
            old(self).wf(),
            old(self).phase == ConnectionState::AwaitAuthSubprotocol,
        ensures
            final(self).wf(),
            final(self).selections_sent == old(self).selections_sent,
            final(self).replies_sent == old(self).replies_sent,
            final(self).auth_method == old(self).auth_method,
            subprotocol_outcome(*final(self), o, r),
    {
        match o {
            SubprotocolOutcome::Granted => {
                self.phase = ConnectionState::AwaitRequest;
                self.buffer = Vec::new();
                SessionAction::Wait
            },
            _ => self.close(),
        }
    }

    /// Client bytes arrived before a request was accepted.
    pub fn on_request_data(&mut self, data: Vec<u8>) -> (r: SessionAction)
        requires
            old(self).wf(),
            old(self).phase == ConnectionState::AwaitRequest,
            old(self).target is None,
        ensures
            final(self).wf(),
            final(self).selections_sent == old(self).selections_sent,
            final(self).auth_method == old(self).auth_method,
            emitted(r).len() == 0 ==> final(self).replies_sent == old(self).replies_sent,
            emitted(r).len() > 0 ==> final(self).replies_sent == 1,
            request_data_outcome(*old(self), *final(self), data@, r),
    {
        let buf = concat(&self.buffer, &data);
        if buf.len() >= 1 && buf[0] != SOCKS_VERSION {
            return self.close();
        }
        if buf.len() >= 4 && !(buf[3] == 0x01 || buf[3] == 0x03 || buf[3] == 0x04) {
            return self.close_with_reply(Reply::AddressTypeNotSupported);
        }
        if buf.len() < 5 {
            self.buffer = buf;
            return SessionAction::Wait;
        }
        let n = match addressed_message_len(buf.as_slice()) {
            Some(n) => n,
            None => {
                return self.close_with_reply(Reply::GeneralSocksServerFailure);
            },
        };
        if buf.len() < n {
            self.buffer = buf;
            return SessionAction::Wait;
        }
        let frame = copy_range(&buf, 0, n);
        let rest = copy_range(&buf, n, buf.len());
        assert(addressed_frame_ok(frame@));
        match ConnectionRequest::deserialize(frame) {
            Ok(req) => {
                assert(req.spec_bytes()[1] == with_zero_rsv(frame@)[1]);
                assert(frame@[1] == buf@[1]);
                assert(cmd_code(req.cmd) == buf@[1]);
                if let ConnectionType::Connect = req.cmd {
                    let dial = copy_request(&req);
                    assert(dial.spec_bytes() == req.spec_bytes());
                    self.target = Some(req);
                    self.buffer = rest;
                    SessionAction::Dial(dial)
                } else {
                    self.close_with_reply(Reply::CommandNotSupported)
                }
            },
            Err(_) => self.close(),
        }
    }

    /// Client bytes arrived while the target is dialed.
    pub fn on_early_payload(&mut self, data: Vec<u8>) -> (r: SessionAction)
        requires
            old(self).wf(),
            old(self).phase == ConnectionState::AwaitRequest,
            old(self).target is Some,
        ensures
            final(self).wf(),
            final(self).selections_sent == old(self).selections_sent,
            final(self).replies_sent == old(self).replies_sent,
            final(self).auth_method == old(self).auth_method,
            final(self).target == old(self).target,
            early_payload_outcome(*old(self), *final(self), data@, r),
    {
        if data.len() > MAX_EARLY_PAYLOAD || self.buffer.len() > MAX_EARLY_PAYLOAD - data.len() {
            return self.close();
        }
        self.buffer = concat(&self.buffer, &data);
        SessionAction::Wait
    }

    /// The target was dialed and the upstream connection is bound at `b`.
    pub fn on_connected(&mut self, b: BoundAddress) -> (r: SessionAction)
        requires
            old(self).wf(),
            old(self).phase == ConnectionState::AwaitRequest,
            old(self).target is Some,
        ensures
            final(self).wf(),
            final(self).selections_sent == old(self).selections_sent,
            final(self).replies_sent == 1,
            final(self).auth_method == old(self).auth_method,
            final(self).target == old(self).target,
            connected_outcome(*old(self), *final(self), b, r),
    {
        let reply = if crate::connection::address_fits(b.atyp, &b.addr) {
            let v = ConnectionResponse::new(Reply::Succeeded, b.atyp, b.addr, b.port).serialize();
            v
        } else {
            failure_reply(Reply::Succeeded)
        };
        let payload = copy_range(&self.buffer, 0, self.buffer.len());
        assert(payload@ =~= old(self).buffer@);
        self.buffer = Vec::new();
        self.phase = ConnectionState::Relaying;
        self.replies_sent = 1;
        SessionAction::SendAndRelay(reply, payload)
    }

    /// Resolving or dialing the target failed with `e`.
    pub fn on_dial_failed(&mut self, e: DialError) -> (r: SessionAction)
        requires
            old(self).wf(),
            old(self).phase == ConnectionState::AwaitRequest,
            old(self).target is Some,
        ensures
            final(self).wf(),
            final(self).selections_sent == old(self).selections_sent,
            final(self).replies_sent == 1,
            final(self).auth_method == old(self).auth_method,
            final(self).target == old(self).target,
            dial_failed_outcome(*final(self), e, r),
    {
        self.close_with_reply(reply_for_dial_error(e))
    }

    /// The deadline of the current phase passed.
    pub fn on_timeout(&mut self) -> (r: SessionAction)
        requires
            old(self).wf(),
            old(self).phase != ConnectionState::Closing,
        ensures
            final(self).wf(),
            final(self).selections_sent == old(self).selections_sent,
            final(self).auth_method == old(self).auth_method,
            final(self).target == old(self).target,
            emitted(r).len() == 0 ==> final(self).replies_sent == old(self).replies_sent,
            emitted(r).len() > 0 ==> final(self).replies_sent == 1 && old(self).replies_sent == 0,
            timeout_outcome(*old(self), *final(self), r),
    {
        match self.phase {
            ConnectionState::Relaying => SessionAction::Wait,
            ConnectionState::AwaitRequest => {
                if self.target.is_some() {
                    self.close_with_reply(Reply::GeneralSocksServerFailure)
                } else {
                    self.close()
                }
            },
            _ => self.close(),
        }
    }

    /// Writes a reply that names no endpoint, then ends the session.
    fn close_with_reply(&mut self, rep: Reply) -> (r: SessionAction)
        requires
            old(self).replies_sent == 0,
        ensures
            final(self).phase == ConnectionState::Closing,
            final(self).selections_sent == old(self).selections_sent,
            final(self).replies_sent == 1,
            final(self).target == old(self).target,
            final(self).auth_method == old(self).auth_method,
            final(self).offered is None,
            r is SendAndClose,
            emitted(r) == failure_reply_bytes(rep),
    {
        self.phase = ConnectionState::Closing;
        self.offered = None;
        self.buffer = Vec::new();
        self.replies_sent = 1;
        SessionAction::SendAndClose(failure_reply(rep))
    }
    /// Advances the session by one event and says what to do next.
    ///
    /// Phases only move forward; each step writes at most one message to the
    /// client, and a session writes at most one method selection and at most
    /// one reply over its whole life, which the counters and `wf` record.
    pub fn step(&mut self, event: SessionEvent) -> (r: SessionAction)
        requires
            old(self).wf(),
        ensures
            final(self).wf(),
            phase_rank(final(self).phase) >= phase_rank(old(self).phase),
            step_outcome(*old(self), *final(self), event, r),
            emitted(r).len() == 0 ==> final(self).selections_sent == old(self).selections_sent
                && final(self).replies_sent == old(self).replies_sent,
            emitted(r).len() > 0 ==> ((old(self).selections_sent == 0 && final(self).selections_sent
                == 1 && final(self).replies_sent == old(self).replies_sent && selection_ok(
                emitted(r),
            )) || (old(self).replies_sent == 0 && final(self).replies_sent == 1
                && final(self).selections_sent == old(self).selections_sent && reply_ok(
                emitted(r),
            ))),
            old(self).auth_method is Some ==> final(self).auth_method == old(self).auth_method,
            old(self).target is Some ==> final(self).target == old(self).target,
    {
        if let ConnectionState::Closing = self.phase {
            return SessionAction::Close;
        }
        let ghost s0 = *self;
        let r = match event {
            SessionEvent::ClientData(d) => {
                match self.phase {
                    ConnectionState::AwaitGreeting => {
                        if self.offered.is_none() {
                            self.on_greeting_data(d)
                        } else {
                            self.close()
                        }
                    },
                    ConnectionState::AwaitRequest => {
                        if self.target.is_none() {
                            let r = self.on_request_data(d);
                            proof {
                                lemma_failure_reply_ok(Reply::AddressTypeNotSupported);
                                lemma_failure_reply_ok(Reply::GeneralSocksServerFailure);
                                lemma_failure_reply_ok(Reply::CommandNotSupported);
                            }
                            r
                        } else {
                            self.on_early_payload(d)
                        }
                    },
                    ConnectionState::Relaying => SessionAction::Wait,
                    _ => self.close(),
                }
            },
            SessionEvent::MethodChosen(m) => {
                if self.offered.is_some() {
                    if let ConnectionState::AwaitGreeting = self.phase {
                        self.on_method_chosen(m)
                    } else {
                        self.close()
                    }
                } else {
                    self.unexpected()
                }
            },
            SessionEvent::SubprotocolDone(o) => {
                if let ConnectionState::AwaitAuthSubprotocol = self.phase {
                    self.on_subprotocol_done(o)
                } else {
                    self.unexpected()
                }
            },
            SessionEvent::Connected(b) => {
                if self.dialing() {
                    proof {
                        lemma_success_reply_ok(b);
                    }
                    self.on_connected(b)
                } else {
                    self.unexpected()
                }
            },
            SessionEvent::DialFailed(x) => {
                if self.dialing() {
                    proof {
                        lemma_failure_reply_ok(dial_error_reply(x));
                    }
                    self.on_dial_failed(x)
                } else {
                    self.unexpected()
                }
            },
            SessionEvent::Timeout => {
                proof {
                    lemma_failure_reply_ok(Reply::GeneralSocksServerFailure);
                }
                self.on_timeout()
            },
            SessionEvent::ClientClosed => self.unexpected(),
            SessionEvent::RelayFinished => self.close(),
        };
        r
    }

    /// Whether a request was accepted and its target is being dialed.
    fn dialing(&self) -> (r: bool)
        ensures
            r == (self.phase == ConnectionState::AwaitRequest && self.target is Some),
    {
        match self.phase {
            ConnectionState::AwaitRequest => self.target.is_some(),
            _ => false,
        }
    }

    /// Handles an event that the phase does not expect.
    fn unexpected(&mut self) -> (r: SessionAction)
        requires
            old(self).wf(),
            old(self).phase != ConnectionState::Closing,
        ensures
            final(self).wf(),
            final(self).selections_sent == old(self).selections_sent,
            final(self).replies_sent == old(self).replies_sent,
            final(self).auth_method == old(self).auth_method,
            final(self).target == old(self).target,
            unexpected_outcome(*old(self), *final(self), r),
    {
        if let ConnectionState::Relaying = self.phase {
            SessionAction::Wait
        } else {
            self.close()
        }
    }
}

} // verus!
