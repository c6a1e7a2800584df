//! Wire-level enumerations of SOCKS5 and their byte codes.
use vstd::prelude::*;

verus! {

/// Authentication methods with a symbolic IANA assignment.
#[derive(Clone, Copy, Debug, PartialEq, Eq, Structural)]
pub enum AuthenticationType {
    NoAuthentication,
    GSSAPI,
    UsernamePassword,
    ChallengeHandshakeAuthentication,
    ChallengeResponseAuthentication,
    SecureSocketsLayer,
    NdsAuthentication,
    MultiAuthenticationFramework,
    JsonParameterBlock,
}

/// An authentication method as it travels on the wire.
///
/// `Assigned` holds a method with a symbolic name, `Custom` the raw byte of any
/// other code below 0xFF (the private-use range 0x80..=0xFE, or a code that has
/// no assignment), and `NoAcceptable` is the server's sentinel 0xFF.
#[derive(Clone, Copy, Debug, PartialEq, Eq, Structural)]
pub enum Authentication {
    Custom(u8),
    Assigned(AuthenticationType),
    NoAcceptable,
}

/// The command of a connection request; `Other` keeps an unknown CMD byte.
#[derive(Clone, Copy, Debug, PartialEq, Eq, Structural)]
pub enum ConnectionType {
    Connect,
    Bind,
    UdpAssociate,
    Other(u8),
}

/// The encoding of a destination or bound address.
#[derive(Clone, Copy, Debug, PartialEq, Eq, Structural)]
pub enum AddressType {
    IPv4,
    IPv6,
    DNS,
}

/// The status field of a connection reply.
#[derive(Clone, Copy, Debug, PartialEq, Eq, Structural)]
pub enum Reply {
    Succeeded,
    GeneralSocksServerFailure,
    ConnectionNotAllowedByRuleset,
    NetworkUnreachable,
    HostUnreachable,
    ConnectionRefused,
    TTLExpired,
    CommandNotSupported,
    AddressTypeNotSupported,
}

/// The negotiation phase of a session. Phases only ever move forward, in the
/// order in which they are declared.
#[derive(Clone, Copy, Debug, PartialEq, Eq, Structural)]
pub enum ConnectionState {
    AwaitGreeting,
    AwaitAuthSubprotocol,
    AwaitRequest,
    Relaying,
    Closing,
}

pub const SOCKS_VERSION: u8 = 5;

pub const NO_ACCEPTABLE_METHODS: u8 = 0xFF;

pub open spec fn auth_type_code(t: AuthenticationType) -> u8 {
    match t {
        AuthenticationType::NoAuthentication => 0x00,
        AuthenticationType::GSSAPI => 0x01,
        AuthenticationType::UsernamePassword => 0x02,
        AuthenticationType::ChallengeHandshakeAuthentication => 0x03,
        AuthenticationType::ChallengeResponseAuthentication => 0x05,
        AuthenticationType::SecureSocketsLayer => 0x06,
        AuthenticationType::NdsAuthentication => 0x07,
        AuthenticationType::MultiAuthenticationFramework => 0x08,
        AuthenticationType::JsonParameterBlock => 0x09,
    }
}

/// The codes that `AuthenticationType` names.
pub open spec fn is_assigned_code(b: u8) -> bool {
    b <= 0x09 && b != 0x04
}

pub open spec fn auth_code(a: Authentication) -> u8 {
    match a {
        Authentication::Custom(b) => b,
        Authentication::Assigned(t) => auth_type_code(t),
        Authentication::NoAcceptable => NO_ACCEPTABLE_METHODS,
    }
}

/// A method has exactly one representation: a code with a symbolic name is
/// never held as a raw byte.
pub open spec fn auth_wf(a: Authentication) -> bool {
    match a {
        Authentication::Custom(b) => !is_assigned_code(b) && b != NO_ACCEPTABLE_METHODS,
        _ => true,
    }
}

/// A method that a client may offer in its greeting.
pub open spec fn auth_offerable(a: Authentication) -> bool {
    auth_wf(a) && a != Authentication::NoAcceptable
}

pub open spec fn cmd_code(c: ConnectionType) -> u8 {
    match c {
        ConnectionType::Connect => 0x01,
        ConnectionType::Bind => 0x02,
        ConnectionType::UdpAssociate => 0x03,
        ConnectionType::Other(b) => b,
    }
}

pub open spec fn cmd_wf(c: ConnectionType) -> bool {
    match c {
        ConnectionType::Other(b) => !(0x01 <= b <= 0x03),
        _ => true,
    }
}

pub open spec fn atyp_code(t: AddressType) -> u8 {
    match t {
        AddressType::IPv4 => 0x01,
        AddressType::DNS => 0x03,
        AddressType::IPv6 => 0x04,
    }
}

pub open spec fn is_atyp_code(b: u8) -> bool {
    b == 0x01 || b == 0x03 || b == 0x04
}

pub open spec fn reply_code(r: Reply) -> u8 {
    match r {
        Reply::Succeeded => 0x00,
        Reply::GeneralSocksServerFailure => 0x01,
        Reply::ConnectionNotAllowedByRuleset => 0x02,
        Reply::NetworkUnreachable => 0x03,
        Reply::HostUnreachable => 0x04,
        Reply::ConnectionRefused => 0x05,
        Reply::TTLExpired => 0x06,
        Reply::CommandNotSupported => 0x07,
        Reply::AddressTypeNotSupported => 0x08,
    }
}

/// Position of a phase in the forward order of a session.
pub open spec fn phase_rank(s: ConnectionState) -> nat {
    match s {
        ConnectionState::AwaitGreeting => 0,
        ConnectionState::AwaitAuthSubprotocol => 1,
        ConnectionState::AwaitRequest => 2,
        ConnectionState::Relaying => 3,
        ConnectionState::Closing => 4,
    }
}

/// Distinct well-formed methods have distinct codes.
pub proof fn lemma_auth_code_injective(a: Authentication, b: Authentication)
    requires
        auth_wf(a),
        auth_wf(b),
        auth_code(a) == auth_code(b),
    ensures
        a == b,
{
}

/// Distinct well-formed commands have distinct codes.
pub proof fn lemma_cmd_code_injective(a: ConnectionType, b: ConnectionType)
    requires
        cmd_wf(a),
        cmd_wf(b),
        cmd_code(a) == cmd_code(b),
    ensures
        a == b,
{
}

} // verus!
