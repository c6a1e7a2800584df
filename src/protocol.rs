//! Byte-level helpers shared by the message codecs, and the codec trait.
use crate::constants::{
    atyp_code, auth_code, auth_wf, cmd_code, cmd_wf, is_atyp_code, reply_code,
    AddressType, Authentication, AuthenticationType, ConnectionType, Reply, NO_ACCEPTABLE_METHODS,
    SOCKS_VERSION,
};
use vstd::prelude::*;

verus! {

/// Why a byte sequence was not accepted as a negotiation message.
#[derive(Clone, Copy, Debug, PartialEq, Eq, Structural)]
pub enum CodecError {
    MalformedGreeting,
    MalformedMethodSelection,
    MalformedRequest,
    MalformedReply,
}

/// A negotiation message that has an exact wire form.
pub trait Serialization<T>: Sized {
    fn serialize(self) -> Vec<u8>;

    fn deserialize(binary: Vec<u8>) -> Result<T, CodecError>;
}

/// A port in network byte order.
pub open spec fn port_bytes(p: u16) -> Seq<u8> {
    seq![(p / 256) as u8, (p % 256) as u8]
}

/// Whether an address body of `n` bytes fits the address type.
pub open spec fn addr_len_ok(t: AddressType, n: nat) -> bool {
    match t {
        AddressType::IPv4 => n == 4,
        AddressType::IPv6 => n == 16,
        AddressType::DNS => 1 <= n <= 255,
    }
}

/// The address field on the wire: a domain carries its length in front.
pub open spec fn addr_field(t: AddressType, addr: Seq<u8>) -> Seq<u8> {
    match t {
        AddressType::DNS => seq![addr.len() as u8] + addr,
        _ => addr,
    }
}

/// Wire form shared by requests and replies: four header bytes, the address
/// field and the port.
pub open spec fn addressed_bytes(
    ver: u8,
    code: u8,
    rsv: u8,
    t: AddressType,
    addr: Seq<u8>,
    port: u16,
) -> Seq<u8> {
    seq![ver, code, rsv, atyp_code(t)] + addr_field(t, addr) + port_bytes(port)
}

/// The total length that the header of a request or reply declares, once its
/// first five bytes are known; zero where the address type is unknown or a
/// domain is empty.
pub open spec fn addressed_declared_len(b: Seq<u8>) -> nat {
    if b[3] == 0x01 {
        10
    } else if b[3] == 0x04 {
        22
    } else if b[3] == 0x03 && b[4] >= 1 {
        7 + b[4] as nat
    } else {
        0
    }
}

/// A request or reply frame whose address type is known and whose length is
/// exactly the length its header declares.
pub open spec fn addressed_frame_ok(b: Seq<u8>) -> bool {
    b.len() >= 5 && b[0] == SOCKS_VERSION && addressed_declared_len(b) == b.len()
}

pub fn extract_address_from_bytes_arr(binary: &[u8], atyp: &AddressType) -> (r: Vec<u8>)
    requires
        *atyp == AddressType::DNS ==> binary@.len() >= 1,
    ensures
        r@ == (if *atyp == AddressType::DNS {
            binary@.subrange(1, binary@.len() as int)
        } else {
            binary@
        }),
{
    let start: usize = match atyp {
        AddressType::DNS => 1,
        _ => 0,
    };
    let mut r: Vec<u8> = Vec::new();
    let mut i: usize = start;
    while i < binary.len()
        invariant
            start <= i <= binary@.len(),
            r@ == binary@.subrange(start as int, i as int),
        decreases binary@.len() - i,
    {
        r.push(binary[i]);
        i = i + 1;
        assert(r@ =~= binary@.subrange(start as int, i as int));
    }
    assert(binary@.subrange(0, binary@.len() as int) =~= binary@);
    r
}

pub fn extract_port_from_bytes_arr(binary: &[u8]) -> (r: u16)
    requires
        binary@.len() >= 2,
    ensures
        r as int == binary@[0] as int * 256 + binary@[1] as int,
        port_bytes(r) == binary@.subrange(0, 2),
{
    let r = (binary[0] as u16) * 256 + (binary[1] as u16);
    assert(port_bytes(r) =~= binary@.subrange(0, 2));
    r
}

pub fn extract_auth_type_from_byte(byte: u8) -> (r: Authentication)
    ensures
        auth_wf(r),
        auth_code(r) == byte,
{
    match byte {
        0x00 => Authentication::Assigned(AuthenticationType::NoAuthentication),
        0x01 => Authentication::Assigned(AuthenticationType::GSSAPI),
        0x02 => Authentication::Assigned(AuthenticationType::UsernamePassword),
        0x03 => Authentication::Assigned(AuthenticationType::ChallengeHandshakeAuthentication),
        0x05 => Authentication::Assigned(AuthenticationType::ChallengeResponseAuthentication),
        0x06 => Authentication::Assigned(AuthenticationType::SecureSocketsLayer),
        0x07 => Authentication::Assigned(AuthenticationType::NdsAuthentication),
        0x08 => Authentication::Assigned(AuthenticationType::MultiAuthenticationFramework),
        0x09 => Authentication::Assigned(AuthenticationType::JsonParameterBlock),
        0xFF => Authentication::NoAcceptable,
        _ => Authentication::Custom(byte),
    }
}

pub fn extract_auth_u8_from_auth_type(auth: Authentication) -> (r: Option<u8>)
    ensures
        r == Some(auth_code(auth)),
{
    match auth {
        Authentication::Custom(b) => Some(b),
        Authentication::NoAcceptable => Some(NO_ACCEPTABLE_METHODS),
        Authentication::Assigned(t) => Some(
            match t {
                AuthenticationType::NoAuthentication => 0x00,
                AuthenticationType::GSSAPI => 0x01,
                AuthenticationType::UsernamePassword => 0x02,
                AuthenticationType::ChallengeHandshakeAuthentication => 0x03,
                AuthenticationType::ChallengeResponseAuthentication => 0x05,
                AuthenticationType::SecureSocketsLayer => 0x06,
                AuthenticationType::NdsAuthentication => 0x07,
                AuthenticationType::MultiAuthenticationFramework => 0x08,
                AuthenticationType::JsonParameterBlock => 0x09,
            },
        ),
    }
}

pub fn extract_atyp_from_byte(atyp_byte: &u8) -> (r: Option<AddressType>)
    ensures
        r is Some <==> is_atyp_code(*atyp_byte),
        r matches Some(t) ==> atyp_code(t) == *atyp_byte,
{
    match atyp_byte {
        0x01 => Some(AddressType::IPv4),
        0x04 => Some(AddressType::IPv6),
        0x03 => Some(AddressType::DNS),
        _ => None,
    }
}

pub fn atyp_to_byte(t: AddressType) -> (r: u8)
    ensures
        r == atyp_code(t),
{
    match t {
        AddressType::IPv4 => 0x01,
        AddressType::DNS => 0x03,
        AddressType::IPv6 => 0x04,
    }
}

pub fn connection_type_to_byte(c: ConnectionType) -> (r: u8)
    ensures
        r == cmd_code(c),
{
    match c {
        ConnectionType::Connect => 0x01,
        ConnectionType::Bind => 0x02,
        ConnectionType::UdpAssociate => 0x03,
        ConnectionType::Other(b) => b,
    }
}

pub fn connection_type_from_byte(b: u8) -> (r: ConnectionType)
    ensures
        cmd_wf(r),
        cmd_code(r) == b,
{
    match b {
        0x01 => ConnectionType::Connect,
        0x02 => ConnectionType::Bind,
        0x03 => ConnectionType::UdpAssociate,
        _ => ConnectionType::Other(b),
    }
}

pub fn reply_to_byte(rep: Reply) -> (r: u8)
    ensures
        r == reply_code(rep),
{
    match rep {
        Reply::Succeeded => 0x00,
        Reply::GeneralSocksServerFailure => 0x01,
        Reply::ConnectionNotAllowedByRuleset => 0x02,
        Reply::NetworkUnreachable => 0x03,
        Reply::HostUnreachable => 0x04,
        Reply::ConnectionRefused => 0x05,
        Reply::TTLExpired => 0x06,
        Reply::CommandNotSupported => 0x07,
        Reply::AddressTypeNotSupported => 0x08,
    }
}

pub fn reply_from_byte(b: u8) -> (r: Option<Reply>)
    ensures
        r is Some <==> b <= 0x08,
        r matches Some(rep) ==> reply_code(rep) == b,
{
    match b {
        0x00 => Some(Reply::Succeeded),
        0x01 => Some(Reply::GeneralSocksServerFailure),
        0x02 => Some(Reply::ConnectionNotAllowedByRuleset),
        0x03 => Some(Reply::NetworkUnreachable),
        0x04 => Some(Reply::HostUnreachable),
        0x05 => Some(Reply::ConnectionRefused),
        0x06 => Some(Reply::TTLExpired),
        0x07 => Some(Reply::CommandNotSupported),
        0x08 => Some(Reply::AddressTypeNotSupported),
        _ => None,
    }
}

/// The total length a request or reply header declares, from its first five
/// bytes; `None` where the address type is unknown or a domain is empty.
pub fn addressed_message_len(b: &[u8]) -> (r: Option<usize>)
    requires
        b@.len() >= 5,
    ensures
        r is Some <==> addressed_declared_len(b@) != 0,
        r matches Some(n) ==> n as nat == addressed_declared_len(b@),
{
    if b[3] == 0x01 {
        Some(10)
    } else if b[3] == 0x04 {
        Some(22)
    } else if b[3] == 0x03 && b[4] >= 1 {
        Some(7 + b[4] as usize)
    } else {
        None
    }
}

/// Appends the address field and the port of a request or reply.
pub fn push_address_and_port(out: &mut Vec<u8>, t: AddressType, addr: &Vec<u8>, port: u16)
    requires
        addr_len_ok(t, addr@.len()),
    ensures
        final(out)@ == old(out)@ + addr_field(t, addr@) + port_bytes(port),
{
    if let AddressType::DNS = t {
        out.push(addr.len() as u8);
    }
    let mut i: usize = 0;
    let ghost start = out@;
    while i < addr.len()
        invariant
            0 <= i <= addr@.len(),
            out@ == start + addr@.subrange(0, i as int),
        decreases addr@.len() - i,
    {
        out.push(addr[i]);
        i = i + 1;
        assert(out@ =~= start + addr@.subrange(0, i as int));
    }
    assert(addr@.subrange(0, addr@.len() as int) =~= addr@);
    out.push((port / 256) as u8);
    out.push((port % 256) as u8);
    assert(out@ =~= old(out)@ + addr_field(t, addr@) + port_bytes(port));
}

/// Reads the address field and the port of a frame whose header is checked.
pub fn read_address_and_port(binary: &Vec<u8>, t: AddressType) -> (r: (Vec<u8>, u16))
    requires
        addressed_frame_ok(binary@),
        atyp_code(t) == binary@[3],
    ensures
        addr_len_ok(t, r.0@.len()),
        binary@ == binary@.subrange(0, 4) + addr_field(t, r.0@) + port_bytes(r.1),
{
    let n = binary.len();
    let s = binary.as_slice();
    let field = vstd::slice::slice_subrange(s, 4, n - 2);
    let addr = extract_address_from_bytes_arr(field, &t);
    let port = extract_port_from_bytes_arr(vstd::slice::slice_subrange(s, n - 2, n));
    assert(binary@ =~= binary@.subrange(0, 4) + addr_field(t, addr@) + port_bytes(port));
    (addr, port)
}

} // verus!
