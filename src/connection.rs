//! The client's connection request and the server's reply.
use crate::constants::{
    atyp_code, cmd_code, cmd_wf, lemma_cmd_code_injective, reply_code, AddressType,
    ConnectionType, Reply, SOCKS_VERSION,
};
use crate::protocol::{
    addr_len_ok, addressed_bytes, addressed_frame_ok, addressed_message_len,
    atyp_to_byte, connection_type_from_byte, connection_type_to_byte, extract_atyp_from_byte,
    push_address_and_port, read_address_and_port, reply_from_byte, reply_to_byte,
    CodecError, Serialization,
};
use vstd::prelude::*;

verus! {

/// The client's request: `VER | CMD | RSV | ATYP | DST.ADDR | DST.PORT`.
/// `dst_addr` holds the address body; for a domain, without its length byte.
#[derive(Clone, Debug, PartialEq)]
pub struct ConnectionRequest {
    pub ver: u8,
    pub cmd: ConnectionType,
    pub rsv: u8,
    pub atyp: AddressType,
    pub dst_addr: Vec<u8>,
    pub dst_port: u16,
}

/// The server's reply: `VER | REP | RSV | ATYP | BND.ADDR | BND.PORT`.
/// `bind_addr` holds the address body; for a domain, without its length byte.
#[derive(Clone, Debug, PartialEq)]
pub struct ConnectionResponse {
    pub ver: u8,
    pub rep: Reply,
    pub rsv: u8,
    pub atyp: AddressType,
    pub bind_addr: Vec<u8>,
    pub bind_port: u16,
}

/// The bytes a request must have to be accepted. The reserved byte is not
/// looked at; any command byte is kept.
pub open spec fn request_ok(b: Seq<u8>) -> bool {
    addressed_frame_ok(b)
}

/// The bytes a reply must have to be accepted: a known status besides a
/// well-framed address.
pub open spec fn reply_ok(b: Seq<u8>) -> bool {
    addressed_frame_ok(b) && b[1] <= 0x08
}

/// A request as it is accepted: the reserved byte reads as zero.
pub open spec fn with_zero_rsv(b: Seq<u8>) -> Seq<u8> {
    b.update(2, 0)
}

impl ConnectionRequest {
    /// A structurally valid request.
    pub open spec fn wf(&self) -> bool {
        &&& self.ver == SOCKS_VERSION
        &&& self.rsv == 0
        &&& cmd_wf(self.cmd)
        &&& addr_len_ok(self.atyp, self.dst_addr@.len())
    }

    pub open spec fn spec_bytes(&self) -> Seq<u8> {
        addressed_bytes(
            self.ver,
            cmd_code(self.cmd),
            self.rsv,
            self.atyp,
            self.dst_addr@,
            self.dst_port,
        )
    }
}

impl ConnectionResponse {
    /// A structurally valid reply.
    pub open spec fn wf(&self) -> bool {
        &&& self.ver == SOCKS_VERSION
        &&& self.rsv == 0
        &&& addr_len_ok(self.atyp, self.bind_addr@.len())
    }

    pub open spec fn spec_bytes(&self) -> Seq<u8> {
        addressed_bytes(
            self.ver,
            reply_code(self.rep),
            self.rsv,
            self.atyp,
            self.bind_addr@,
            self.bind_port,
        )
    }

    /// The reply `rep` naming the bound endpoint `atyp`, `bind_addr`, `bind_port`.
    pub fn new(rep: Reply, atyp: AddressType, bind_addr: Vec<u8>, bind_port: u16) -> (r: Self)
        ensures
            r.ver == SOCKS_VERSION,
            r.rep == rep,
            r.rsv == 0,
            r.atyp == atyp,
            r.bind_addr@ == bind_addr@,
            r.bind_port == bind_port,
    {
        ConnectionResponse { ver: SOCKS_VERSION, rep, rsv: 0, atyp, bind_addr, bind_port }
    }
}

/// Writes the four header bytes and the address and port of a request or reply.
fn serialize_addressed(
    ver: u8,
    code: u8,
    rsv: u8,
    atyp: AddressType,
    addr: &Vec<u8>,
    port: u16,
) -> (r: Vec<u8>)
    requires
        addr_len_ok(atyp, addr@.len()),
    ensures
        r@ == addressed_bytes(ver, code, rsv, atyp, addr@, port),
{
    let mut out: Vec<u8> = Vec::new();
    out.push(ver);
    out.push(code);
    out.push(rsv);
    out.push(atyp_to_byte(atyp));
    push_address_and_port(&mut out, atyp, addr, port);
    assert(out@ =~= addressed_bytes(ver, code, rsv, atyp, addr@, port));
    out
}

/// Checks the frame of a request or reply and reads its address type.
fn check_addressed_frame(binary: &Vec<u8>) -> (r: Option<AddressType>)
    ensures
        r is Some <==> addressed_frame_ok(binary@),
        r matches Some(t) ==> atyp_code(t) == binary@[3],
{
    if binary.len() < 5 || binary[0] != SOCKS_VERSION {
        return None;
    }
    match addressed_message_len(binary.as_slice()) {
        Some(n) => {
            if n != binary.len() {
                return None;
            }
        },
        None => {
            return None;
        },
    }
    extract_atyp_from_byte(&binary[3])
}

impl Serialization<ConnectionRequest> for ConnectionRequest {
    /// An address that does not fit its type has no wire form: the result is
    /// then empty.
    fn serialize(self) -> (r: Vec<u8>)
        ensures
            addr_len_ok(self.atyp, self.dst_addr@.len()) ==> r@ == self.spec_bytes(),
            !addr_len_ok(self.atyp, self.dst_addr@.len()) ==> r@.len() == 0,
    {
        if !address_fits(self.atyp, &self.dst_addr) {
            return Vec::new();
        }
        serialize_addressed(
            self.ver,
            connection_type_to_byte(self.cmd),
            self.rsv,
            self.atyp,
            &self.dst_addr,
            self.dst_port,
        )
    }

    fn deserialize(binary: Vec<u8>) -> (r: Result<ConnectionRequest, CodecError>)
        ensures
            match r {
                Ok(v) => request_ok(binary@) && v.wf() && v.spec_bytes() == with_zero_rsv(binary@),
                Err(e) => !request_ok(binary@) && e == CodecError::MalformedRequest,
            },
    {
        let atyp = match check_addressed_frame(&binary) {
            Some(t) => t,
            None => {
                return Err(CodecError::MalformedRequest);
            },
        };
        let (dst_addr, dst_port) = read_address_and_port(&binary, atyp);
        let v = ConnectionRequest {
            ver: binary[0],
            cmd: connection_type_from_byte(binary[1]),
            rsv: 0,
            atyp,
            dst_addr,
            dst_port,
        };
        assert(v.spec_bytes() =~= with_zero_rsv(binary@));
        Ok(v)
    }
}

impl Serialization<ConnectionResponse> for ConnectionResponse {
    /// An address that does not fit its type has no wire form: the result is
    /// then empty.
    fn serialize(self) -> (r: Vec<u8>)
        ensures
            addr_len_ok(self.atyp, self.bind_addr@.len()) ==> r@ == self.spec_bytes(),
            !addr_len_ok(self.atyp, self.bind_addr@.len()) ==> r@.len() == 0,
    {
        if !address_fits(self.atyp, &self.bind_addr) {
            return Vec::new();
        }
        serialize_addressed(
            self.ver,
            reply_to_byte(self.rep),
            self.rsv,
            self.atyp,
            &self.bind_addr,
            self.bind_port,
        )
    }

    fn deserialize(binary: Vec<u8>) -> (r: Result<ConnectionResponse, CodecError>)
        ensures
            match r {
                Ok(v) => reply_ok(binary@) && v.wf() && v.spec_bytes() == with_zero_rsv(binary@),
                Err(e) => !reply_ok(binary@) && e == CodecError::MalformedReply,
            },
    {
        let atyp = match check_addressed_frame(&binary) {
            Some(t) => t,
            None => {
                return Err(CodecError::MalformedReply);
            },
        };
        let rep = match reply_from_byte(binary[1]) {
            Some(rep) => rep,
            None => {
                return Err(CodecError::MalformedReply);
            },
        };
        let (bind_addr, bind_port) = read_address_and_port(&binary, atyp);
        let v = ConnectionResponse { ver: binary[0], rep, rsv: 0, atyp, bind_addr, bind_port };
        assert(v.spec_bytes() =~= with_zero_rsv(binary@));
        Ok(v)
    }
}

/// Whether an address body fits its address type.
pub fn address_fits(atyp: AddressType, addr: &Vec<u8>) -> (r: bool)
    ensures
        r == addr_len_ok(atyp, addr@.len()),
{
    match atyp {
        AddressType::IPv4 => addr.len() == 4,
        AddressType::IPv6 => addr.len() == 16,
        AddressType::DNS => 1 <= addr.len() && addr.len() <= 255,
    }
}

/// Two valid addressed messages with the same bytes agree on every field
/// that the bytes carry.
proof fn lemma_addressed_injective(
    c1: u8,
    t1: AddressType,
    a1: Seq<u8>,
    p1: u16,
    c2: u8,
    t2: AddressType,
    a2: Seq<u8>,
    p2: u16,
)
    requires
        addr_len_ok(t1, a1.len()),
        addr_len_ok(t2, a2.len()),
        addressed_bytes(5, c1, 0, t1, a1, p1) == addressed_bytes(5, c2, 0, t2, a2, p2),
    ensures
        c1 == c2,
        t1 == t2,
        a1 == a2,
        p1 == p2,
{
    let b = addressed_bytes(5, c1, 0, t1, a1, p1);
    let b2 = addressed_bytes(5, c2, 0, t2, a2, p2);
    assert(b[1] == c1 && b2[1] == c2);
    assert(b[3] == atyp_code(t1) && b2[3] == atyp_code(t2));
    let off: int = if t1 == AddressType::DNS { 5 } else { 4 };
    if t1 == AddressType::DNS {
        assert(b[4] == a1.len() as u8);
        assert(b2[4] == a2.len() as u8);
    }
    assert(a1.len() == a2.len());
    assert forall|i: int| 0 <= i < a1.len() implies a1[i] == a2[i] by {
        assert(b[off + i] == a1[i]);
        assert(b2[off + i] == a2[i]);
    }
    assert(a1 =~= a2);
    let n = b.len() as int;
    assert(b[n - 2] == (p1 / 256) as u8 && b[n - 1] == (p1 % 256) as u8);
    assert(b2[n - 2] == (p2 / 256) as u8 && b2[n - 1] == (p2 % 256) as u8);
}

/// Bytes of a valid addressed message pass the frame check.
pub proof fn lemma_addressed_frame(c: u8, t: AddressType, a: Seq<u8>, p: u16)
    requires
        addr_len_ok(t, a.len()),
    ensures
        addressed_frame_ok(addressed_bytes(5, c, 0, t, a, p)),
        with_zero_rsv(addressed_bytes(5, c, 0, t, a, p)) == addressed_bytes(5, c, 0, t, a, p),
{
    let b = addressed_bytes(5, c, 0, t, a, p);
    assert(b[3] == atyp_code(t));
    if t == AddressType::DNS {
        assert(b[4] == a.len() as u8);
    }
    assert(with_zero_rsv(b) =~= b);
}

/// Round trip of the request: the bytes of a valid request are accepted
/// unchanged, and the only valid request with those bytes is the one they came
/// from. With the contract of `deserialize`, `deserialize(serialize(x))` is
/// `Ok` of a request equal to `x` field by field.
pub proof fn lemma_request_round_trip(x: ConnectionRequest, y: ConnectionRequest)
    requires
        x.wf(),
    ensures
        request_ok(x.spec_bytes()),
        with_zero_rsv(x.spec_bytes()) == x.spec_bytes(),
        y.wf() && y.spec_bytes() == x.spec_bytes() ==> y.ver == x.ver && y.cmd == x.cmd && y.rsv
            == x.rsv && y.atyp == x.atyp && y.dst_addr@ == x.dst_addr@ && y.dst_port == x.dst_port,
{
    lemma_addressed_frame(cmd_code(x.cmd), x.atyp, x.dst_addr@, x.dst_port);
    if y.wf() && y.spec_bytes() == x.spec_bytes() {
        lemma_addressed_injective(
            cmd_code(y.cmd),
            y.atyp,
            y.dst_addr@,
            y.dst_port,
            cmd_code(x.cmd),
            x.atyp,
            x.dst_addr@,
            x.dst_port,
        );
        lemma_cmd_code_injective(y.cmd, x.cmd);
    }
}

/// Round trip of the reply, in the same form as for the request.
pub proof fn lemma_reply_round_trip(x: ConnectionResponse, y: ConnectionResponse)
    requires
        x.wf(),
    ensures
        reply_ok(x.spec_bytes()),
        with_zero_rsv(x.spec_bytes()) == x.spec_bytes(),
        y.wf() && y.spec_bytes() == x.spec_bytes() ==> y.ver == x.ver && y.rep == x.rep && y.rsv
            == x.rsv && y.atyp == x.atyp && y.bind_addr@ == x.bind_addr@ && y.bind_port
            == x.bind_port,
{
    lemma_addressed_frame(reply_code(x.rep), x.atyp, x.bind_addr@, x.bind_port);
    assert(x.spec_bytes()[1] == reply_code(x.rep));
    if y.wf() && y.spec_bytes() == x.spec_bytes() {
        lemma_addressed_injective(
            reply_code(y.rep),
            y.atyp,
            y.bind_addr@,
            y.bind_port,
            reply_code(x.rep),
            x.atyp,
            x.bind_addr@,
            x.bind_port,
        );
    }
}

/// A valid request to a domain of `n` bytes is `7 + n` bytes long, and its
/// fifth byte is `n`.
pub proof fn lemma_domain_request_length(x: ConnectionRequest)
    requires
        x.wf(),
        x.atyp == AddressType::DNS,
    ensures
        x.spec_bytes()[4] as nat == x.dst_addr@.len(),
        x.spec_bytes().len() == 7 + x.spec_bytes()[4] as nat,
{
    assert(x.spec_bytes()[4] == x.dst_addr@.len() as u8);
}

} // verus!
