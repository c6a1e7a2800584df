//! The greeting a client opens with, and the server's method selection.
use crate::constants::{
    auth_code, auth_offerable, auth_wf, lemma_auth_code_injective, Authentication,
    NO_ACCEPTABLE_METHODS, SOCKS_VERSION,
};
use crate::protocol::{
    extract_auth_type_from_byte, extract_auth_u8_from_auth_type, CodecError, Serialization,
};
use vstd::prelude::*;

verus! {

/// The client's greeting: `VER | NMETHODS | METHODS`.
#[derive(Clone, Debug, PartialEq)]
pub struct AuthenticationRequest {
    pub ver: u8,
    pub nauth: u8,
    pub auth: Vec<Authentication>,
}

/// The server's method selection: `VER | METHOD`, where METHOD 0xFF rejects
/// every offered method.
#[derive(Clone, Debug, PartialEq)]
pub struct AuthenticationResponse {
    pub ver: u8,
    pub cauth: Authentication,
}

pub open spec fn auth_codes(s: Seq<Authentication>) -> Seq<u8> {
    s.map_values(|a: Authentication| auth_code(a))
}

/// The bytes a greeting must have to be accepted: version 5, at least one
/// method, a count that matches the methods that follow, and no 0xFF among
/// them (that code is only meaningful from the server).
pub open spec fn greeting_ok(b: Seq<u8>) -> bool {
    &&& b.len() >= 3
    &&& b[0] == SOCKS_VERSION
    &&& b.len() == 2 + b[1] as nat
    &&& forall|i: int| 2 <= i < b.len() ==> b[i] != NO_ACCEPTABLE_METHODS
}

/// A method selection is exactly two bytes and starts with version 5.
pub open spec fn selection_ok(b: Seq<u8>) -> bool {
    b.len() == 2 && b[0] == SOCKS_VERSION
}

impl AuthenticationRequest {
    /// A structurally valid greeting.
    pub open spec fn wf(&self) -> bool {
        &&& self.ver == SOCKS_VERSION
        &&& self.auth@.len() >= 1
        &&& self.nauth as nat == self.auth@.len()
        &&& forall|i: int| 0 <= i < self.auth@.len() ==> auth_offerable(#[trigger] self.auth@[i])
    }

    pub open spec fn spec_bytes(&self) -> Seq<u8> {
        seq![self.ver, self.nauth] + auth_codes(self.auth@)
    }

    /// A greeting that offers `methods`.
    pub fn new(methods: Vec<Authentication>) -> (r: Self)
        requires
            1 <= methods@.len() <= 255,
        ensures
            r.ver == SOCKS_VERSION,
            r.nauth as nat == methods@.len(),
            r.auth@ == methods@,
    {
        let n = methods.len() as u8;
        AuthenticationRequest { ver: SOCKS_VERSION, nauth: n, auth: methods }
    }
}

impl AuthenticationResponse {
    pub open spec fn wf(&self) -> bool {
        self.ver == SOCKS_VERSION && auth_wf(self.cauth)
    }

    pub open spec fn spec_bytes(&self) -> Seq<u8> {
        seq![self.ver, auth_code(self.cauth)]
    }

    /// The selection of `cauth`.
    pub fn new(cauth: Authentication) -> (r: Self)
        ensures
            r.ver == SOCKS_VERSION,
            r.cauth == cauth,
    {
        AuthenticationResponse { ver: SOCKS_VERSION, cauth }
    }
}

impl Serialization<AuthenticationRequest> for AuthenticationRequest {
    fn serialize(self) -> (r: Vec<u8>)
        ensures
            r@ == self.spec_bytes(),
    {
        let mut out: Vec<u8> = Vec::new();
        out.push(self.ver);
        out.push(self.nauth);
        let mut i: usize = 0;
        while i < self.auth.len()
            invariant
                0 <= i <= self.auth@.len(),
                out@ == seq![self.ver, self.nauth] + auth_codes(self.auth@.subrange(0, i as int)),
            decreases self.auth@.len() - i,
        {
            let code = extract_auth_u8_from_auth_type(self.auth[i]);
            if let Some(c) = code {
                out.push(c);
            }
            i = i + 1;
            assert(auth_codes(self.auth@.subrange(0, i as int)) =~= auth_codes(
                self.auth@.subrange(0, i - 1),
            ).push(auth_code(self.auth@[i - 1])));
            assert(out@ =~= seq![self.ver, self.nauth] + auth_codes(
                self.auth@.subrange(0, i as int),
            ));
        }
        assert(self.auth@.subrange(0, self.auth@.len() as int) =~= self.auth@);
        out
    }

    fn deserialize(binary: Vec<u8>) -> (r: Result<AuthenticationRequest, CodecError>)
        ensures
            match r {
                Ok(v) => greeting_ok(binary@) && v.wf() && v.spec_bytes() == binary@,
                Err(e) => !greeting_ok(binary@) && e == CodecError::MalformedGreeting,
            },
    {
        let n = binary.len();
        if n < 3 || binary[0] != SOCKS_VERSION || n != 2 + binary[1] as usize {
            return Err(CodecError::MalformedGreeting);
        }
        let mut auth: Vec<Authentication> = Vec::new();
        let mut i: usize = 2;
        while i < n
            invariant
                n == binary@.len(),
                2 <= i <= n,
                auth@.len() == i - 2,
                forall|j: int| 0 <= j < auth@.len() ==> auth_offerable(#[trigger] auth@[j]),
                auth_codes(auth@) == binary@.subrange(2, i as int),
                forall|j: int| 2 <= j < i ==> binary@[j] != NO_ACCEPTABLE_METHODS,
            decreases n - i,
        {
            if binary[i] == NO_ACCEPTABLE_METHODS {
                return Err(CodecError::MalformedGreeting);
            }
            let a = extract_auth_type_from_byte(binary[i]);
            let ghost prev = auth@;
            auth.push(a);
            i = i + 1;
            assert(auth_codes(auth@) =~= auth_codes(prev).push(auth_code(a)));
            assert(auth_codes(auth@) =~= binary@.subrange(2, i as int));
        }
        let v = AuthenticationRequest { ver: binary[0], nauth: binary[1], auth };
        assert(v.spec_bytes() =~= binary@);
        Ok(v)
    }
}

impl Serialization<AuthenticationResponse> for AuthenticationResponse {
    fn serialize(self) -> (r: Vec<u8>)
        ensures
            r@ == self.spec_bytes(),
    {
        let mut out: Vec<u8> = Vec::new();
        out.push(self.ver);
        if let Some(c) = extract_auth_u8_from_auth_type(self.cauth) {
            out.push(c);
        }
        assert(out@ =~= self.spec_bytes());
        out
    }

    fn deserialize(binary: Vec<u8>) -> (r: Result<AuthenticationResponse, CodecError>)
        ensures
            match r {
                Ok(v) => selection_ok(binary@) && v.wf() && v.spec_bytes() == binary@,
                Err(e) => !selection_ok(binary@) && e == CodecError::MalformedMethodSelection,
            },
    {
        if binary.len() != 2 || binary[0] != SOCKS_VERSION {
            return Err(CodecError::MalformedMethodSelection);
        }
        let v = AuthenticationResponse { ver: binary[0], cauth: extract_auth_type_from_byte(binary[1]) };
        assert(v.spec_bytes() =~= binary@);
        Ok(v)
    }
}

/// Round trip of the greeting: the bytes of a valid greeting are accepted, and
/// the only valid greeting with those bytes is the one they came from. With the
/// contract of `deserialize`, `deserialize(serialize(x))` is `Ok` of a greeting
/// equal to `x` field by field.
pub proof fn lemma_greeting_round_trip(x: AuthenticationRequest, y: AuthenticationRequest)
    requires
        x.wf(),
    ensures
        greeting_ok(x.spec_bytes()),
        y.wf() && y.spec_bytes() == x.spec_bytes() ==> y.ver == x.ver && y.nauth == x.nauth
            && y.auth@ == x.auth@,
{
    let b = x.spec_bytes();
    assert forall|i: int| 2 <= i < b.len() implies b[i] != NO_ACCEPTABLE_METHODS by {
        assert(b[i] == auth_code(x.auth@[i - 2]));
        assert(auth_offerable(x.auth@[i - 2]));
    }
    if y.wf() && y.spec_bytes() == b {
        assert(y.auth@.len() == x.auth@.len()) by {
            assert(b.len() == 2 + x.auth@.len());
            assert(y.spec_bytes().len() == 2 + y.auth@.len());
        }
        assert forall|i: int| 0 <= i < x.auth@.len() implies y.auth@[i] == x.auth@[i] by {
            assert(y.spec_bytes()[i + 2] == auth_code(y.auth@[i]));
            assert(b[i + 2] == auth_code(x.auth@[i]));
            lemma_auth_code_injective(y.auth@[i], x.auth@[i]);
        }
        assert(y.auth@ =~= x.auth@);
        assert(y.spec_bytes()[0] == b[0]);
        assert(y.spec_bytes()[1] == b[1]);
    }
}

/// Round trip of the method selection, in the same form as for the greeting.
pub proof fn lemma_selection_round_trip(x: AuthenticationResponse, y: AuthenticationResponse)
    requires
        x.wf(),
    ensures
        selection_ok(x.spec_bytes()),
        y.wf() && y.spec_bytes() == x.spec_bytes() ==> y == x,
{
    if y.wf() && y.spec_bytes() == x.spec_bytes() {
        assert(y.spec_bytes()[1] == x.spec_bytes()[1]);
        lemma_auth_code_injective(y.cauth, x.cauth);
        assert(y.spec_bytes()[0] == x.spec_bytes()[0]);
    }
}

} // verus!
