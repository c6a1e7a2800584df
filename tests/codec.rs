use socks5::{
    AddressType, Authentication, AuthenticationRequest, AuthenticationResponse,
    AuthenticationType, CodecError, ConnectionRequest, ConnectionResponse, ConnectionType, Reply,
    Serialization,
};
use socks5::{
    extract_address_from_bytes_arr, extract_atyp_from_byte, extract_auth_type_from_byte,
    extract_auth_u8_from_auth_type, extract_port_from_bytes_arr,
};

fn get_example_authentication_request() -> AuthenticationRequest {
    AuthenticationRequest {
        ver: 0x05,
        nauth: 0x01,
        auth: vec![Authentication::Assigned(AuthenticationType::NoAuthentication)],
    }
}

fn get_example_authentication_request_serialized() -> Vec<u8> {
    vec![0x05, 0x01, 0x00]
}

fn get_example_authentication_response() -> AuthenticationResponse {
    AuthenticationResponse {
        ver: 0x05,
        cauth: Authentication::Assigned(AuthenticationType::NoAuthentication),
    }
}

fn get_example_authentication_response_serialized() -> Vec<u8> {
    vec![0x05, 0x00]
}

fn get_example_connection_request() -> ConnectionRequest {
    ConnectionRequest {
        ver: 0x05,
        cmd: ConnectionType::Connect,
        rsv: 0x00,
        atyp: AddressType::IPv4,
        dst_addr: vec![127, 0, 0, 1],
        dst_port: 1337,
    }
}

fn get_example_connection_response() -> ConnectionResponse {
    ConnectionResponse {
        ver: 0x05,
        rep: Reply::Succeeded,
        rsv: 0x00,
        atyp: AddressType::IPv4,
        bind_addr: vec![127, 0, 0, 1],
        bind_port: 1337,
    }
}

fn get_example_connection_request_serialized() -> Vec<u8> {
    vec![0x05, 0x01, 0x00, 0x01, 0x7F, 0x00, 0x00, 0x01, 0x05, 0x39]
}

fn get_example_connection_response_serialized() -> Vec<u8> {
    vec![0x05, 0x00, 0x00, 0x01, 0x7F, 0x00, 0x00, 0x01, 0x05, 0x39]
}

#[test]
fn test_auth_request_serialize() {
    let auth_request_obj = get_example_authentication_request();
    let auth_request_serialized = get_example_authentication_request_serialized();

    assert_eq!(auth_request_obj.serialize(), auth_request_serialized)
}

#[test]
fn test_auth_request_deserialize() {
    let auth_request_binary = get_example_authentication_request_serialized();
    let auth_request_obj = AuthenticationRequest::deserialize(auth_request_binary).unwrap();

    assert_eq!(auth_request_obj, get_example_authentication_request())
}

#[test]
fn test_auth_response_deserialize() {
    let auth_response_vec: Vec<u8> = get_example_authentication_response_serialized();
    let auth_response_obj: AuthenticationResponse =
        AuthenticationResponse::deserialize(auth_response_vec).unwrap();

    assert_eq!(auth_response_obj, get_example_authentication_response())
}

#[test]
fn test_auth_response_serialize() {
    let auth_response_obj = get_example_authentication_response();

    assert_eq!(
        auth_response_obj.serialize(),
        get_example_authentication_response_serialized()
    )
}

#[test]
fn test_connection_request_serialize() {
    assert_eq!(
        get_example_connection_request().serialize(),
        get_example_connection_request_serialized()
    )
}

#[test]
fn test_connection_request_deserialize() {
    let connection_request_obj =
        ConnectionRequest::deserialize(get_example_connection_request_serialized()).unwrap();

    assert_eq!(connection_request_obj, get_example_connection_request())
}

#[test]
fn test_connection_response_serialize() {
    assert_eq!(
        get_example_connection_response().serialize(),
        get_example_connection_response_serialized()
    )
}

#[test]
fn test_connection_response_deserialize() {
    let connection_response_obj =
        ConnectionResponse::deserialize(get_example_connection_response_serialized()).unwrap();

    assert_eq!(connection_response_obj, get_example_connection_response())
}

#[test]
fn greeting_rejects_wrong_version() {
    assert_eq!(
        AuthenticationRequest::deserialize(vec![0x04, 0x01, 0x00]),
        Err(CodecError::MalformedGreeting)
    );
}

#[test]
fn greeting_rejects_count_mismatch_and_short_input() {
    assert_eq!(
        AuthenticationRequest::deserialize(vec![0x05, 0x02, 0x00]),
        Err(CodecError::MalformedGreeting)
    );
    assert_eq!(
        AuthenticationRequest::deserialize(vec![0x05, 0x01, 0x00, 0x02]),
        Err(CodecError::MalformedGreeting)
    );
    assert_eq!(
        AuthenticationRequest::deserialize(vec![0x05, 0x00]),
        Err(CodecError::MalformedGreeting)
    );
    assert_eq!(
        AuthenticationRequest::deserialize(vec![0x05, 0x01, 0xFF]),
        Err(CodecError::MalformedGreeting)
    );
}

#[test]
fn greeting_round_trip_keeps_private_codes() {
    let g = AuthenticationRequest::new(vec![
        Authentication::Assigned(AuthenticationType::UsernamePassword),
        Authentication::Custom(0x80),
        Authentication::Custom(0xFE),
        Authentication::Assigned(AuthenticationType::JsonParameterBlock),
    ]);
    let bytes = g.clone().serialize();
    assert_eq!(bytes, vec![0x05, 0x04, 0x02, 0x80, 0xFE, 0x09]);
    assert_eq!(AuthenticationRequest::deserialize(bytes).unwrap(), g);
}

#[test]
fn selection_round_trip_and_refusal() {
    let refusal = AuthenticationResponse::new(Authentication::NoAcceptable);
    let bytes = refusal.clone().serialize();
    assert_eq!(bytes, vec![0x05, 0xFF]);
    assert_eq!(AuthenticationResponse::deserialize(bytes).unwrap(), refusal);
    assert_eq!(
        AuthenticationResponse::deserialize(vec![0x05]),
        Err(CodecError::MalformedMethodSelection)
    );
    assert_eq!(
        AuthenticationResponse::deserialize(vec![0x04, 0x00]),
        Err(CodecError::MalformedMethodSelection)
    );
}

fn domain_request(name: &[u8], port: u16) -> ConnectionRequest {
    ConnectionRequest {
        ver: 0x05,
        cmd: ConnectionType::Connect,
        rsv: 0x00,
        atyp: AddressType::DNS,
        dst_addr: name.to_vec(),
        dst_port: port,
    }
}

#[test]
fn domain_request_length_is_seven_plus_name() {
    let req = domain_request(b"no.such.host", 80);
    let bytes = req.clone().serialize();
    assert_eq!(bytes.len(), 7 + 12);
    assert_eq!(bytes[4], 12);
    assert_eq!(&bytes[5..17], b"no.such.host");
    assert_eq!(&bytes[17..], &[0x00, 0x50]);
    assert_eq!(ConnectionRequest::deserialize(bytes).unwrap(), req);
}

#[test]
fn ipv6_request_round_trip() {
    let req = ConnectionRequest {
        ver: 0x05,
        cmd: ConnectionType::UdpAssociate,
        rsv: 0x00,
        atyp: AddressType::IPv6,
        dst_addr: (1u8..=16).collect(),
        dst_port: 0xABCD,
    };
    let bytes = req.clone().serialize();
    assert_eq!(bytes.len(), 22);
    assert_eq!(bytes[1], 0x03);
    assert_eq!(bytes[3], 0x04);
    assert_eq!(&bytes[20..], &[0xAB, 0xCD]);
    assert_eq!(ConnectionRequest::deserialize(bytes).unwrap(), req);
}

#[test]
fn request_keeps_unknown_command_and_ignores_reserved_byte() {
    let parsed =
        ConnectionRequest::deserialize(vec![0x05, 0x09, 0x7A, 0x01, 10, 0, 0, 1, 0x00, 0x16])
            .unwrap();
    assert_eq!(parsed.cmd, ConnectionType::Other(0x09));
    assert_eq!(parsed.rsv, 0x00);
    assert_eq!(
        parsed.serialize(),
        vec![0x05, 0x09, 0x00, 0x01, 10, 0, 0, 1, 0x00, 0x16]
    );
}

#[test]
fn request_rejects_malformed_frames() {
    let cases: Vec<Vec<u8>> = vec![
        vec![0x04, 0x01, 0x00, 0x01, 127, 0, 0, 1, 0x05, 0x39],
        vec![0x05, 0x01, 0x00, 0x02, 127, 0, 0, 1, 0x05, 0x39],
        vec![0x05, 0x01, 0x00, 0x01, 127, 0, 0, 1, 0x05],
        vec![0x05, 0x01, 0x00, 0x01, 127, 0, 0, 1, 0x05, 0x39, 0x00],
        vec![0x05, 0x01, 0x00, 0x03, 0x05, 0x68, 0x65],
        vec![0x05, 0x01, 0x00, 0x03, 0x00, 0x00, 0x50],
        vec![],
    ];
    for c in cases {
        assert_eq!(ConnectionRequest::deserialize(c), Err(CodecError::MalformedRequest));
    }
}

#[test]
fn reply_round_trip_and_unknown_status() {
    let rep = ConnectionResponse::new(Reply::TTLExpired, AddressType::DNS, b"host".to_vec(), 443);
    let bytes = rep.clone().serialize();
    assert_eq!(bytes, vec![0x05, 0x06, 0x00, 0x03, 4, b'h', b'o', b's', b't', 0x01, 0xBB]);
    assert_eq!(ConnectionResponse::deserialize(bytes).unwrap(), rep);
    assert_eq!(
        ConnectionResponse::deserialize(vec![0x05, 0x09, 0x00, 0x01, 0, 0, 0, 0, 0, 0]),
        Err(CodecError::MalformedReply)
    );
}

#[test]
fn serialize_is_empty_for_address_of_wrong_length() {
    let mut req = get_example_connection_request();
    req.dst_addr = vec![1, 2, 3];
    assert_eq!(req.serialize(), Vec::<u8>::new());
}

#[test]
fn helpers_decode_bytes() {
    assert_eq!(extract_port_from_bytes_arr(&[0x05, 0x39]), 1337);
    assert_eq!(extract_address_from_bytes_arr(&[3, b'a', b'b', b'c'], &AddressType::DNS), b"abc".to_vec());
    assert_eq!(extract_address_from_bytes_arr(&[1, 2, 3, 4], &AddressType::IPv4), vec![1, 2, 3, 4]);
    assert_eq!(extract_atyp_from_byte(&0x03), Some(AddressType::DNS));
    assert_eq!(extract_atyp_from_byte(&0x04), Some(AddressType::IPv6));
    assert_eq!(extract_atyp_from_byte(&0x02), None);
    assert_eq!(extract_auth_type_from_byte(0x02), Authentication::Assigned(AuthenticationType::UsernamePassword));
    assert_eq!(extract_auth_type_from_byte(0x04), Authentication::Custom(0x04));
    assert_eq!(extract_auth_type_from_byte(0x85), Authentication::Custom(0x85));
    assert_eq!(extract_auth_type_from_byte(0xFF), Authentication::NoAcceptable);
    assert_eq!(extract_auth_u8_from_auth_type(Authentication::Assigned(AuthenticationType::SecureSocketsLayer)), Some(0x06));
    assert_eq!(extract_auth_u8_from_auth_type(Authentication::Custom(0x99)), Some(0x99));
    for b in 0u8..=255 {
        assert_eq!(extract_auth_u8_from_auth_type(extract_auth_type_from_byte(b)), Some(b));
    }
}

#[test]
fn codec_results_depend_on_bytes_alone() {
    let bytes = get_example_connection_request_serialized();
    let first = ConnectionRequest::deserialize(bytes.clone()).unwrap();
    let second = ConnectionRequest::deserialize(bytes.clone()).unwrap();
    assert_eq!(first, second);
    assert_eq!(bytes, get_example_connection_request_serialized());
    assert_eq!(first.clone().serialize(), second.serialize());
    assert_eq!(first.serialize(), bytes);
}
