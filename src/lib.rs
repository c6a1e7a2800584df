//! A SOCKS5 server core: the wire codec of the four negotiation messages and
//! the per-connection session state machine, with their contracts proved.
pub mod authentication;
pub mod connection;
pub mod constants;
pub mod protocol;
pub mod session;

pub use authentication::{AuthenticationRequest, AuthenticationResponse};
pub use connection::{ConnectionRequest, ConnectionResponse};
pub use constants::{
    AddressType, Authentication, AuthenticationType, ConnectionState, ConnectionType, Reply,
};
pub use protocol::{
    extract_address_from_bytes_arr, extract_atyp_from_byte, extract_auth_type_from_byte,
    extract_auth_u8_from_auth_type, extract_port_from_bytes_arr, CodecError, Serialization,
};
pub use session::{
    BoundAddress, ConnectionInstance, DialError, SessionAction, SessionEvent, SubprotocolOutcome,
};
