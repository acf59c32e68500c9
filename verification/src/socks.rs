//! Wire-value tagged enumerations of the SOCKS5 protocol.
//!
//! Every message of the protocol begins with the version byte 0x05. The
//! request command, the address type of a target address, the server reply
//! code and the authentication method are each one byte on the wire; the
//! mappings here are explicit in both directions, since the wire values are
//! not contiguous from zero.

use vstd::prelude::*;

verus! {

/// The SOCKS protocol version byte that opens every message.
pub const VERSION5: u8 = 0x05;

/// The reserved byte of command requests and replies.
pub const RESERVED: u8 = 0x00;

/// A request command.
#[derive(Clone, Copy, Debug, PartialEq, Eq, Structural)]
pub enum Command {
    Connect,
    Bind,
    UdpAssociate,
}

/// The wire byte of a command.
pub open spec fn command_byte(c: Command) -> u8 {
    match c {
        Command::Connect => 0x01,
        Command::Bind => 0x02,
        Command::UdpAssociate => 0x03,
    }
}

/// The command a wire byte names, if any.
pub open spec fn spec_command_from(byte: usize) -> Option<Command> {
    if byte == 0x01 {
        Some(Command::Connect)
    } else if byte == 0x02 {
        Some(Command::Bind)
    } else if byte == 0x03 {
        Some(Command::UdpAssociate)
    } else {
        None
    }
}

impl Command {
    /// Decodes a command byte; every byte other than the three commands is
    /// unrecognized and yields `None`.
    pub fn from(byte: usize) -> (r: Option<Command>)
        ensures
            r == spec_command_from(byte),
    {
        match byte {
            1 => Some(Command::Connect),
            2 => Some(Command::Bind),
            3 => Some(Command::UdpAssociate),
            _ => None,
        }
    }

    /// The wire byte of this command.
    pub fn byte(&self) -> (r: u8)
        ensures
            r == command_byte(*self),
    {
        match self {
            Command::Connect => 0x01,
            Command::Bind => 0x02,
            Command::UdpAssociate => 0x03,
        }
    }
}

/// The address type tag of a target address.
#[derive(Clone, Copy, Debug, PartialEq, Eq, Structural)]
pub enum AddrType {
    V4,
    Domain,
    V6,
}

/// The wire byte of an address type.
pub open spec fn addr_type_byte(t: AddrType) -> u8 {
    match t {
        AddrType::V4 => 0x01,
        AddrType::Domain => 0x03,
        AddrType::V6 => 0x04,
    }
}

/// The address type a wire byte names, if any.
pub open spec fn spec_addr_type_from(byte: usize) -> Option<AddrType> {
    if byte == 0x01 {
        Some(AddrType::V4)
    } else if byte == 0x03 {
        Some(AddrType::Domain)
    } else if byte == 0x04 {
        Some(AddrType::V6)
    } else {
        None
    }
}

impl AddrType {
    /// Decodes an address type byte; every byte other than the three forms is
    /// unrecognized and yields `None`.
    pub fn from(byte: usize) -> (r: Option<AddrType>)
        ensures
            r == spec_addr_type_from(byte),
    {
        match byte {
            1 => Some(AddrType::V4),
            3 => Some(AddrType::Domain),
            4 => Some(AddrType::V6),
            _ => None,
        }
    }

    /// The wire byte of this address type.
    pub fn byte(&self) -> (r: u8)
        ensures
            r == addr_type_byte(*self),
    {
        match self {
            AddrType::V4 => 0x01,
            AddrType::Domain => 0x03,
            AddrType::V6 => 0x04,
        }
    }
}

/// A server reply code.
#[derive(Clone, Copy, Debug, PartialEq, Eq, Structural)]
pub enum Response {
    Success,
    Failure,
    RuleFailure,
    NetworkUnreachable,
    HostUnreachable,
    ConnectionRefused,
    TtlExpired,
    CommandNotSupported,
    AddrTypeNotSupported,
}

/// The wire byte of a reply code.
pub open spec fn response_byte(r: Response) -> u8 {
    match r {
        Response::Success => 0x00,
        Response::Failure => 0x01,
        Response::RuleFailure => 0x02,
        Response::NetworkUnreachable => 0x03,
        Response::HostUnreachable => 0x04,
        Response::ConnectionRefused => 0x05,
        Response::TtlExpired => 0x06,
        Response::CommandNotSupported => 0x07,
        Response::AddrTypeNotSupported => 0x08,
    }
}

impl Response {
    /// The wire byte of this reply code.
    pub fn byte(&self) -> (r: u8)
        ensures
            r == response_byte(*self),
    {
        match self {
            Response::Success => 0x00,
            Response::Failure => 0x01,
            Response::RuleFailure => 0x02,
            Response::NetworkUnreachable => 0x03,
            Response::HostUnreachable => 0x04,
            Response::ConnectionRefused => 0x05,
            Response::TtlExpired => 0x06,
            Response::CommandNotSupported => 0x07,
            Response::AddrTypeNotSupported => 0x08,
        }
    }
}

/// An authentication method. `NoMethods` (0xFF) is never offered by a client;
/// it stands both for an unrecognized offered method and for the server's
/// "no acceptable method" answer.
#[derive(Clone, Copy, Debug, PartialEq, Eq, Structural)]
pub enum AuthMethod {
    NoAuth,
    UserPass,
    NoMethods,
}

/// The wire byte of an authentication method.
pub open spec fn auth_method_byte(m: AuthMethod) -> u8 {
    match m {
        AuthMethod::NoAuth => 0x00,
        AuthMethod::UserPass => 0x02,
        AuthMethod::NoMethods => 0xFF,
    }
}

/// The methods an offered-method byte list names, element by element.
pub open spec fn methods_of_bytes(bytes: Seq<u8>) -> Seq<AuthMethod> {
    bytes.map_values(|b: u8| spec_auth_method_from(b))
}

/// The method a wire byte names; bytes other than 0x00 and 0x02 name no
/// method the server supports and map to `NoMethods`.
pub open spec fn spec_auth_method_from(byte: u8) -> AuthMethod {
    if byte == 0x00 {
        AuthMethod::NoAuth
    } else if byte == 0x02 {
        AuthMethod::UserPass
    } else {
        AuthMethod::NoMethods
    }
}

impl AuthMethod {
    /// Decodes an offered method byte; unsupported methods map to `NoMethods`.
    pub fn from(byte: u8) -> (r: AuthMethod)
        ensures
            r == spec_auth_method_from(byte),
    {
        if byte == 0x00 {
            AuthMethod::NoAuth
        } else if byte == 0x02 {
            AuthMethod::UserPass
        } else {
            AuthMethod::NoMethods
        }
    }

    /// The wire byte of this method.
    pub fn byte(&self) -> (r: u8)
        ensures
            r == auth_method_byte(*self),
    {
        match self {
            AuthMethod::NoAuth => 0x00,
            AuthMethod::UserPass => 0x02,
            AuthMethod::NoMethods => 0xFF,
        }
    }

    /// Maps each offered method byte of a greeting to the method it names.
    pub fn get_available_methods(methods: &Vec<u8>) -> (r: Vec<AuthMethod>)
        ensures
            r@ == methods_of_bytes(methods@),
    {
        let mut out: Vec<AuthMethod> = Vec::new();
        let mut i: usize = 0;
        while i < methods.len()
            invariant
                i <= methods@.len(),
                out@ == methods_of_bytes(methods@.take(i as int)),
            decreases methods@.len() - i,
        {
            out.push(AuthMethod::from(methods[i]));
            i = i + 1;
            proof {
                assert(methods@.take(i as int) == methods@.take(i - 1).push(methods@[i - 1]));
            }
        }
        proof {
            assert(methods@.take(methods@.len() as int) == methods@);
        }
        out
    }
}

} // verus!
