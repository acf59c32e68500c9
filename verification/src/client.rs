//! The client role of the SOCKS5 protocol, spoken to an upstream proxy when
//! the engine runs in chained mode.
//!
//! The caller sends the built greeting, reads the 2-byte selection, runs the
//! username/password subnegotiation if selected, sends the CONNECT request
//! carrying the ultimate target, and checks the reply prefix; each check
//! here says exactly which answer lets the handshake proceed and which error
//! each mismatch raises. On success the caller hands the stream to the relay.

use vstd::prelude::*;
use crate::addr::{TargetAddr, TargetAddrView, spec_encode_addr};
use crate::socks::{RESERVED, VERSION5};

verus! {

/// Why a handshake with the upstream proxy fails.
#[derive(Clone, Copy, Debug, PartialEq, Eq, Structural)]
pub enum HandshakeError {
    /// The upstream answered with a version byte other than 0x05.
    InvalidVersion,
    /// The upstream selected username/password, but no credentials are
    /// configured.
    CredentialsRequired,
    /// The upstream refused the submitted credentials.
    WrongCredentials,
    /// The upstream selected a method this client does not speak.
    UnsupportedMethod,
    /// The upstream answered the CONNECT request with a failure code.
    ConnectRejected,
}

/// The greeting this client offers: no-auth alone, or username/password
/// first and no-auth second when upstream credentials are configured.
pub open spec fn spec_greeting(with_userpass: bool) -> Seq<u8> {
    if with_userpass {
        seq![VERSION5, 2u8, 2u8, 0u8]
    } else {
        seq![VERSION5, 1u8, 0u8]
    }
}

/// Builds the greeting to send to the upstream proxy.
pub fn build_greeting(with_userpass: bool) -> (r: Vec<u8>)
    ensures
        r@ == spec_greeting(with_userpass),
{
    let mut out: Vec<u8> = Vec::new();
    out.push(VERSION5);
    if with_userpass {
        out.push(2);
        out.push(2);
        out.push(0);
    } else {
        out.push(1);
        out.push(0);
    }
    proof {
        assert(out@ =~= spec_greeting(with_userpass));
    }
    out
}

/// What the upstream's method selection means for this client: proceed with
/// the subnegotiation (`Ok(true)`), proceed directly (`Ok(false)`), or fail.
pub open spec fn spec_check_selection(b0: u8, b1: u8, has_credentials: bool) -> Result<
    bool,
    HandshakeError,
> {
    if b0 != VERSION5 {
        Err(HandshakeError::InvalidVersion)
    } else if b1 == 2 {
        if has_credentials {
            Ok(true)
        } else {
            Err(HandshakeError::CredentialsRequired)
        }
    } else if b1 == 0 {
        Ok(false)
    } else {
        Err(HandshakeError::UnsupportedMethod)
    }
}

/// Checks the 2-byte method selection `[b0, b1]` the upstream answered the
/// greeting with. `Ok(true)` asks for the username/password subnegotiation.
pub fn check_method_selection(b0: u8, b1: u8, has_credentials: bool) -> (r: Result<
    bool,
    HandshakeError,
>)
    ensures
        r == spec_check_selection(b0, b1, has_credentials),
{
    if b0 != VERSION5 {
        Err(HandshakeError::InvalidVersion)
    } else if b1 == 2 {
        if has_credentials {
            Ok(true)
        } else {
            Err(HandshakeError::CredentialsRequired)
        }
    } else if b1 == 0 {
        Ok(false)
    } else {
        Err(HandshakeError::UnsupportedMethod)
    }
}

/// The username/password subnegotiation request: the version byte, the
/// length-prefixed username, then the length-prefixed password.
pub open spec fn spec_userpass_request(username: Seq<u8>, password: Seq<u8>) -> Seq<u8> {
    seq![VERSION5, username.len() as u8] + username + seq![password.len() as u8] + password
}

/// Builds the username/password subnegotiation request. Each credential is
/// carried behind a single length byte, so each holds at most 255 bytes.
pub fn build_userpass_request(username: &Vec<u8>, password: &Vec<u8>) -> (r: Vec<u8>)
    requires
        username@.len() <= 255,
        password@.len() <= 255,
    ensures
        r@ == spec_userpass_request(username@, password@),
{
    let mut out: Vec<u8> = Vec::new();
    out.push(VERSION5);
    out.push(username.len() as u8);
    crate::addr::push_bytes(&mut out, username);
    out.push(password.len() as u8);
    crate::addr::push_bytes(&mut out, password);
    proof {
        assert(out@ =~= spec_userpass_request(username@, password@));
    }
    out
}

/// What the upstream's subnegotiation status byte means: zero is success,
/// everything else refuses the credentials.
pub open spec fn spec_check_auth_reply(status: u8) -> Result<(), HandshakeError> {
    if status == 0 {
        Ok(())
    } else {
        Err(HandshakeError::WrongCredentials)
    }
}

/// Checks the status byte of the upstream's 2-byte subnegotiation reply.
pub fn check_auth_reply(status: u8) -> (r: Result<(), HandshakeError>)
    ensures
        r == spec_check_auth_reply(status),
{
    if status == 0 {
        Ok(())
    } else {
        Err(HandshakeError::WrongCredentials)
    }
}

/// The CONNECT request: version, the CONNECT command, the reserved byte,
/// then the encoded target address.
pub open spec fn spec_connect_request(target: TargetAddrView) -> Seq<u8> {
    seq![VERSION5, 1u8, RESERVED] + spec_encode_addr(target)
}

/// Builds the CONNECT request carrying the ultimate target address.
pub fn build_connect_request(target: &TargetAddr) -> (r: Vec<u8>)
    requires
        target.wf(),
    ensures
        r@ == spec_connect_request(target@),
{
    let mut out: Vec<u8> = Vec::new();
    out.push(VERSION5);
    out.push(1);
    out.push(RESERVED);
    proof {
        assert(spec_encode_addr(target@).len() <= 259);
    }
    target.encode_into(&mut out);
    proof {
        assert(out@ =~= spec_connect_request(target@));
    }
    out
}

/// What the first two bytes of the upstream's CONNECT reply mean: the
/// version must be 0x05 and the reply code must be success.
pub open spec fn spec_check_connect_reply(b0: u8, b1: u8) -> Result<(), HandshakeError> {
    if b0 != VERSION5 {
        Err(HandshakeError::InvalidVersion)
    } else if b1 != 0 {
        Err(HandshakeError::ConnectRejected)
    } else {
        Ok(())
    }
}

/// Checks the version and reply-code bytes of the upstream's CONNECT reply.
/// The bound address that follows is decoded by the address codec and
/// discarded by the caller.
pub fn check_connect_reply(b0: u8, b1: u8) -> (r: Result<(), HandshakeError>)
    ensures
        r == spec_check_connect_reply(b0, b1),
{
    if b0 != VERSION5 {
        Err(HandshakeError::InvalidVersion)
    } else if b1 != 0 {
        Err(HandshakeError::ConnectRejected)
    } else {
        Ok(())
    }
}

} // verus!
