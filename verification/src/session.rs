//! The server-side session state machine.
//!
//! A session is single-pass: greeting, method selection, an optional
//! username/password subnegotiation, the command request with its target
//! address, the connect attempt, the relay, and the close. The machine is a
//! pure step function: the caller performs each returned directive (read
//! exactly so many bytes, ask the credential validator, connect, relay) and
//! feeds the outcome back as the next event, writing the returned bytes to
//! the client first. Every protocol violation, credential failure, connect
//! failure or unsupported command leads to the terminal `Closed` state, from
//! which no further byte is ever sent.

use vstd::prelude::*;
use vstd::utf8::valid_utf8;
use crate::addr::{
    TargetAddr, TargetAddrView, copy_range, port_of, read_port, spec_decode_addr, utf8_valid,
    wf_addr,
};
use crate::auth::{select_method, spec_select_method};
use crate::socks::{
    AddrType, AuthMethod, Response, VERSION5, auth_method_byte, methods_of_bytes, response_byte,
};

verus! {

/// The engine's configuration for server sessions: whether connections
/// without authentication are permitted, and whether credentials are
/// required (selecting username/password whenever the client offers it).
#[derive(Clone, Copy, Debug, PartialEq, Eq, Structural)]
pub struct ServerConfig {
    pub allow_no_auth: bool,
    pub require_user_pass: bool,
}

/// How a connect attempt failed, classified by the caller from the I/O
/// error: resolution failure, refusal, network failure, or anything else.
#[derive(Clone, Copy, Debug, PartialEq, Eq, Structural)]
pub enum ConnectFailure {
    HostUnreachable,
    ConnectionRefused,
    NetworkUnreachable,
    Other,
}

/// The reply code a connect failure is answered with.
pub open spec fn spec_failure_response(f: ConnectFailure) -> Response {
    match f {
        ConnectFailure::HostUnreachable => Response::HostUnreachable,
        ConnectFailure::ConnectionRefused => Response::ConnectionRefused,
        ConnectFailure::NetworkUnreachable => Response::NetworkUnreachable,
        ConnectFailure::Other => Response::Failure,
    }
}

/// Maps a connect failure to its reply code.
pub fn failure_response(f: ConnectFailure) -> (r: Response)
    ensures
        r == spec_failure_response(f),
{
    match f {
        ConnectFailure::HostUnreachable => Response::HostUnreachable,
        ConnectFailure::ConnectionRefused => Response::ConnectionRefused,
        ConnectFailure::NetworkUnreachable => Response::NetworkUnreachable,
        ConnectFailure::Other => Response::Failure,
    }
}

/// The state of a server session. Each state waiting on bytes names the
/// exact count the previous step asked for.
#[derive(Debug, PartialEq, Eq)]
pub enum SessionState {
    /// Awaiting the 2-byte greeting header: version, method count.
    Greeting,
    /// Awaiting the `count` offered method bytes.
    ReadingMethods { count: u8 },
    /// Awaiting the 2-byte subnegotiation header: version, username length.
    AuthHeader,
    /// Awaiting the `ulen` username bytes.
    AuthUsername { ulen: u8 },
    /// Awaiting the 1-byte password length.
    AuthPasswordLen { username: Vec<u8> },
    /// Awaiting the `plen` password bytes.
    AuthPassword { username: Vec<u8>, plen: u8 },
    /// Awaiting the validator's verdict on the submitted credentials.
    AuthPending,
    /// Awaiting the 3-byte request header: version, command, reserved.
    RequestHeader,
    /// Awaiting the 1-byte address type of the request's target.
    RequestAddrType { cmd: u8 },
    /// Awaiting a fixed-width address payload and port: 6 bytes for IPv4,
    /// 18 for IPv6.
    RequestAddrFixed { cmd: u8, atyp: AddrType },
    /// Awaiting the 1-byte domain name length.
    RequestDomainLen { cmd: u8 },
    /// Awaiting the `dlen` name bytes and the 2-byte port.
    RequestDomainBody { cmd: u8, dlen: u8 },
    /// Awaiting the outcome of the connect attempt.
    Connecting,
    /// The relay is running; awaiting its end.
    Relaying,
    /// Terminal. Nothing further is read or sent.
    Closed,
}

/// The mathematical value of a session state.
#[verifier::ext_equal]
pub ghost enum StateV {
    Greeting,
    ReadingMethods { count: u8 },
    AuthHeader,
    AuthUsername { ulen: u8 },
    AuthPasswordLen { username: Seq<u8> },
    AuthPassword { username: Seq<u8>, plen: u8 },
    AuthPending,
    RequestHeader,
    RequestAddrType { cmd: u8 },
    RequestAddrFixed { cmd: u8, atyp: AddrType },
    RequestDomainLen { cmd: u8 },
    RequestDomainBody { cmd: u8, dlen: u8 },
    Connecting,
    Relaying,
    Closed,
}

impl View for SessionState {
    type V = StateV;

    open spec fn view(&self) -> StateV {
        match self {
            SessionState::Greeting => StateV::Greeting,
            SessionState::ReadingMethods { count } => StateV::ReadingMethods { count: *count },
            SessionState::AuthHeader => StateV::AuthHeader,
            SessionState::AuthUsername { ulen } => StateV::AuthUsername { ulen: *ulen },
            SessionState::AuthPasswordLen { username } => StateV::AuthPasswordLen {
                username: username@,
            },
            SessionState::AuthPassword { username, plen } => StateV::AuthPassword {
                username: username@,
                plen: *plen,
            },
            SessionState::AuthPending => StateV::AuthPending,
            SessionState::RequestHeader => StateV::RequestHeader,
            SessionState::RequestAddrType { cmd } => StateV::RequestAddrType { cmd: *cmd },
            SessionState::RequestAddrFixed { cmd, atyp } => StateV::RequestAddrFixed {
                cmd: *cmd,
                atyp: *atyp,
            },
            SessionState::RequestDomainLen { cmd } => StateV::RequestDomainLen { cmd: *cmd },
            SessionState::RequestDomainBody { cmd, dlen } => StateV::RequestDomainBody {
                cmd: *cmd,
                dlen: *dlen,
            },
            SessionState::Connecting => StateV::Connecting,
            SessionState::Relaying => StateV::Relaying,
            SessionState::Closed => StateV::Closed,
        }
    }
}

/// An event the caller feeds into the machine: the bytes of a completed
/// exact read, the validator's verdict, the connect outcome, or the end of
/// the relay.
#[derive(Debug, PartialEq, Eq)]
pub enum Event {
    Bytes(Vec<u8>),
    CredentialsChecked(bool),
    ConnectFinished(Result<(), ConnectFailure>),
    RelayEnded,
}

/// The mathematical value of an event.
#[verifier::ext_equal]
pub ghost enum EventV {
    Bytes(Seq<u8>),
    CredentialsChecked(bool),
    ConnectFinished(Result<(), ConnectFailure>),
    RelayEnded,
}

impl View for Event {
    type V = EventV;

    open spec fn view(&self) -> EventV {
        match self {
            Event::Bytes(b) => EventV::Bytes(b@),
            Event::CredentialsChecked(ok) => EventV::CredentialsChecked(*ok),
            Event::ConnectFinished(r) => EventV::ConnectFinished(*r),
            Event::RelayEnded => EventV::RelayEnded,
        }
    }
}

/// What the caller must do next.
#[derive(Debug, PartialEq, Eq)]
pub enum Directive {
    /// Read exactly this many bytes from the client, then feed them back as
    /// `Event::Bytes`; a short read is fatal and the session is dropped.
    ReadExact(usize),
    /// Ask the credential validator once, then feed the verdict back as
    /// `Event::CredentialsChecked`.
    CheckCredentials { username: Vec<u8>, password: Vec<u8> },
    /// Connect to the target (directly or through the upstream proxy), then
    /// feed the classified outcome back as `Event::ConnectFinished`.
    Connect { target: TargetAddr },
    /// Pump bytes both ways until either side finishes, then feed back
    /// `Event::RelayEnded`.
    Relay,
    /// Close the connection. Terminal.
    Close,
}

/// The mathematical value of a directive.
#[verifier::ext_equal]
pub ghost enum DirectiveV {
    ReadExact(int),
    CheckCredentials { username: Seq<u8>, password: Seq<u8> },
    Connect { target: TargetAddrView },
    Relay,
    Close,
}

impl View for Directive {
    type V = DirectiveV;

    open spec fn view(&self) -> DirectiveV {
        match self {
            Directive::ReadExact(n) => DirectiveV::ReadExact(*n as int),
            Directive::CheckCredentials { username, password } => DirectiveV::CheckCredentials {
                username: username@,
                password: password@,
            },
            Directive::Connect { target } => DirectiveV::Connect { target: target@ },
            Directive::Relay => DirectiveV::Relay,
            Directive::Close => DirectiveV::Close,
        }
    }
}

/// One step's outcome: the state to carry forward, the bytes to send to the
/// client before anything else, and what to do next.
#[derive(Debug, PartialEq, Eq)]
pub struct Step {
    pub state: SessionState,
    pub send: Vec<u8>,
    pub next: Directive,
}

/// The mathematical value of a step's outcome.
#[verifier::ext_equal]
pub ghost struct StepV {
    pub state: StateV,
    pub send: Seq<u8>,
    pub next: DirectiveV,
}

impl View for Step {
    type V = StepV;

    open spec fn view(&self) -> StepV {
        StepV { state: self.state@, send: self.send@, next: self.next@ }
    }
}

/// Closing silently: the step every violation and every event after the end
/// of a session resolves to.
pub open spec fn spec_close_silent() -> StepV {
    StepV { state: StateV::Closed, send: seq![], next: DirectiveV::Close }
}

/// The greeting response: version byte, then the selected method's byte.
pub open spec fn spec_method_reply(m: AuthMethod) -> Seq<u8> {
    seq![VERSION5, auth_method_byte(m)]
}

/// A command reply carrying `code` with a zeroed IPv4 bound address: the
/// shape of every failure reply.
pub open spec fn spec_reply(code: Response) -> Seq<u8> {
    seq![VERSION5, response_byte(code), 0u8, 1u8, 0u8, 0u8, 0u8, 0u8, 0u8, 0u8]
}

/// The success reply to a CONNECT: the bound address is the fixed
/// placeholder 127.0.0.1:0, not meaningful to the caller.
pub open spec fn spec_success_reply() -> Seq<u8> {
    seq![VERSION5, 0u8, 0u8, 1u8, 127u8, 0u8, 0u8, 1u8, 0u8, 0u8]
}

/// The subnegotiation reply when the validator accepts: subnegotiation
/// version 0x01, then success.
pub open spec fn spec_auth_success_reply() -> Seq<u8> {
    seq![1u8, 0u8]
}

/// The subnegotiation reply when the validator refuses: version byte, then
/// the failure code.
pub open spec fn spec_auth_failure_reply() -> Seq<u8> {
    seq![VERSION5, 1u8]
}

/// Routing of a complete request: CONNECT goes to the connector; BIND,
/// UDP ASSOCIATE and every unrecognized command byte are answered with the
/// fixed CommandNotSupported reply and the session closes.
pub open spec fn spec_dispatch(cmd: u8, target: TargetAddrView) -> StepV {
    if cmd == 0x01 {
        StepV { state: StateV::Connecting, send: seq![], next: DirectiveV::Connect { target } }
    } else {
        StepV {
            state: StateV::Closed,
            send: spec_reply(Response::CommandNotSupported),
            next: DirectiveV::Close,
        }
    }
}

/// The transition function of a server session. It is total: an event that
/// does not fit the state — the wrong kind, or a byte count other than the
/// one asked for — closes the session silently.
pub open spec fn spec_step(s: StateV, c: ServerConfig, e: EventV) -> StepV {
    match s {
        StateV::Greeting => match e {
            EventV::Bytes(b) => {
                if b.len() != 2 {
                    spec_close_silent()
                } else if b[0] != VERSION5 {
                    spec_close_silent()
                } else {
                    StepV {
                        state: StateV::ReadingMethods { count: b[1] },
                        send: seq![],
                        next: DirectiveV::ReadExact(b[1] as int),
                    }
                }
            },
            _ => spec_close_silent(),
        },
        StateV::ReadingMethods { count } => match e {
            EventV::Bytes(b) => {
                if b.len() != count {
                    spec_close_silent()
                } else {
                    let sel = spec_select_method(
                        methods_of_bytes(b),
                        c.allow_no_auth,
                        c.require_user_pass,
                    );
                    match sel {
                        AuthMethod::UserPass => StepV {
                            state: StateV::AuthHeader,
                            send: spec_method_reply(AuthMethod::UserPass),
                            next: DirectiveV::ReadExact(2),
                        },
                        AuthMethod::NoAuth => StepV {
                            state: StateV::RequestHeader,
                            send: spec_method_reply(AuthMethod::NoAuth),
                            next: DirectiveV::ReadExact(3),
                        },
                        AuthMethod::NoMethods => StepV {
                            state: StateV::Closed,
                            send: spec_method_reply(AuthMethod::NoMethods),
                            next: DirectiveV::Close,
                        },
                    }
                }
            },
            _ => spec_close_silent(),
        },
        StateV::AuthHeader => match e {
            EventV::Bytes(b) => {
                if b.len() != 2 {
                    spec_close_silent()
                } else {
                    StepV {
                        state: StateV::AuthUsername { ulen: b[1] },
                        send: seq![],
                        next: DirectiveV::ReadExact(b[1] as int),
                    }
                }
            },
            _ => spec_close_silent(),
        },
        StateV::AuthUsername { ulen } => match e {
            EventV::Bytes(b) => {
                if b.len() != ulen {
                    spec_close_silent()
                } else {
                    StepV {
                        state: StateV::AuthPasswordLen { username: b },
                        send: seq![],
                        next: DirectiveV::ReadExact(1),
                    }
                }
            },
            _ => spec_close_silent(),
        },
        StateV::AuthPasswordLen { username } => match e {
            EventV::Bytes(b) => {
                if b.len() != 1 {
                    spec_close_silent()
                } else {
                    StepV {
                        state: StateV::AuthPassword { username, plen: b[0] },
                        send: seq![],
                        next: DirectiveV::ReadExact(b[0] as int),
                    }
                }
            },
            _ => spec_close_silent(),
        },
        StateV::AuthPassword { username, plen } => match e {
            EventV::Bytes(b) => {
                if b.len() != plen {
                    spec_close_silent()
                } else {
                    StepV {
                        state: StateV::AuthPending,
                        send: seq![],
                        next: DirectiveV::CheckCredentials { username, password: b },
                    }
                }
            },
            _ => spec_close_silent(),
        },
        StateV::AuthPending => match e {
            EventV::CredentialsChecked(ok) => {
                if ok {
                    StepV {
                        state: StateV::RequestHeader,
                        send: spec_auth_success_reply(),
                        next: DirectiveV::ReadExact(3),
                    }
                } else {
                    StepV {
                        state: StateV::Closed,
                        send: spec_auth_failure_reply(),
                        next: DirectiveV::Close,
                    }
                }
            },
            _ => spec_close_silent(),
        },
        StateV::RequestHeader => match e {
            EventV::Bytes(b) => {
                if b.len() != 3 {
                    spec_close_silent()
                } else if b[0] != VERSION5 {
                    StepV {
                        state: StateV::Closed,
                        send: spec_reply(Response::Failure),
                        next: DirectiveV::Close,
                    }
                } else {
                    StepV {
                        state: StateV::RequestAddrType { cmd: b[1] },
                        send: seq![],
                        next: DirectiveV::ReadExact(1),
                    }
                }
            },
            _ => spec_close_silent(),
        },
        StateV::RequestAddrType { cmd } => match e {
            EventV::Bytes(b) => {
                if b.len() != 1 {
                    spec_close_silent()
                } else if b[0] == 1 {
                    StepV {
                        state: StateV::RequestAddrFixed { cmd, atyp: AddrType::V4 },
                        send: seq![],
                        next: DirectiveV::ReadExact(6),
                    }
                } else if b[0] == 4 {
                    StepV {
                        state: StateV::RequestAddrFixed { cmd, atyp: AddrType::V6 },
                        send: seq![],
                        next: DirectiveV::ReadExact(18),
                    }
                } else if b[0] == 3 {
                    StepV {
                        state: StateV::RequestDomainLen { cmd },
                        send: seq![],
                        next: DirectiveV::ReadExact(1),
                    }
                } else {
                    StepV {
                        state: StateV::Closed,
                        send: spec_reply(Response::AddrTypeNotSupported),
                        next: DirectiveV::Close,
                    }
                }
            },
            _ => spec_close_silent(),
        },
        StateV::RequestAddrFixed { cmd, atyp } => match e {
            EventV::Bytes(b) => {
                let width: int = if atyp is V4 {
                    4
                } else {
                    16
                };
                if b.len() != width + 2 {
                    spec_close_silent()
                } else {
                    let target = if atyp is V4 {
                        TargetAddrView::V4 {
                            octets: b.subrange(0, 4),
                            port: port_of(b[4], b[5]),
                        }
                    } else {
                        TargetAddrView::V6 {
                            octets: b.subrange(0, 16),
                            port: port_of(b[16], b[17]),
                        }
                    };
                    spec_dispatch(cmd, target)
                }
            },
            _ => spec_close_silent(),
        },
        StateV::RequestDomainLen { cmd } => match e {
            EventV::Bytes(b) => {
                if b.len() != 1 {
                    spec_close_silent()
                } else if b[0] == 0 {
                    StepV {
                        state: StateV::Closed,
                        send: spec_reply(Response::Failure),
                        next: DirectiveV::Close,
                    }
                } else {
                    StepV {
                        state: StateV::RequestDomainBody { cmd, dlen: b[0] },
                        send: seq![],
                        next: DirectiveV::ReadExact(b[0] + 2),
                    }
                }
            },
            _ => spec_close_silent(),
        },
        StateV::RequestDomainBody { cmd, dlen } => match e {
            EventV::Bytes(b) => {
                if b.len() != dlen + 2 {
                    spec_close_silent()
                } else if !valid_utf8(b.subrange(0, dlen as int)) {
                    StepV {
                        state: StateV::Closed,
                        send: spec_reply(Response::Failure),
                        next: DirectiveV::Close,
                    }
                } else {
                    spec_dispatch(
                        cmd,
                        TargetAddrView::Domain {
                            name: b.subrange(0, dlen as int),
                            port: port_of(b[dlen as int], b[dlen as int + 1]),
                        },
                    )
                }
            },
            _ => spec_close_silent(),
        },
        StateV::Connecting => match e {
            EventV::ConnectFinished(r) => match r {
                Ok(_) => StepV {
                    state: StateV::Relaying,
                    send: spec_success_reply(),
                    next: DirectiveV::Relay,
                },
                Err(f) => StepV {
                    state: StateV::Closed,
                    send: spec_reply(spec_failure_response(f)),
                    next: DirectiveV::Close,
                },
            },
            _ => spec_close_silent(),
        },
        StateV::Relaying => match e {
            EventV::RelayEnded => spec_close_silent(),
            _ => spec_close_silent(),
        },
        StateV::Closed => spec_close_silent(),
    }
}

/// States a session can actually be in: a domain body is only ever awaited
/// with a nonzero declared length, since a zero length byte closes the
/// session one step earlier.
pub open spec fn wf_state(s: StateV) -> bool {
    match s {
        StateV::RequestDomainBody { dlen, .. } => dlen != 0,
        _ => true,
    }
}

/// A fresh session: the greeting state, awaiting the 2-byte header.
pub fn start() -> (r: (SessionState, Directive))
    ensures
        r.0@ == StateV::Greeting,
        r.1@ == DirectiveV::ReadExact(2),
{
    (SessionState::Greeting, Directive::ReadExact(2))
}

/// Closing silently.
fn close_silent() -> (r: Step)
    ensures
        r@ == spec_close_silent(),
{
    let r = Step { state: SessionState::Closed, send: Vec::new(), next: Directive::Close };
    proof {
        assert(r@ =~~= spec_close_silent());
    }
    r
}

/// The bytes of a greeting response.
pub fn build_method_reply(m: AuthMethod) -> (r: Vec<u8>)
    ensures
        r@ == spec_method_reply(m),
{
    let mut out: Vec<u8> = Vec::new();
    out.push(VERSION5);
    out.push(m.byte());
    proof {
        assert(out@ =~= spec_method_reply(m));
    }
    out
}

/// The bytes of a command reply carrying `code` with a zeroed bound address.
pub fn build_reply(code: Response) -> (r: Vec<u8>)
    ensures
        r@ == spec_reply(code),
{
    let mut out: Vec<u8> = Vec::new();
    out.push(VERSION5);
    out.push(code.byte());
    out.push(0);
    out.push(1);
    out.push(0);
    out.push(0);
    out.push(0);
    out.push(0);
    out.push(0);
    out.push(0);
    proof {
        assert(out@ =~= spec_reply(code));
    }
    out
}

/// The bytes of the success reply to a CONNECT.
pub fn build_success_reply() -> (r: Vec<u8>)
    ensures
        r@ == spec_success_reply(),
{
    let mut out: Vec<u8> = Vec::new();
    out.push(VERSION5);
    out.push(0);
    out.push(0);
    out.push(1);
    out.push(127);
    out.push(0);
    out.push(0);
    out.push(1);
    out.push(0);
    out.push(0);
    proof {
        assert(out@ =~= spec_success_reply());
    }
    out
}

/// Routes a complete request by its command byte, per `spec_dispatch`.
pub fn dispatch(cmd: u8, target: TargetAddr) -> (r: Step)
    ensures
        r@ == spec_dispatch(cmd, target@),
{
    if cmd == 0x01 {
        let r = Step {
            state: SessionState::Connecting,
            send: Vec::new(),
            next: Directive::Connect { target },
        };
        proof {
            assert(r@ =~~= spec_dispatch(cmd, target@));
        }
        r
    } else {
        let r = Step {
            state: SessionState::Closed,
            send: build_reply(Response::CommandNotSupported),
            next: Directive::Close,
        };
        proof {
            assert(r@ =~~= spec_dispatch(cmd, target@));
        }
        r
    }
}

/// One step of a server session: from the current state and the event the
/// caller observed, the bytes to send, the state to carry forward, and the
/// next directive — exactly as `spec_step` states.
pub fn step(state: SessionState, config: &ServerConfig, event: Event) -> (r: Step)
    ensures
        r@ == spec_step(state@, *config, event@),
{
    let ghost s0 = state@;
    let ghost e0 = event@;
    match state {
        SessionState::Greeting => match event {
            Event::Bytes(b) => {
                if b.len() != 2 {
                    close_silent()
                } else if b[0] != VERSION5 {
                    close_silent()
                } else {
                    let n = b[1];
                    let r = Step {
                        state: SessionState::ReadingMethods { count: n },
                        send: Vec::new(),
                        next: Directive::ReadExact(n as usize),
                    };
                    proof {
                        assert(r@ =~~= spec_step(s0, *config, e0));
                    }
                    r
                }
            },
            _ => close_silent(),
        },
        SessionState::ReadingMethods { count } => match event {
            Event::Bytes(b) => {
                if b.len() != count as usize {
                    close_silent()
                } else {
                    let methods = AuthMethod::get_available_methods(&b);
                    let sel = select_method(
                        &methods,
                        config.allow_no_auth,
                        config.require_user_pass,
                    );
                    let r = match sel {
                        AuthMethod::UserPass => Step {
                            state: SessionState::AuthHeader,
                            send: build_method_reply(AuthMethod::UserPass),
                            next: Directive::ReadExact(2),
                        },
                        AuthMethod::NoAuth => Step {
                            state: SessionState::RequestHeader,
                            send: build_method_reply(AuthMethod::NoAuth),
                            next: Directive::ReadExact(3),
                        },
                        AuthMethod::NoMethods => Step {
                            state: SessionState::Closed,
                            send: build_method_reply(AuthMethod::NoMethods),
                            next: Directive::Close,
                        },
                    };
                    proof {
                        assert(r@ =~~= spec_step(s0, *config, e0));
                    }
                    r
                }
            },
            _ => close_silent(),
        },
        SessionState::AuthHeader => match event {
            Event::Bytes(b) => {
                if b.len() != 2 {
                    close_silent()
                } else {
                    let ulen = b[1];
                    let r = Step {
                        state: SessionState::AuthUsername { ulen },
                        send: Vec::new(),
                        next: Directive::ReadExact(ulen as usize),
                    };
                    proof {
                        assert(r@ =~~= spec_step(s0, *config, e0));
                    }
                    r
                }
            },
            _ => close_silent(),
        },
        SessionState::AuthUsername { ulen } => match event {
            Event::Bytes(b) => {
                if b.len() != ulen as usize {
                    close_silent()
                } else {
                    let r = Step {
                        state: SessionState::AuthPasswordLen { username: b },
                        send: Vec::new(),
                        next: Directive::ReadExact(1),
                    };
                    proof {
                        assert(r@ =~~= spec_step(s0, *config, e0));
                    }
                    r
                }
            },
            _ => close_silent(),
        },
        SessionState::AuthPasswordLen { username } => match event {
            Event::Bytes(b) => {
                if b.len() != 1 {
                    close_silent()
                } else {
                    let plen = b[0];
                    let r = Step {
                        state: SessionState::AuthPassword { username, plen },
                        send: Vec::new(),
                        next: Directive::ReadExact(plen as usize),
                    };
                    proof {
                        assert(r@ =~~= spec_step(s0, *config, e0));
                    }
                    r
                }
            },
            _ => close_silent(),
        },
        SessionState::AuthPassword { username, plen } => match event {
            Event::Bytes(b) => {
                if b.len() != plen as usize {
                    close_silent()
                } else {
                    let r = Step {
                        state: SessionState::AuthPending,
                        send: Vec::new(),
                        next: Directive::CheckCredentials { username, password: b },
                    };
                    proof {
                        assert(r@ =~~= spec_step(s0, *config, e0));
                    }
                    r
                }
            },
            _ => close_silent(),
        },
        SessionState::AuthPending => match event {
            Event::CredentialsChecked(ok) => {
                if ok {
                    let mut send: Vec<u8> = Vec::new();
                    send.push(1);
                    send.push(0);
                    let r = Step {
                        state: SessionState::RequestHeader,
                        send,
                        next: Directive::ReadExact(3),
                    };
                    proof {
                        assert(r@.send =~= spec_auth_success_reply());
                        assert(r@ =~~= spec_step(s0, *config, e0));
                    }
                    r
                } else {
                    let mut send: Vec<u8> = Vec::new();
                    send.push(VERSION5);
                    send.push(1);
                    let r = Step {
                        state: SessionState::Closed,
                        send,
                        next: Directive::Close,
                    };
                    proof {
                        assert(r@.send =~= spec_auth_failure_reply());
                        assert(r@ =~~= spec_step(s0, *config, e0));
                    }
                    r
                }
            },
            _ => close_silent(),
        },
        SessionState::RequestHeader => match event {
            Event::Bytes(b) => {
                if b.len() != 3 {
                    close_silent()
                } else if b[0] != VERSION5 {
                    let r = Step {
                        state: SessionState::Closed,
                        send: build_reply(Response::Failure),
                        next: Directive::Close,
                    };
                    proof {
                        assert(r@ =~~= spec_step(s0, *config, e0));
                    }
                    r
                } else {
                    let cmd = b[1];
                    let r = Step {
                        state: SessionState::RequestAddrType { cmd },
                        send: Vec::new(),
                        next: Directive::ReadExact(1),
                    };
                    proof {
                        assert(r@ =~~= spec_step(s0, *config, e0));
                    }
                    r
                }
            },
            _ => close_silent(),
        },
        SessionState::RequestAddrType { cmd } => match event {
            Event::Bytes(b) => {
                if b.len() != 1 {
                    close_silent()
                } else {
                    let r = if b[0] == 1 {
                        Step {
                            state: SessionState::RequestAddrFixed { cmd, atyp: AddrType::V4 },
                            send: Vec::new(),
                            next: Directive::ReadExact(6),
                        }
                    } else if b[0] == 4 {
                        Step {
                            state: SessionState::RequestAddrFixed { cmd, atyp: AddrType::V6 },
                            send: Vec::new(),
                            next: Directive::ReadExact(18),
                        }
                    } else if b[0] == 3 {
                        Step {
                            state: SessionState::RequestDomainLen { cmd },
                            send: Vec::new(),
                            next: Directive::ReadExact(1),
                        }
                    } else {
                        Step {
                            state: SessionState::Closed,
                            send: build_reply(Response::AddrTypeNotSupported),
                            next: Directive::Close,
                        }
                    };
                    proof {
                        assert(r@ =~~= spec_step(s0, *config, e0));
                    }
                    r
                }
            },
            _ => close_silent(),
        },
        SessionState::RequestAddrFixed { cmd, atyp } => match event {
            Event::Bytes(b) => {
                let width: usize = match atyp {
                    AddrType::V4 => 4,
                    _ => 16,
                };
                if b.len() != width + 2 {
                    close_silent()
                } else {
                    let octets = copy_range(&b, 0, width);
                    let port = read_port(&b, width);
                    let target = match atyp {
                        AddrType::V4 => TargetAddr::V4 { octets, port },
                        _ => TargetAddr::V6 { octets, port },
                    };
                    let r = dispatch(cmd, target);
                    proof {
                        assert(r@ =~~= spec_step(s0, *config, e0));
                    }
                    r
                }
            },
            _ => close_silent(),
        },
        SessionState::RequestDomainLen { cmd } => match event {
            Event::Bytes(b) => {
                if b.len() != 1 {
                    close_silent()
                } else if b[0] == 0 {
                    let r = Step {
                        state: SessionState::Closed,
                        send: build_reply(Response::Failure),
                        next: Directive::Close,
                    };
                    proof {
                        assert(r@ =~~= spec_step(s0, *config, e0));
                    }
                    r
                } else {
                    let dlen = b[0];
                    let r = Step {
                        state: SessionState::RequestDomainBody { cmd, dlen },
                        send: Vec::new(),
                        next: Directive::ReadExact(dlen as usize + 2),
                    };
                    proof {
                        assert(r@ =~~= spec_step(s0, *config, e0));
                    }
                    r
                }
            },
            _ => close_silent(),
        },
        SessionState::RequestDomainBody { cmd, dlen } => match event {
            Event::Bytes(b) => {
                let dl = dlen as usize;
                if b.len() != dl + 2 {
                    close_silent()
                } else {
                    let name = copy_range(&b, 0, dl);
                    if !utf8_valid(&name) {
                        let r = Step {
                            state: SessionState::Closed,
                            send: build_reply(Response::Failure),
                            next: Directive::Close,
                        };
                        proof {
                            assert(r@ =~~= spec_step(s0, *config, e0));
                        }
                        r
                    } else {
                        let port = read_port(&b, dl);
                        let r = dispatch(cmd, TargetAddr::Domain { name, port });
                        proof {
                            assert(r@ =~~= spec_step(s0, *config, e0));
                        }
                        r
                    }
                }
            },
            _ => close_silent(),
        },
        SessionState::Connecting => match event {
            Event::ConnectFinished(res) => match res {
                Ok(_) => {
                    let r = Step {
                        state: SessionState::Relaying,
                        send: build_success_reply(),
                        next: Directive::Relay,
                    };
                    proof {
                        assert(r@ =~~= spec_step(s0, *config, e0));
                    }
                    r
                },
                Err(f) => {
                    let r = Step {
                        state: SessionState::Closed,
                        send: build_reply(failure_response(f)),
                        next: Directive::Close,
                    };
                    proof {
                        assert(r@ =~~= spec_step(s0, *config, e0));
                    }
                    r
                },
            },
            _ => close_silent(),
        },
        SessionState::Relaying => {
            let r = close_silent();
            proof {
                assert(r@ =~~= spec_step(s0, *config, e0));
            }
            r
        },
        SessionState::Closed => close_silent(),
    }
}

/// A closed session is final: whatever event arrives, no byte is sent, the
/// state stays closed and the directive remains to close.
pub proof fn lemma_closed_is_final(c: ServerConfig, e: EventV)
    ensures
        spec_step(StateV::Closed, c, e) == spec_close_silent(),
{
}

/// Authentication correctness: once the subnegotiation is complete, a
/// validator verdict of true is answered with exactly [0x01, 0x00] and the
/// session proceeds to the request; a verdict of false is answered with
/// exactly [0x05, 0x01] and the session closes — after which, by
/// `lemma_closed_is_final`, not a byte more is sent.
pub proof fn lemma_auth_verdict(c: ServerConfig, ok: bool)
    ensures
        ok ==> spec_step(StateV::AuthPending, c, EventV::CredentialsChecked(ok)) == (StepV {
            state: StateV::RequestHeader,
            send: spec_auth_success_reply(),
            next: DirectiveV::ReadExact(3),
        }),
        !ok ==> spec_step(StateV::AuthPending, c, EventV::CredentialsChecked(ok)) == (StepV {
            state: StateV::Closed,
            send: spec_auth_failure_reply(),
            next: DirectiveV::Close,
        }),
{
}

/// Stepping preserves state well-formedness — starting from the greeting, a
/// session only ever holds well-formed states — and every target the machine
/// hands to the connector is a well-formed address: the fixed forms carry
/// their exact widths, and a domain name holds 1 to 255 bytes of valid
/// UTF-8.
pub proof fn lemma_step_preserves_wf(s: StateV, c: ServerConfig, e: EventV)
    requires
        wf_state(s),
    ensures
        wf_state(spec_step(s, c, e).state),
        spec_step(s, c, e).next matches DirectiveV::Connect { target } ==> wf_addr(target),
{
}

/// The session reads an IPv4 target field by field; prepending the
/// address-type byte it accepted, those bytes decode through the address
/// codec to exactly the target it dispatches — the engine's two address
/// paths agree.
pub proof fn lemma_session_addr_matches_codec_v4(b: Seq<u8>)
    requires
        b.len() == 6,
    ensures
        spec_decode_addr(seq![1u8] + b) == Some(
            (TargetAddrView::V4 { octets: b.subrange(0, 4), port: port_of(b[4], b[5]) }, 7int),
        ),
{
    let s = seq![1u8] + b;
    assert(s.subrange(1, 5) =~= b.subrange(0, 4));
    assert(s[5] == b[4] && s[6] == b[5]);
}

/// As `lemma_session_addr_matches_codec_v4`, for the IPv6 form.
pub proof fn lemma_session_addr_matches_codec_v6(b: Seq<u8>)
    requires
        b.len() == 18,
    ensures
        spec_decode_addr(seq![4u8] + b) == Some(
            (TargetAddrView::V6 { octets: b.subrange(0, 16), port: port_of(b[16], b[17]) }, 19int),
        ),
{
    let s = seq![4u8] + b;
    assert(s.subrange(1, 17) =~= b.subrange(0, 16));
    assert(s[17] == b[16] && s[18] == b[17]);
}

/// As `lemma_session_addr_matches_codec_v4`, for the domain form: the name
/// bytes and port the session accepted behind a length byte decode through
/// the codec to the same target, consuming every byte read.
pub proof fn lemma_session_addr_matches_codec_domain(dlen: u8, b: Seq<u8>)
    requires
        dlen != 0,
        b.len() == dlen + 2,
        valid_utf8(b.subrange(0, dlen as int)),
    ensures
        spec_decode_addr(seq![3u8, dlen] + b) == Some(
            (
                TargetAddrView::Domain {
                    name: b.subrange(0, dlen as int),
                    port: port_of(b[dlen as int], b[dlen as int + 1]),
                },
                4 + dlen,
            ),
        ),
{
    let s = seq![3u8, dlen] + b;
    assert(s.subrange(2, 2 + dlen) =~= b.subrange(0, dlen as int));
    assert(s[2 + dlen] == b[dlen as int] && s[3 + dlen] == b[dlen as int + 1]);
}

/// Unsupported commands: when the request carries any command byte other
/// than CONNECT (0x01) — BIND, UDP ASSOCIATE, or any other value — the only
/// bytes sent are the fixed CommandNotSupported reply, whatever the target
/// address was, and the session closes.
pub proof fn lemma_unsupported_command(cmd: u8, target: TargetAddrView)
    requires
        cmd != 0x01,
    ensures
        spec_dispatch(cmd, target) == (StepV {
            state: StateV::Closed,
            send: spec_reply(Response::CommandNotSupported),
            next: DirectiveV::Close,
        }),
{
}

} // verus!
