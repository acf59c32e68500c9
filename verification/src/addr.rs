//! The SOCKS5 address codec.
//!
//! A target address is one of three wire forms: a 4-byte IPv4 address, a
//! 16-byte IPv6 address, or a domain name of 1 to 255 bytes carried behind a
//! length byte. Each form is followed by a 2-byte big-endian port. On the
//! wire the form is announced by a leading address-type byte.
//!
//! `spec_encode_addr` and `spec_decode_addr` state the codec mathematically;
//! the executable `encode`/`decode` pair is proved against them, and
//! `lemma_decode_encode` proves that decoding an encoding gives the value
//! back exactly.

use vstd::prelude::*;
use vstd::utf8::valid_utf8;
use crate::socks::AddrType;
use crate::socks::addr_type_byte;

verus! {

/// The target of a CONNECT request: a tagged address plus port.
///
/// A domain name is kept as its wire bytes; they are well-formed only when
/// 1 to 255 bytes long and valid UTF-8.
#[derive(Clone, Debug, PartialEq, Eq)]
pub enum TargetAddr {
    V4 { octets: Vec<u8>, port: u16 },
    V6 { octets: Vec<u8>, port: u16 },
    Domain { name: Vec<u8>, port: u16 },
}

/// The mathematical value of a `TargetAddr`.
#[verifier::ext_equal]
pub ghost enum TargetAddrView {
    V4 { octets: Seq<u8>, port: u16 },
    V6 { octets: Seq<u8>, port: u16 },
    Domain { name: Seq<u8>, port: u16 },
}

impl View for TargetAddr {
    type V = TargetAddrView;

    open spec fn view(&self) -> TargetAddrView {
        match self {
            TargetAddr::V4 { octets, port } => TargetAddrView::V4 { octets: octets@, port: *port },
            TargetAddr::V6 { octets, port } => TargetAddrView::V6 { octets: octets@, port: *port },
            TargetAddr::Domain { name, port } => TargetAddrView::Domain {
                name: name@,
                port: *port,
            },
        }
    }
}

/// Well-formedness of a target address: the payload of each fixed form has
/// its exact width, and a domain name holds 1 to 255 bytes of valid UTF-8.
pub open spec fn wf_addr(a: TargetAddrView) -> bool {
    match a {
        TargetAddrView::V4 { octets, .. } => octets.len() == 4,
        TargetAddrView::V6 { octets, .. } => octets.len() == 16,
        TargetAddrView::Domain { name, .. } => 1 <= name.len() <= 255 && valid_utf8(name),
    }
}

/// The two big-endian bytes of a port.
pub open spec fn port_bytes(port: u16) -> Seq<u8> {
    seq![(port / 256) as u8, (port % 256) as u8]
}

/// The port two big-endian bytes carry.
pub open spec fn port_of(hi: u8, lo: u8) -> u16 {
    (hi * 256 + lo) as u16
}

/// The wire encoding of a target address: the address-type byte, the payload
/// (length-prefixed for a domain), then the port.
pub open spec fn spec_encode_addr(a: TargetAddrView) -> Seq<u8> {
    match a {
        TargetAddrView::V4 { octets, port } => seq![1u8] + octets + port_bytes(port),
        TargetAddrView::V6 { octets, port } => seq![4u8] + octets + port_bytes(port),
        TargetAddrView::Domain { name, port } => seq![3u8, name.len() as u8] + name + port_bytes(
            port,
        ),
    }
}

/// Decodes a target address from the front of a byte stream. On success the
/// result carries the decoded address and how many bytes were consumed;
/// `None` stands for the stream being malformed or too short, told apart by
/// `spec_decode_err`.
pub open spec fn spec_decode_addr(s: Seq<u8>) -> Option<(TargetAddrView, int)> {
    if s.len() < 1 {
        None
    } else if s[0] == 1 {
        if s.len() < 7 {
            None
        } else {
            Some(
                (
                    TargetAddrView::V4 { octets: s.subrange(1, 5), port: port_of(s[5], s[6]) },
                    7int,
                ),
            )
        }
    } else if s[0] == 4 {
        if s.len() < 19 {
            None
        } else {
            Some(
                (
                    TargetAddrView::V6 { octets: s.subrange(1, 17), port: port_of(s[17], s[18]) },
                    19int,
                ),
            )
        }
    } else if s[0] == 3 {
        if s.len() < 2 {
            None
        } else if s[1] == 0 {
            None
        } else if s.len() < 4 + s[1] {
            None
        } else if !valid_utf8(s.subrange(2, 2 + s[1])) {
            None
        } else {
            Some(
                (
                    TargetAddrView::Domain {
                        name: s.subrange(2, 2 + s[1]),
                        port: port_of(s[2 + s[1]], s[3 + s[1]]),
                    },
                    4 + s[1],
                ),
            )
        }
    } else {
        None
    }
}

/// Why a target address fails to decode.
#[derive(Clone, Copy, Debug, PartialEq, Eq, Structural)]
pub enum DecodeError {
    /// The stream ends before the form's declared width; no partial read may
    /// stand for a value.
    Truncated,
    /// The address-type byte names none of the three forms.
    AddrTypeNotSupported,
    /// A domain's length byte is zero; a domain name holds at least one byte.
    EmptyDomain,
    /// A domain's name bytes are not valid UTF-8.
    InvalidUtf8,
}

/// The error `decode` reports when `spec_decode_addr` gives `None`.
pub open spec fn spec_decode_err(s: Seq<u8>) -> DecodeError {
    if s.len() < 1 {
        DecodeError::Truncated
    } else if s[0] == 1 {
        DecodeError::Truncated
    } else if s[0] == 4 {
        DecodeError::Truncated
    } else if s[0] == 3 {
        if s.len() < 2 {
            DecodeError::Truncated
        } else if s[1] == 0 {
            DecodeError::EmptyDomain
        } else if s.len() < 4 + s[1] {
            DecodeError::Truncated
        } else {
            DecodeError::InvalidUtf8
        }
    } else {
        DecodeError::AddrTypeNotSupported
    }
}

/// Relies on `core::str::from_utf8`: it returns `Ok` exactly when the bytes
/// are valid UTF-8, the predicate vstd states as `valid_utf8`.
#[verifier::external_body]
pub(crate) fn utf8_valid(bytes: &Vec<u8>) -> (r: bool)
    ensures
        r == valid_utf8(bytes@),
{
    core::str::from_utf8(&bytes[..]).is_ok()
}

impl TargetAddr {
    /// Well-formedness, stated over the mathematical value.
    pub open spec fn wf(&self) -> bool {
        wf_addr(self@)
    }

    /// The address type tag of this address.
    pub fn addr_type(&self) -> (t: AddrType)
        ensures
            addr_type_byte(t) == spec_encode_addr(self@)[0],
    {
        match self {
            TargetAddr::V4 { .. } => AddrType::V4,
            TargetAddr::V6 { .. } => AddrType::V6,
            TargetAddr::Domain { .. } => AddrType::Domain,
        }
    }

    /// The width of the encoded payload without the type byte and the port:
    /// the fixed address widths, or the length byte plus the name.
    pub fn len(&self) -> (r: usize)
        requires
            self.wf(),
        ensures
            r == spec_encode_addr(self@).len() - 3,
    {
        match self {
            TargetAddr::V4 { .. } => 4,
            TargetAddr::V6 { .. } => 16,
            TargetAddr::Domain { name, .. } => name.len() + 1,
        }
    }

    /// The port of this address.
    pub fn port(&self) -> (r: u16)
        ensures
            r == spec_addr_port(self@),
    {
        match self {
            TargetAddr::V4 { port, .. } => *port,
            TargetAddr::V6 { port, .. } => *port,
            TargetAddr::Domain { port, .. } => *port,
        }
    }

    /// Appends the wire encoding of this address to `out`.
    pub fn encode_into(&self, out: &mut Vec<u8>)
        requires
            self.wf(),
            old(out)@.len() + spec_encode_addr(self@).len() <= usize::MAX,
        ensures
            final(out)@ == old(out)@ + spec_encode_addr(self@),
    {
        let ghost base = out@;
        match self {
            TargetAddr::V4 { octets, port } => {
                out.push(1);
                push_bytes(out, octets);
                push_port(out, *port);
                proof {
                    assert(final(out)@ =~= base + spec_encode_addr(self@));
                }
            },
            TargetAddr::V6 { octets, port } => {
                out.push(4);
                push_bytes(out, octets);
                push_port(out, *port);
                proof {
                    assert(final(out)@ =~= base + spec_encode_addr(self@));
                }
            },
            TargetAddr::Domain { name, port } => {
                out.push(3);
                out.push(name.len() as u8);
                push_bytes(out, name);
                push_port(out, *port);
                proof {
                    assert(final(out)@ =~= base + spec_encode_addr(self@));
                }
            },
        }
    }

    /// The wire encoding of this address.
    pub fn encode(&self) -> (r: Vec<u8>)
        requires
            self.wf(),
        ensures
            r@ == spec_encode_addr(self@),
    {
        let mut out: Vec<u8> = Vec::new();
        self.encode_into(&mut out);
        proof {
            assert(out@ =~= spec_encode_addr(self@));
        }
        out
    }
}

/// The port of a target address.
pub open spec fn spec_addr_port(a: TargetAddrView) -> u16 {
    match a {
        TargetAddrView::V4 { port, .. } => port,
        TargetAddrView::V6 { port, .. } => port,
        TargetAddrView::Domain { port, .. } => port,
    }
}

/// Appends all of `bytes` to `out`.
pub(crate) fn push_bytes(out: &mut Vec<u8>, bytes: &Vec<u8>)
    requires
        old(out)@.len() + bytes@.len() <= usize::MAX,
    ensures
        final(out)@ == old(out)@ + bytes@,
{
    let ghost base = out@;
    let mut i: usize = 0;
    while i < bytes.len()
        invariant
            i <= bytes@.len(),
            base.len() + bytes@.len() <= usize::MAX,
            out@ == base + bytes@.take(i as int),
        decreases bytes@.len() - i,
    {
        out.push(bytes[i]);
        i = i + 1;
        proof {
            assert(bytes@.take(i as int) == bytes@.take(i - 1).push(bytes@[i - 1]));
        }
    }
    proof {
        assert(bytes@.take(bytes@.len() as int) == bytes@);
    }
}

/// Appends the two big-endian bytes of `port` to `out`.
fn push_port(out: &mut Vec<u8>, port: u16)
    requires
        old(out)@.len() + 2 <= usize::MAX,
    ensures
        final(out)@ == old(out)@ + port_bytes(port),
{
    out.push((port / 256) as u8);
    out.push((port % 256) as u8);
    proof {
        assert(final(out)@ =~= old(out)@ + port_bytes(port));
    }
}

/// Reads the two big-endian port bytes of `buf` at `i`.
pub(crate) fn read_port(buf: &Vec<u8>, i: usize) -> (r: u16)
    requires
        i + 2 <= buf@.len(),
    ensures
        r == port_of(buf@[i as int], buf@[i as int + 1]),
{
    let n = buf.len();
    assert(i + 2 <= n);
    (buf[i] as u16) * 256 + (buf[i + 1] as u16)
}

/// Copies `buf[from..to]` into a fresh vector.
pub(crate) fn copy_range(buf: &Vec<u8>, from: usize, to: usize) -> (r: Vec<u8>)
    requires
        from <= to <= buf@.len(),
    ensures
        r@ == buf@.subrange(from as int, to as int),
{
    let mut out: Vec<u8> = Vec::new();
    let mut i: usize = from;
    while i < to
        invariant
            from <= i <= to <= buf@.len(),
            out@ == buf@.subrange(from as int, i as int),
        decreases to - i,
    {
        out.push(buf[i]);
        i = i + 1;
        proof {
            assert(buf@.subrange(from as int, i as int) == buf@.subrange(
                from as int,
                i - 1,
            ).push(buf@[i - 1]));
        }
    }
    out
}

/// Decodes a target address from the front of `buf`, returning the address
/// and exactly how many bytes of `buf` it consumed. Fails with `Truncated`
/// when the buffer ends inside a declared field — a partial read never
/// stands for a value — with `AddrTypeNotSupported` on an unrecognized
/// address-type byte, and with `EmptyDomain` or `InvalidUtf8` on a malformed
/// domain name.
pub fn decode(buf: &Vec<u8>) -> (r: Result<(TargetAddr, usize), DecodeError>)
    ensures
        match r {
            Ok((a, n)) => {
                &&& a.wf()
                &&& spec_decode_addr(buf@) == Some((a@, n as int))
            },
            Err(e) => {
                &&& spec_decode_addr(buf@) is None
                &&& e == spec_decode_err(buf@)
            },
        },
{
    if buf.len() < 1 {
        return Err(DecodeError::Truncated);
    }
    let atyp = buf[0];
    if atyp == 1 {
        if buf.len() < 7 {
            return Err(DecodeError::Truncated);
        }
        let octets = copy_range(buf, 1, 5);
        let port = read_port(buf, 5);
        Ok((TargetAddr::V4 { octets, port }, 7))
    } else if atyp == 4 {
        if buf.len() < 19 {
            return Err(DecodeError::Truncated);
        }
        let octets = copy_range(buf, 1, 17);
        let port = read_port(buf, 17);
        Ok((TargetAddr::V6 { octets, port }, 19))
    } else if atyp == 3 {
        if buf.len() < 2 {
            return Err(DecodeError::Truncated);
        }
        let dlen = buf[1] as usize;
        if dlen == 0 {
            return Err(DecodeError::EmptyDomain);
        }
        if buf.len() < 4 + dlen {
            return Err(DecodeError::Truncated);
        }
        let name = copy_range(buf, 2, 2 + dlen);
        if !utf8_valid(&name) {
            return Err(DecodeError::InvalidUtf8);
        }
        let port = read_port(buf, 2 + dlen);
        Ok((TargetAddr::Domain { name, port }, 4 + dlen))
    } else {
        Err(DecodeError::AddrTypeNotSupported)
    }
}

/// What an address-type byte asks to be read next: the exact payload width
/// for the two fixed forms (address plus the 2-byte port), `None` for the
/// domain form, whose 1-byte name length must be read first.
pub open spec fn spec_addr_payload_len(atyp: u8) -> Result<Option<usize>, DecodeError> {
    if atyp == 1 {
        Ok(Some(6usize))
    } else if atyp == 4 {
        Ok(Some(18usize))
    } else if atyp == 3 {
        Ok(None)
    } else {
        Err(DecodeError::AddrTypeNotSupported)
    }
}

/// How many bytes follow an address-type byte, for a caller reading an
/// address off a stream field by field.
pub fn addr_payload_len(atyp: u8) -> (r: Result<Option<usize>, DecodeError>)
    ensures
        r == spec_addr_payload_len(atyp),
{
    if atyp == 1 {
        Ok(Some(6))
    } else if atyp == 4 {
        Ok(Some(18))
    } else if atyp == 3 {
        Ok(None)
    } else {
        Err(DecodeError::AddrTypeNotSupported)
    }
}

/// How many bytes follow a domain's length byte: the name and the 2-byte
/// port; a zero length byte is malformed.
pub fn domain_tail_len(dlen: u8) -> (r: Result<usize, DecodeError>)
    ensures
        dlen == 0 ==> r == Err::<usize, DecodeError>(DecodeError::EmptyDomain),
        dlen != 0 ==> r == Ok::<usize, DecodeError>((dlen + 2) as usize),
{
    if dlen == 0 {
        Err(DecodeError::EmptyDomain)
    } else {
        Ok(dlen as usize + 2)
    }
}

/// Round trip of the codec: decoding the encoding of any well-formed target
/// address gives back exactly that address, consuming the whole encoding.
pub proof fn lemma_decode_encode(a: TargetAddrView)
    requires
        wf_addr(a),
    ensures
        spec_decode_addr(spec_encode_addr(a)) == Some((a, spec_encode_addr(a).len() as int)),
{
    let s = spec_encode_addr(a);
    match a {
        TargetAddrView::V4 { octets, port } => {
            assert(s.subrange(1, 5) =~= octets);
            assert(s[5] == (port / 256) as u8 && s[6] == (port % 256) as u8);
            assert(port_of(s[5], s[6]) == port);
            assert(spec_decode_addr(s) == Some(
                (TargetAddrView::V4 { octets, port }, 7int),
            ));
        },
        TargetAddrView::V6 { octets, port } => {
            assert(s.subrange(1, 17) =~= octets);
            assert(port_of(s[17], s[18]) == port);
            assert(spec_decode_addr(s) == Some(
                (TargetAddrView::V6 { octets, port }, 19int),
            ));
        },
        TargetAddrView::Domain { name, port } => {
            assert(s[1] == name.len() as u8);
            assert(s[1] as int == name.len());
            assert(s.subrange(2, 2 + s[1]) =~= name);
            assert(port_of(s[2 + s[1]], s[3 + s[1]]) == port);
            assert(spec_decode_addr(s) == Some(
                (TargetAddrView::Domain { name, port }, 4 + s[1]),
            ));
        },
    }
}

/// Decoding reads only the bytes it consumes: two streams that agree on the
/// consumed prefix decode to the same address and the same count, whatever
/// follows — a decode never depends on bytes past the ones it reports.
pub proof fn lemma_decode_consumes_prefix(s1: Seq<u8>, s2: Seq<u8>, a: TargetAddrView, n: int)
    requires
        spec_decode_addr(s1) == Some((a, n)),
        s2.len() >= n,
        s2.subrange(0, n) == s1.subrange(0, n),
    ensures
        n <= s1.len(),
        spec_decode_addr(s2) == Some((a, n)),
{
    assert(n <= s1.len());
    assert forall|i: int| 0 <= i < n implies s2[i] == s1[i] by {
        assert(s2.subrange(0, n) == s1.subrange(0, n));
        assert(s2.subrange(0, n)[i] == s2[i]);
        assert(s1.subrange(0, n)[i] == s1[i]);
    }
    if s1[0] == 1 {
        assert(s2.subrange(1, 5) =~= s1.subrange(1, 5));
    } else if s1[0] == 4 {
        assert(s2.subrange(1, 17) =~= s1.subrange(1, 17));
    } else if s1[0] == 3 {
        assert(s2.subrange(2, 2 + s1[1]) =~= s1.subrange(2, 2 + s1[1]));
    }
}

/// Domain length fidelity: a decoded domain address consumed its type byte
/// and then exactly `1 + name.len() + 2` more — one length byte, the name
/// bytes the length byte declared, and the two port bytes.
pub proof fn lemma_domain_consumption(s: Seq<u8>, name: Seq<u8>, port: u16, n: int)
    requires
        spec_decode_addr(s) == Some((TargetAddrView::Domain { name, port }, n)),
    ensures
        n == 1 + (1 + name.len() + 2),
        name.len() == s[1],
{
}

} // verus!
