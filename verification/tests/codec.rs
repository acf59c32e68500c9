use toggleproxy::addr::{addr_payload_len, decode, domain_tail_len, DecodeError, TargetAddr};
use toggleproxy::socks::AddrType;

fn v4(octets: [u8; 4], port: u16) -> TargetAddr {
    TargetAddr::V4 { octets: octets.to_vec(), port }
}

fn v6(octets: [u8; 16], port: u16) -> TargetAddr {
    TargetAddr::V6 { octets: octets.to_vec(), port }
}

fn domain(name: &str, port: u16) -> TargetAddr {
    TargetAddr::Domain { name: name.as_bytes().to_vec(), port }
}

#[test]
fn encode_v4_bytes() {
    let a = v4([127, 0, 0, 1], 80);
    assert_eq!(a.encode(), vec![1, 127, 0, 0, 1, 0, 80]);
}

#[test]
fn encode_v6_bytes() {
    let a = v6([0, 1, 2, 3, 4, 5, 6, 7, 8, 9, 10, 11, 12, 13, 14, 15], 443);
    assert_eq!(
        a.encode(),
        vec![4, 0, 1, 2, 3, 4, 5, 6, 7, 8, 9, 10, 11, 12, 13, 14, 15, 1, 187]
    );
}

#[test]
fn encode_domain_bytes() {
    let a = domain("example.com", 8080);
    let mut expected = vec![3, 11];
    expected.extend_from_slice(b"example.com");
    expected.extend_from_slice(&[31, 144]);
    assert_eq!(a.encode(), expected);
}

#[test]
fn round_trip_v4() {
    let a = v4([10, 20, 30, 40], 65535);
    let bytes = a.encode();
    let (b, n) = decode(&bytes).unwrap();
    assert_eq!(b, a);
    assert_eq!(n, bytes.len());
}

#[test]
fn round_trip_v6() {
    let a = v6([255, 254, 0, 0, 0, 0, 0, 0, 0, 0, 0, 0, 0, 0, 0, 1], 0);
    let bytes = a.encode();
    let (b, n) = decode(&bytes).unwrap();
    assert_eq!(b, a);
    assert_eq!(n, bytes.len());
}

#[test]
fn round_trip_domain() {
    let a = domain("example.invalid", 80);
    let bytes = a.encode();
    let (b, n) = decode(&bytes).unwrap();
    assert_eq!(b, a);
    assert_eq!(n, bytes.len());
}

#[test]
fn round_trip_domain_longest() {
    let name: String = std::iter::repeat('a').take(255).collect();
    let a = domain(&name, 1);
    let bytes = a.encode();
    assert_eq!(bytes.len(), 1 + 1 + 255 + 2);
    let (b, n) = decode(&bytes).unwrap();
    assert_eq!(b, a);
    assert_eq!(n, bytes.len());
}

#[test]
fn domain_consumes_exactly_its_length() {
    // 1 type byte + 1 length byte + 3 name bytes + 2 port bytes, then noise
    // that must be left untouched.
    let mut bytes = vec![3, 3, b'a', b'b', b'c', 0, 80];
    bytes.extend_from_slice(&[9, 9, 9, 9]);
    let (a, n) = decode(&bytes).unwrap();
    assert_eq!(n, 1 + 3 + 3);
    assert_eq!(a, domain("abc", 80));
}

#[test]
fn fixed_forms_consume_exactly_their_length() {
    let mut bytes = vec![1, 8, 8, 8, 8, 0, 53];
    bytes.extend_from_slice(&[77, 77]);
    let (a, n) = decode(&bytes).unwrap();
    assert_eq!(n, 7);
    assert_eq!(a, v4([8, 8, 8, 8], 53));

    let mut bytes = vec![4];
    bytes.extend_from_slice(&[0; 16]);
    bytes.extend_from_slice(&[0, 22]);
    bytes.push(123);
    let (a, n) = decode(&bytes).unwrap();
    assert_eq!(n, 19);
    assert_eq!(a, v6([0; 16], 22));
}

#[test]
fn decode_empty_is_truncated() {
    assert_eq!(decode(&vec![]), Err(DecodeError::Truncated));
}

#[test]
fn decode_short_v4_is_truncated() {
    assert_eq!(decode(&vec![1, 127, 0, 0, 1, 0]), Err(DecodeError::Truncated));
}

#[test]
fn decode_short_v6_is_truncated() {
    let mut bytes = vec![4];
    bytes.extend_from_slice(&[0; 17]);
    assert_eq!(decode(&bytes), Err(DecodeError::Truncated));
}

#[test]
fn decode_short_domain_is_truncated() {
    assert_eq!(decode(&vec![3]), Err(DecodeError::Truncated));
    assert_eq!(decode(&vec![3, 5, b'a', b'b']), Err(DecodeError::Truncated));
    // The port bytes must be there in full as well.
    assert_eq!(decode(&vec![3, 2, b'a', b'b', 0]), Err(DecodeError::Truncated));
}

#[test]
fn decode_unknown_type_byte() {
    assert_eq!(decode(&vec![2, 0, 0, 0, 0, 0, 0]), Err(DecodeError::AddrTypeNotSupported));
    assert_eq!(decode(&vec![0]), Err(DecodeError::AddrTypeNotSupported));
    assert_eq!(decode(&vec![255]), Err(DecodeError::AddrTypeNotSupported));
}

#[test]
fn decode_empty_domain_rejected() {
    assert_eq!(decode(&vec![3, 0, 0, 80]), Err(DecodeError::EmptyDomain));
}

#[test]
fn decode_invalid_utf8_domain_rejected() {
    assert_eq!(decode(&vec![3, 2, 0xFF, 0xFE, 0, 80]), Err(DecodeError::InvalidUtf8));
}

#[test]
fn addr_type_and_len() {
    assert_eq!(v4([1, 2, 3, 4], 1).addr_type(), AddrType::V4);
    assert_eq!(v6([0; 16], 1).addr_type(), AddrType::V6);
    assert_eq!(domain("x", 1).addr_type(), AddrType::Domain);
    assert_eq!(v4([1, 2, 3, 4], 1).len(), 4);
    assert_eq!(v6([0; 16], 1).len(), 16);
    assert_eq!(domain("abc", 1).len(), 4);
    assert_eq!(domain("abc", 9999).port(), 9999);
}

#[test]
fn payload_len_helpers() {
    assert_eq!(addr_payload_len(1), Ok(Some(6)));
    assert_eq!(addr_payload_len(4), Ok(Some(18)));
    assert_eq!(addr_payload_len(3), Ok(None));
    assert_eq!(addr_payload_len(2), Err(DecodeError::AddrTypeNotSupported));
    assert_eq!(domain_tail_len(0), Err(DecodeError::EmptyDomain));
    assert_eq!(domain_tail_len(9), Ok(11));
    assert_eq!(domain_tail_len(255), Ok(257));
}
