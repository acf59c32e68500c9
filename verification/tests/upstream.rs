use toggleproxy::addr::TargetAddr;
use toggleproxy::client::{
    build_connect_request, build_greeting, build_userpass_request, check_auth_reply,
    check_connect_reply, check_method_selection, HandshakeError,
};

#[test]
fn greeting_without_credentials() {
    assert_eq!(build_greeting(false), vec![5, 1, 0]);
}

#[test]
fn greeting_with_credentials() {
    assert_eq!(build_greeting(true), vec![5, 2, 2, 0]);
}

#[test]
fn selection_no_auth_proceeds_directly() {
    assert_eq!(check_method_selection(5, 0, false), Ok(false));
    assert_eq!(check_method_selection(5, 0, true), Ok(false));
}

#[test]
fn selection_userpass_needs_credentials() {
    assert_eq!(check_method_selection(5, 2, true), Ok(true));
    assert_eq!(
        check_method_selection(5, 2, false),
        Err(HandshakeError::CredentialsRequired)
    );
}

#[test]
fn selection_bad_version_or_method() {
    assert_eq!(
        check_method_selection(4, 0, true),
        Err(HandshakeError::InvalidVersion)
    );
    assert_eq!(
        check_method_selection(5, 0xFF, true),
        Err(HandshakeError::UnsupportedMethod)
    );
    assert_eq!(
        check_method_selection(5, 1, true),
        Err(HandshakeError::UnsupportedMethod)
    );
}

#[test]
fn userpass_request_bytes() {
    let r = build_userpass_request(&b"user1".to_vec(), &b"123456".to_vec());
    let mut expected = vec![5, 5];
    expected.extend_from_slice(b"user1");
    expected.push(6);
    expected.extend_from_slice(b"123456");
    assert_eq!(r, expected);
}

#[test]
fn userpass_request_empty_credentials() {
    assert_eq!(build_userpass_request(&vec![], &vec![]), vec![5, 0, 0]);
}

#[test]
fn auth_reply_status() {
    assert_eq!(check_auth_reply(0), Ok(()));
    assert_eq!(check_auth_reply(1), Err(HandshakeError::WrongCredentials));
    assert_eq!(check_auth_reply(0xFF), Err(HandshakeError::WrongCredentials));
}

#[test]
fn connect_request_carries_encoded_target() {
    let target = TargetAddr::Domain { name: b"example.com".to_vec(), port: 443 };
    let r = build_connect_request(&target);
    let mut expected = vec![5, 1, 0, 3, 11];
    expected.extend_from_slice(b"example.com");
    expected.extend_from_slice(&[1, 187]);
    assert_eq!(r, expected);

    let target = TargetAddr::V4 { octets: vec![127, 0, 0, 1], port: 1081 };
    assert_eq!(build_connect_request(&target), vec![5, 1, 0, 1, 127, 0, 0, 1, 4, 57]);
}

#[test]
fn connect_reply_checked() {
    assert_eq!(check_connect_reply(5, 0), Ok(()));
    assert_eq!(check_connect_reply(4, 0), Err(HandshakeError::InvalidVersion));
    assert_eq!(check_connect_reply(5, 4), Err(HandshakeError::ConnectRejected));
}
