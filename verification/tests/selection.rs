use toggleproxy::auth::select_method;
use toggleproxy::socks::{AddrType, AuthMethod, Command, Response};

fn sel(offered: &[AuthMethod], allow_no_auth: bool, require_user_pass: bool) -> AuthMethod {
    select_method(&offered.to_vec(), allow_no_auth, require_user_pass)
}

#[test]
fn userpass_wins_when_required_and_offered() {
    let m = [AuthMethod::NoAuth, AuthMethod::UserPass];
    assert_eq!(sel(&m, true, true), AuthMethod::UserPass);
    assert_eq!(sel(&m, false, true), AuthMethod::UserPass);
    assert_eq!(sel(&[AuthMethod::UserPass], false, true), AuthMethod::UserPass);
}

#[test]
fn no_auth_when_permitted_and_offered() {
    let m = [AuthMethod::NoAuth, AuthMethod::UserPass];
    assert_eq!(sel(&m, true, false), AuthMethod::NoAuth);
    assert_eq!(sel(&[AuthMethod::NoAuth], true, true), AuthMethod::NoAuth);
    assert_eq!(sel(&[AuthMethod::NoAuth], true, false), AuthMethod::NoAuth);
}

#[test]
fn no_acceptable_iff_no_configured_method_offered() {
    assert_eq!(sel(&[], true, true), AuthMethod::NoMethods);
    assert_eq!(sel(&[AuthMethod::NoAuth], false, true), AuthMethod::NoMethods);
    assert_eq!(sel(&[AuthMethod::UserPass], true, false), AuthMethod::NoMethods);
    assert_eq!(sel(&[AuthMethod::UserPass], false, false), AuthMethod::NoMethods);
    assert_eq!(sel(&[AuthMethod::NoMethods], true, true), AuthMethod::NoMethods);
    assert_eq!(
        sel(&[AuthMethod::NoAuth, AuthMethod::UserPass], false, false),
        AuthMethod::NoMethods
    );
}

#[test]
fn selection_ignores_unrecognized_methods() {
    let m = [AuthMethod::NoMethods, AuthMethod::NoAuth];
    assert_eq!(sel(&m, true, true), AuthMethod::NoAuth);
}

#[test]
fn auth_method_byte_mapping() {
    assert_eq!(AuthMethod::from(0x00), AuthMethod::NoAuth);
    assert_eq!(AuthMethod::from(0x02), AuthMethod::UserPass);
    assert_eq!(AuthMethod::from(0x01), AuthMethod::NoMethods);
    assert_eq!(AuthMethod::from(0xFF), AuthMethod::NoMethods);
    assert_eq!(AuthMethod::NoAuth.byte(), 0x00);
    assert_eq!(AuthMethod::UserPass.byte(), 0x02);
    assert_eq!(AuthMethod::NoMethods.byte(), 0xFF);
}

#[test]
fn get_available_methods_maps_bytes() {
    let methods = AuthMethod::get_available_methods(&vec![0x00, 0x02, 0x7F]);
    assert_eq!(
        methods,
        vec![AuthMethod::NoAuth, AuthMethod::UserPass, AuthMethod::NoMethods]
    );
}

#[test]
fn command_byte_mapping() {
    assert_eq!(Command::from(1), Some(Command::Connect));
    assert_eq!(Command::from(2), Some(Command::Bind));
    assert_eq!(Command::from(3), Some(Command::UdpAssociate));
    assert_eq!(Command::from(0), None);
    assert_eq!(Command::from(4), None);
    assert_eq!(Command::Connect.byte(), 1);
    assert_eq!(Command::Bind.byte(), 2);
    assert_eq!(Command::UdpAssociate.byte(), 3);
}

#[test]
fn addr_type_byte_mapping() {
    assert_eq!(AddrType::from(1), Some(AddrType::V4));
    assert_eq!(AddrType::from(3), Some(AddrType::Domain));
    assert_eq!(AddrType::from(4), Some(AddrType::V6));
    assert_eq!(AddrType::from(0), None);
    assert_eq!(AddrType::from(2), None);
    assert_eq!(AddrType::from(5), None);
    assert_eq!(AddrType::V4.byte(), 1);
    assert_eq!(AddrType::Domain.byte(), 3);
    assert_eq!(AddrType::V6.byte(), 4);
}

#[test]
fn response_byte_mapping() {
    assert_eq!(Response::Success.byte(), 0x00);
    assert_eq!(Response::Failure.byte(), 0x01);
    assert_eq!(Response::RuleFailure.byte(), 0x02);
    assert_eq!(Response::NetworkUnreachable.byte(), 0x03);
    assert_eq!(Response::HostUnreachable.byte(), 0x04);
    assert_eq!(Response::ConnectionRefused.byte(), 0x05);
    assert_eq!(Response::TtlExpired.byte(), 0x06);
    assert_eq!(Response::CommandNotSupported.byte(), 0x07);
    assert_eq!(Response::AddrTypeNotSupported.byte(), 0x08);
}
