use socks5_ingress::addr::{AddressSpec, DecodeError};
use socks5_ingress::bytes::{append_bytes, bytes_equal, copy_range, has_byte};
use socks5_ingress::engine::{HandshakeEngine, HandshakeState, Step};
use socks5_ingress::handshake::{
    parse_auth, parse_greeting, parse_request, select_method, Command, Credentials, Parsed,
    ProtocolError, ProxyInfo,
};

fn connect_request_ipv4() -> Vec<u8> {
    vec![0x05, 0x01, 0x00, 0x01, 93, 184, 216, 34, 0x01, 0xBB]
}

#[test]
fn byte_helpers() {
    assert_eq!(copy_range(&[1, 2, 3, 4, 5], 1, 4), vec![2, 3, 4]);
    assert_eq!(copy_range(&[1, 2, 3], 2, 2), Vec::<u8>::new());
    let mut v = vec![9u8];
    append_bytes(&mut v, &[8, 7]);
    assert_eq!(v, vec![9, 8, 7]);
    assert!(has_byte(&[1, 2, 3], 3));
    assert!(!has_byte(&[1, 2, 3], 0));
    assert!(bytes_equal(b"abc", b"abc"));
    assert!(!bytes_equal(b"abc", b"abd"));
    assert!(!bytes_equal(b"abc", b"ab"));
}

#[test]
fn greeting_parses_methods() {
    assert_eq!(parse_greeting(&[0x05, 2, 0x00, 0x02]), Parsed::Complete(vec![0x00, 0x02], 4));
    assert_eq!(parse_greeting(&[0x05, 1, 0x00, 0x05]), Parsed::Complete(vec![0x00], 3));
}

#[test]
fn greeting_prefixes_are_incomplete() {
    assert_eq!(parse_greeting(&[]), Parsed::Incomplete);
    assert_eq!(parse_greeting(&[0x05]), Parsed::Incomplete);
    assert_eq!(parse_greeting(&[0x05, 3, 0x00, 0x01]), Parsed::Incomplete);
}

#[test]
fn greeting_bad_version() {
    assert_eq!(parse_greeting(&[0x04, 1, 0x00]), Parsed::Invalid(ProtocolError::BadVersion));
    assert_eq!(parse_greeting(&[0x00]), Parsed::Invalid(ProtocolError::BadVersion));
}

#[test]
fn greeting_without_methods_is_an_error() {
    assert_eq!(parse_greeting(&[0x05, 0]), Parsed::Invalid(ProtocolError::NoAcceptableMethod));
}

#[test]
fn method_selection() {
    assert_eq!(select_method(&[0x02, 0x00], true), Some(0x00));
    assert_eq!(select_method(&[0x00], false), Some(0x00));
    assert_eq!(select_method(&[0x02], true), Some(0x02));
    assert_eq!(select_method(&[0x02], false), None);
    assert_eq!(select_method(&[0x01, 0x03], true), None);
    assert_eq!(select_method(&[], true), None);
}

#[test]
fn auth_parses_credentials() {
    let bytes = [0x01, 2, b'j', b'o', 3, b'p', b'w', b'd', 0x05];
    assert_eq!(
        parse_auth(&bytes),
        Parsed::Complete(
            Credentials { username: b"jo".to_vec(), password: b"pwd".to_vec() },
            8
        )
    );
    assert_eq!(parse_auth(&bytes[..7]), Parsed::Incomplete);
    assert_eq!(parse_auth(&bytes[..2]), Parsed::Incomplete);
    assert_eq!(parse_auth(&[0x05, 0, 0]), Parsed::Invalid(ProtocolError::AuthFailed));
    assert_eq!(
        parse_auth(&[0x01, 0, 0]),
        Parsed::Complete(Credentials { username: Vec::new(), password: Vec::new() }, 3)
    );
}

#[test]
fn request_connect_ipv4() {
    let r = parse_request(&connect_request_ipv4());
    assert_eq!(
        r,
        Parsed::Complete(ProxyInfo::new(AddressSpec::IPv4([93, 184, 216, 34]), 443), 10)
    );
    if let Parsed::Complete(info, _) = r {
        assert_eq!(info.command(), Command::Connect);
        assert_eq!(info.address(), &AddressSpec::IPv4([93, 184, 216, 34]));
        assert_eq!(info.port(), 443);
    }
}

#[test]
fn request_connect_domain() {
    let mut bytes = vec![0x05, 0x01, 0x00, 0x03, 11];
    bytes.extend_from_slice(b"example.com");
    bytes.extend_from_slice(&[0x00, 0x50]);
    bytes.extend_from_slice(b"GET /");
    assert_eq!(
        parse_request(&bytes),
        Parsed::Complete(ProxyInfo::new(AddressSpec::Domain(b"example.com".to_vec()), 80), 18)
    );
}

#[test]
fn request_connect_ipv6() {
    let mut bytes = vec![0x05, 0x01, 0x00, 0x04];
    let ip: [u8; 16] = [0, 0, 0, 0, 0, 0, 0, 0, 0, 0, 0, 0, 0, 0, 0, 1];
    bytes.extend_from_slice(&ip);
    bytes.extend_from_slice(&[0x1F, 0x90]);
    assert_eq!(
        parse_request(&bytes),
        Parsed::Complete(ProxyInfo::new(AddressSpec::IPv6(ip), 8080), 22)
    );
}

#[test]
fn request_prefixes_are_incomplete() {
    let full = connect_request_ipv4();
    for n in 0..full.len() {
        assert_eq!(parse_request(&full[..n]), Parsed::Incomplete);
    }
}

#[test]
fn request_errors() {
    assert_eq!(parse_request(&[0x04, 0x01]), Parsed::Invalid(ProtocolError::BadVersion));
    assert_eq!(parse_request(&[0x05, 0x02]), Parsed::Invalid(ProtocolError::UnsupportedCommand));
    assert_eq!(parse_request(&[0x05, 0x03]), Parsed::Invalid(ProtocolError::UnsupportedCommand));
    assert_eq!(parse_request(&[0x05, 0x09]), Parsed::Invalid(ProtocolError::UnsupportedCommand));
    assert_eq!(
        parse_request(&[0x05, 0x01, 0x00, 0x02]),
        Parsed::Invalid(ProtocolError::BadAddress(DecodeError::UnknownType))
    );
    assert_eq!(
        parse_request(&[0x05, 0x01, 0x00, 0x03, 0x00, 0x00, 0x50]),
        Parsed::Invalid(ProtocolError::BadAddress(DecodeError::EmptyDomain))
    );
}

#[test]
fn engine_rejects_bad_version_silently() {
    let mut e = HandshakeEngine::new(None);
    assert_eq!(e.state(), HandshakeState::AwaitGreeting);
    let step = e.step(&[0x04, 1, 0x00]);
    assert_eq!(step, Step::Failed { error: ProtocolError::BadVersion, reply: Vec::new() });
    assert_eq!(e.state(), HandshakeState::Failed);
    assert!(e.is_finished());
    assert_eq!(e.step(&[0x05, 1, 0x00]), Step::Finished);
}

#[test]
fn engine_rejects_unsupported_methods() {
    let mut e = HandshakeEngine::new(None);
    let step = e.step(&[0x05, 2, 0x01, 0x02]);
    assert_eq!(
        step,
        Step::Failed { error: ProtocolError::NoAcceptableMethod, reply: vec![0x05, 0xFF] }
    );
    assert_eq!(e.state(), HandshakeState::Failed);
}

#[test]
fn engine_rejects_empty_method_list() {
    let mut e = HandshakeEngine::new(Some(b"pw".to_vec()));
    assert_eq!(
        e.step(&[0x05, 0]),
        Step::Failed { error: ProtocolError::NoAcceptableMethod, reply: vec![0x05, 0xFF] }
    );
}

#[test]
fn engine_accepts_connect_without_auth() {
    let mut e = HandshakeEngine::new(None);
    assert_eq!(e.step(&[0x05]), Step::NeedMore);
    assert_eq!(e.step(&[0x05, 1, 0x00]), Step::Continue { consumed: 3, reply: vec![0x05, 0x00] });
    assert_eq!(e.state(), HandshakeState::AwaitRequest);
    assert!(!e.is_finished());
    let req = connect_request_ipv4();
    assert_eq!(e.step(&req[..6]), Step::NeedMore);
    assert_eq!(
        e.step(&req),
        Step::Established {
            consumed: 10,
            info: ProxyInfo::new(AddressSpec::IPv4([93, 184, 216, 34]), 443),
        }
    );
    assert_eq!(e.state(), HandshakeState::Established);
    assert_eq!(e.step(&req), Step::Finished);
}

#[test]
fn engine_password_exchange() {
    let mut e = HandshakeEngine::new(Some(b"secret".to_vec()));
    assert_eq!(e.step(&[0x05, 1, 0x02]), Step::Continue { consumed: 3, reply: vec![0x05, 0x02] });
    assert_eq!(e.state(), HandshakeState::AwaitGreeting);
    let mut auth = vec![0x01, 1, b'u', 6];
    auth.extend_from_slice(b"secret");
    assert_eq!(e.step(&auth[..5]), Step::NeedMore);
    assert_eq!(e.step(&auth), Step::Continue { consumed: 10, reply: vec![0x01, 0x00] });
    assert_eq!(e.state(), HandshakeState::AwaitRequest);
}

#[test]
fn engine_wrong_password() {
    let mut e = HandshakeEngine::new(Some(b"secret".to_vec()));
    assert_eq!(e.step(&[0x05, 1, 0x02]), Step::Continue { consumed: 3, reply: vec![0x05, 0x02] });
    let auth = [0x01, 1, b'u', 3, b'b', b'a', b'd'];
    assert_eq!(
        e.step(&auth),
        Step::Failed { error: ProtocolError::AuthFailed, reply: vec![0x01, 0x01] }
    );
    assert_eq!(e.state(), HandshakeState::Failed);
}

#[test]
fn engine_prefers_no_auth_even_with_password() {
    let mut e = HandshakeEngine::new(Some(b"secret".to_vec()));
    assert_eq!(
        e.step(&[0x05, 2, 0x02, 0x00]),
        Step::Continue { consumed: 4, reply: vec![0x05, 0x00] }
    );
    assert_eq!(e.state(), HandshakeState::AwaitRequest);
}

#[test]
fn engine_request_refusals_carry_reply_codes() {
    let cases: Vec<(Vec<u8>, ProtocolError, u8)> = vec![
        (vec![0x05, 0x02, 0x00], ProtocolError::UnsupportedCommand, 0x07),
        (vec![0x05, 0x03, 0x00], ProtocolError::UnsupportedCommand, 0x07),
        (
            vec![0x05, 0x01, 0x00, 0x07],
            ProtocolError::BadAddress(DecodeError::UnknownType),
            0x08,
        ),
        (
            vec![0x05, 0x01, 0x00, 0x03, 0x00],
            ProtocolError::BadAddress(DecodeError::EmptyDomain),
            0x01,
        ),
        (vec![0x06, 0x01], ProtocolError::BadVersion, 0x01),
    ];
    for (input, error, code) in cases {
        let mut e = HandshakeEngine::new(None);
        e.step(&[0x05, 1, 0x00]);
        assert_eq!(
            e.step(&input),
            Step::Failed { error, reply: vec![0x05, code, 0x00, 0x01, 0, 0, 0, 0, 0, 0] }
        );
        assert_eq!(e.state(), HandshakeState::Failed);
    }
}

#[test]
fn engine_abandon() {
    let mut e = HandshakeEngine::new(None);
    e.abandon();
    assert_eq!(e.state(), HandshakeState::Failed);
    let mut e = HandshakeEngine::new(None);
    e.step(&[0x05, 1, 0x00]);
    e.step(&connect_request_ipv4());
    e.abandon();
    assert_eq!(e.state(), HandshakeState::Established);
}
