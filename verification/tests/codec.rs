use socks5_ingress::addr::{decode, encode, AddressSpec, DecodeError};
use socks5_ingress::wire::{
    auth_reply, encode_reply, method_reply, plain_reply, port_of, ReplyCode,
};

#[test]
fn encode_ipv4_exact_bytes() {
    let a = AddressSpec::IPv4([192, 168, 1, 7]);
    assert_eq!(encode(&a), vec![0x01, 192, 168, 1, 7]);
}

#[test]
fn encode_domain_exact_bytes() {
    let a = AddressSpec::Domain(b"example.com".to_vec());
    let mut expected = vec![0x03, 11];
    expected.extend_from_slice(b"example.com");
    assert_eq!(encode(&a), expected);
}

#[test]
fn encode_ipv6_exact_bytes() {
    let ip: [u8; 16] = [0x20, 0x01, 0x0d, 0xb8, 0, 0, 0, 0, 0, 0, 0, 0, 0, 0, 0, 1];
    let out = encode(&AddressSpec::IPv6(ip));
    assert_eq!(out.len(), 17);
    assert_eq!(out[0], 0x04);
    assert_eq!(&out[1..], &ip[..]);
}

#[test]
fn round_trip_ipv4() {
    let a = AddressSpec::IPv4([10, 0, 0, 1]);
    assert_eq!(decode(&encode(&a)), Ok((a, 5)));
}

#[test]
fn round_trip_ipv6() {
    let a = AddressSpec::IPv6([1, 2, 3, 4, 5, 6, 7, 8, 9, 10, 11, 12, 13, 14, 15, 16]);
    assert_eq!(decode(&encode(&a)), Ok((a, 17)));
}

#[test]
fn round_trip_domain_shortest_and_longest() {
    let short = AddressSpec::Domain(vec![b'a']);
    assert!(short.is_valid());
    assert_eq!(decode(&encode(&short)), Ok((short, 3)));
    let long = AddressSpec::Domain(vec![b'x'; 255]);
    assert!(long.is_valid());
    assert_eq!(decode(&encode(&long)), Ok((long, 257)));
}

#[test]
fn domain_invariant_is_tested() {
    assert!(!AddressSpec::Domain(Vec::new()).is_valid());
    assert!(!AddressSpec::Domain(vec![b'x'; 256]).is_valid());
    assert!(AddressSpec::IPv4([0, 0, 0, 0]).is_valid());
}

#[test]
fn decode_leaves_trailing_bytes() {
    let bytes = [0x03, 2, b'a', b'b', 0x01, 0xBB, 0xFF];
    assert_eq!(decode(&bytes), Ok((AddressSpec::Domain(b"ab".to_vec()), 4)));
}

#[test]
fn decode_unknown_type() {
    assert_eq!(decode(&[0x02, 1, 2, 3, 4]), Err(DecodeError::UnknownType));
    assert_eq!(decode(&[0x00]), Err(DecodeError::UnknownType));
    assert_eq!(decode(&[0x05, 0, 0]), Err(DecodeError::UnknownType));
}

#[test]
fn decode_truncated() {
    assert_eq!(decode(&[]), Err(DecodeError::Truncated));
    assert_eq!(decode(&[0x01, 1, 2, 3]), Err(DecodeError::Truncated));
    assert_eq!(decode(&[0x04, 1, 2, 3, 4, 5, 6, 7, 8]), Err(DecodeError::Truncated));
    assert_eq!(decode(&[0x03]), Err(DecodeError::Truncated));
    assert_eq!(decode(&[0x03, 5, b'a', b'b']), Err(DecodeError::Truncated));
}

#[test]
fn decode_empty_domain_is_an_error() {
    assert_eq!(decode(&[0x03, 0]), Err(DecodeError::EmptyDomain));
    assert_eq!(decode(&[0x03, 0, 0x00, 0x50]), Err(DecodeError::EmptyDomain));
}

#[test]
fn reply_codes_on_the_wire() {
    assert_eq!(ReplyCode::Succeeded.code(), 0x00);
    assert_eq!(ReplyCode::GeneralFailure.code(), 0x01);
    assert_eq!(ReplyCode::HostUnreachable.code(), 0x04);
    assert_eq!(ReplyCode::ConnectionRefused.code(), 0x05);
    assert_eq!(ReplyCode::CommandNotSupported.code(), 0x07);
    assert_eq!(ReplyCode::AddressTypeNotSupported.code(), 0x08);
}

#[test]
fn reply_frame_exact_bytes() {
    let bound = AddressSpec::IPv4([127, 0, 0, 1]);
    assert_eq!(
        encode_reply(ReplyCode::Succeeded, &bound, 0x1F90),
        vec![0x05, 0x00, 0x00, 0x01, 127, 0, 0, 1, 0x1F, 0x90]
    );
    assert_eq!(
        plain_reply(ReplyCode::HostUnreachable),
        vec![0x05, 0x04, 0x00, 0x01, 0, 0, 0, 0, 0, 0]
    );
}

#[test]
fn short_replies_exact_bytes() {
    assert_eq!(method_reply(0x00), vec![0x05, 0x00]);
    assert_eq!(method_reply(0xFF), vec![0x05, 0xFF]);
    assert_eq!(auth_reply(0x00), vec![0x01, 0x00]);
    assert_eq!(auth_reply(0x01), vec![0x01, 0x01]);
}

#[test]
fn port_is_big_endian() {
    assert_eq!(port_of(0x01, 0xBB), 443);
    assert_eq!(port_of(0x00, 0x50), 80);
    assert_eq!(port_of(0xFF, 0xFF), 65535);
    assert_eq!(port_of(0, 0), 0);
}
