//! Constants and reply frames of the SOCKS5 wire protocol.

use vstd::prelude::*;
use crate::addr::{encode, spec_encode, AddressModel, AddressSpec};
use crate::bytes::append_bytes;

verus! {

/// Protocol version carried by every greeting, request and reply.
pub const SOCKS_VERSION: u8 = 0x05;

/// Version of the username/password sub-negotiation.
pub const AUTH_VERSION: u8 = 0x01;

/// Method identifier: no authentication required.
pub const METHOD_NO_AUTH: u8 = 0x00;

/// Method identifier: username and password.
pub const METHOD_PASSWORD: u8 = 0x02;

/// Method identifier that tells the client no offered method is acceptable.
pub const METHOD_NONE_ACCEPTABLE: u8 = 0xFF;

/// Command code of CONNECT, the one command that is served.
pub const CMD_CONNECT: u8 = 0x01;

/// Command code of BIND.
pub const CMD_BIND: u8 = 0x02;

/// Command code of UDP ASSOCIATE.
pub const CMD_UDP_ASSOCIATE: u8 = 0x03;

/// Status byte of an accepted username/password exchange.
pub const AUTH_OK: u8 = 0x00;

/// Status byte of a refused username/password exchange.
pub const AUTH_REFUSED: u8 = 0x01;

/// Outcome that a reply frame reports to the client.
#[derive(Clone, Copy, Debug, PartialEq, Eq, Structural)]
pub enum ReplyCode {
    Succeeded,
    GeneralFailure,
    HostUnreachable,
    ConnectionRefused,
    CommandNotSupported,
    AddressTypeNotSupported,
}

impl ReplyCode {
    /// The byte that stands for this outcome on the wire.
    pub open spec fn spec_code(self) -> u8 {
        match self {
            ReplyCode::Succeeded => 0x00,
            ReplyCode::GeneralFailure => 0x01,
            ReplyCode::HostUnreachable => 0x04,
            ReplyCode::ConnectionRefused => 0x05,
            ReplyCode::CommandNotSupported => 0x07,
            ReplyCode::AddressTypeNotSupported => 0x08,
        }
    }

    /// The byte that stands for this outcome on the wire.
    pub fn code(self) -> (c: u8)
        ensures
            c == self.spec_code(),
    {
        match self {
            ReplyCode::Succeeded => 0x00,
            ReplyCode::GeneralFailure => 0x01,
            ReplyCode::HostUnreachable => 0x04,
            ReplyCode::ConnectionRefused => 0x05,
            ReplyCode::CommandNotSupported => 0x07,
            ReplyCode::AddressTypeNotSupported => 0x08,
        }
    }
}

/// A port in network byte order: high byte first.
pub open spec fn spec_port_bytes(port: u16) -> Seq<u8> {
    seq![(port / 256) as u8, (port % 256) as u8]
}

/// The port that two bytes in network byte order stand for.
pub open spec fn spec_port_of(hi: u8, lo: u8) -> u16 {
    (hi as int * 256 + lo as int) as u16
}

/// Reads a port from its two bytes, high byte first.
pub fn port_of(hi: u8, lo: u8) -> (port: u16)
    ensures
        port == spec_port_of(hi, lo),
        spec_port_bytes(port) == seq![hi, lo],
{
    let port: u16 = (hi as u16) * 256 + (lo as u16);
    assert(spec_port_bytes(port) =~= seq![hi, lo]);
    port
}

/// A reply frame: version, code, reserved zero, bound address, bound port.
pub open spec fn spec_reply(code: ReplyCode, bound: AddressModel, port: u16) -> Seq<u8> {
    seq![SOCKS_VERSION, code.spec_code(), 0u8] + spec_encode(bound) + spec_port_bytes(port)
}

/// The reply frame whose bound address and port are the all-zero placeholder.
pub open spec fn spec_plain_reply(code: ReplyCode) -> Seq<u8> {
    seq![SOCKS_VERSION, code.spec_code(), 0u8, 1u8, 0u8, 0u8, 0u8, 0u8, 0u8, 0u8]
}

/// The answer to a greeting: version and the selected method.
pub open spec fn spec_method_reply(method: u8) -> Seq<u8> {
    seq![SOCKS_VERSION, method]
}

/// The answer to a username/password exchange: its version and a status.
pub open spec fn spec_auth_reply(status: u8) -> Seq<u8> {
    seq![AUTH_VERSION, status]
}

/// Builds a reply frame that reports `code` with the given bound address.
pub fn encode_reply(code: ReplyCode, bound: &AddressSpec, port: u16) -> (out: Vec<u8>)
    requires
        bound.wf(),
    ensures
        out@ == spec_reply(code, bound@, port),
{
    let mut out: Vec<u8> = Vec::new();
    out.push(SOCKS_VERSION);
    out.push(code.code());
    out.push(0u8);
    let a = encode(bound);
    append_bytes(&mut out, a.as_slice());
    out.push((port / 256) as u8);
    out.push((port % 256) as u8);
    assert(out@ =~= spec_reply(code, bound@, port));
    out
}

/// Builds the reply frame that reports `code` with the placeholder address
/// 0.0.0.0 and port 0.
pub fn plain_reply(code: ReplyCode) -> (out: Vec<u8>)
    ensures
        out@ == spec_plain_reply(code),
        out@ == spec_reply(code, AddressModel::IPv4(seq![0u8, 0u8, 0u8, 0u8]), 0),
{
    let bound = AddressSpec::IPv4([0u8, 0u8, 0u8, 0u8]);
    assert(bound@ == AddressModel::IPv4(seq![0u8, 0u8, 0u8, 0u8])) by {
        assert(bound->IPv4_0@ =~= seq![0u8, 0u8, 0u8, 0u8]);
    }
    let out = encode_reply(code, &bound, 0);
    assert(out@ =~= spec_plain_reply(code));
    out
}

/// Builds the answer to a greeting.
pub fn method_reply(method: u8) -> (out: Vec<u8>)
    ensures
        out@ == spec_method_reply(method),
{
    let mut out: Vec<u8> = Vec::new();
    out.push(SOCKS_VERSION);
    out.push(method);
    assert(out@ =~= spec_method_reply(method));
    out
}

/// Builds the answer to a username/password exchange.
pub fn auth_reply(status: u8) -> (out: Vec<u8>)
    ensures
        out@ == spec_auth_reply(status),
{
    let mut out: Vec<u8> = Vec::new();
    out.push(AUTH_VERSION);
    out.push(status);
    assert(out@ =~= spec_auth_reply(status));
    out
}

} // verus!
