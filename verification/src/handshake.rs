//! The handshake: greeting, optional password exchange, and request, parsed
//! from the bytes that the client has sent so far.

use vstd::prelude::*;
use vstd::slice::slice_subrange;
use crate::addr::{
    decode, lemma_decode_ignores_what_follows, spec_decode, AddressModel, AddressSpec,
    DecodeError,
};
use crate::bytes::{copy_range, has_byte};
use crate::wire::{
    port_of, spec_port_of, AUTH_VERSION, CMD_CONNECT, METHOD_NO_AUTH, METHOD_PASSWORD,
    SOCKS_VERSION,
};

verus! {

/// Why a handshake was refused.
#[derive(Clone, Copy, Debug, PartialEq, Eq, Structural)]
pub enum ProtocolError {
    /// The version byte is not the protocol's version.
    BadVersion,
    /// The greeting offers no method that this proxy accepts.
    NoAcceptableMethod,
    /// The request asks for a command other than CONNECT.
    UnsupportedCommand,
    /// The target address of the request cannot be decoded.
    BadAddress(DecodeError),
    /// The password exchange was malformed or gave the wrong password.
    AuthFailed,
}

/// The command of a request. Only CONNECT is served.
#[derive(Clone, Copy, Debug, PartialEq, Eq, Structural)]
pub enum Command {
    Connect,
}

/// The target that a client asked for. Made once by the handshake and never
/// changed afterwards.
#[derive(Clone, Debug, PartialEq, Eq)]
pub struct ProxyInfo {
    command: Command,
    address: AddressSpec,
    port: u16,
}

/// Mathematical value of a [`ProxyInfo`].
pub struct ProxyInfoModel {
    pub command: Command,
    pub address: AddressModel,
    pub port: u16,
}

impl View for ProxyInfo {
    type V = ProxyInfoModel;

    closed spec fn view(&self) -> ProxyInfoModel {
        ProxyInfoModel { command: self.command, address: self.address@, port: self.port }
    }
}

impl ProxyInfo {
    /// Holds when the target address satisfies its invariant.
    pub open spec fn wf(&self) -> bool {
        self@.address.valid()
    }

    /// Describes a CONNECT to `address` and `port`.
    pub fn new(address: AddressSpec, port: u16) -> (info: ProxyInfo)
        ensures
            info@ == (ProxyInfoModel { command: Command::Connect, address: address@, port }),
    {
        ProxyInfo { command: Command::Connect, address, port }
    }

    /// The requested command.
    pub fn command(&self) -> (c: Command)
        ensures
            c == self@.command,
    {
        self.command
    }

    /// The target address.
    pub fn address(&self) -> (a: &AddressSpec)
        ensures
            a@ == self@.address,
    {
        &self.address
    }

    /// The target port.
    pub fn port(&self) -> (p: u16)
        ensures
            p == self@.port,
    {
        self.port
    }
}

/// Username and password of a password exchange.
#[derive(Clone, Debug, PartialEq, Eq)]
pub struct Credentials {
    pub username: Vec<u8>,
    pub password: Vec<u8>,
}

/// Mathematical value of [`Credentials`].
pub struct CredentialsModel {
    pub username: Seq<u8>,
    pub password: Seq<u8>,
}

impl View for Credentials {
    type V = CredentialsModel;

    open spec fn view(&self) -> CredentialsModel {
        CredentialsModel { username: self.username@, password: self.password@ }
    }
}

/// What the bytes received so far amount to, as a mathematical value.
pub enum Parse<M> {
    /// A proper prefix of a message: more bytes are needed.
    Incomplete,
    /// The bytes cannot begin a valid message.
    Invalid(ProtocolError),
    /// A whole message and the number of bytes it took.
    Complete(M, int),
}

/// What the bytes received so far amount to.
#[derive(Clone, Debug, PartialEq, Eq)]
pub enum Parsed<T> {
    /// A proper prefix of a message: more bytes are needed.
    Incomplete,
    /// The bytes cannot begin a valid message.
    Invalid(ProtocolError),
    /// A whole message and the number of bytes it took.
    Complete(T, usize),
}

impl<T: View> View for Parsed<T> {
    type V = Parse<T::V>;

    open spec fn view(&self) -> Parse<T::V> {
        match self {
            Parsed::Incomplete => Parse::Incomplete,
            Parsed::Invalid(e) => Parse::Invalid(*e),
            Parsed::Complete(v, n) => Parse::Complete(v@, *n as int),
        }
    }
}

/// The greeting at the front of `s`: version, method count, methods. Its
/// value is the list of offered methods.
pub open spec fn spec_parse_greeting(s: Seq<u8>) -> Parse<Seq<u8>> {
    if s.len() < 1 {
        Parse::Incomplete
    } else if s[0] != SOCKS_VERSION {
        Parse::Invalid(ProtocolError::BadVersion)
    } else if s.len() < 2 {
        Parse::Incomplete
    } else if s[1] == 0 {
        Parse::Invalid(ProtocolError::NoAcceptableMethod)
    } else if s.len() < 2 + s[1] {
        Parse::Incomplete
    } else {
        Parse::Complete(s.subrange(2, 2 + s[1] as int), 2 + s[1] as int)
    }
}

/// The method chosen among those offered: no authentication where it is
/// offered, else username/password where a password is configured.
pub open spec fn spec_select_method(methods: Seq<u8>, password_set: bool) -> Option<u8> {
    if methods.contains(METHOD_NO_AUTH) {
        Some(METHOD_NO_AUTH)
    } else if password_set && methods.contains(METHOD_PASSWORD) {
        Some(METHOD_PASSWORD)
    } else {
        None
    }
}

/// The password exchange at the front of `s`: version, username with its
/// length, password with its length.
pub open spec fn spec_parse_auth(s: Seq<u8>) -> Parse<CredentialsModel> {
    if s.len() < 1 {
        Parse::Incomplete
    } else if s[0] != AUTH_VERSION {
        Parse::Invalid(ProtocolError::AuthFailed)
    } else if s.len() < 2 {
        Parse::Incomplete
    } else if s.len() < 3 + s[1] {
        Parse::Incomplete
    } else if s.len() < 3 + s[1] + s[2 + s[1]] {
        Parse::Incomplete
    } else {
        Parse::Complete(
            CredentialsModel {
                username: s.subrange(2, 2 + s[1] as int),
                password: s.subrange(3 + s[1] as int, 3 + s[1] + s[2 + s[1]]),
            },
            3 + s[1] + s[2 + s[1]],
        )
    }
}

/// The request at the front of `s`: version, command, reserved byte, target
/// address, port in network byte order.
pub open spec fn spec_parse_request(s: Seq<u8>) -> Parse<ProxyInfoModel> {
    if s.len() < 1 {
        Parse::Incomplete
    } else if s[0] != SOCKS_VERSION {
        Parse::Invalid(ProtocolError::BadVersion)
    } else if s.len() < 2 {
        Parse::Incomplete
    } else if s[1] != CMD_CONNECT {
        Parse::Invalid(ProtocolError::UnsupportedCommand)
    } else if s.len() < 3 {
        Parse::Incomplete
    } else {
        match spec_decode(s.subrange(3, s.len() as int)) {
            Err(DecodeError::Truncated) => Parse::Incomplete,
            Err(e) => Parse::Invalid(ProtocolError::BadAddress(e)),
            Ok((address, n)) => if s.len() < 3 + n + 2 {
                Parse::Incomplete
            } else {
                Parse::Complete(
                    ProxyInfoModel {
                        command: Command::Connect,
                        address,
                        port: spec_port_of(s[3 + n], s[3 + n + 1]),
                    },
                    3 + n + 2,
                )
            },
        }
    }
}

/// Parses a greeting from the bytes received so far.
pub fn parse_greeting(bytes: &[u8]) -> (r: Parsed<Vec<u8>>)
    ensures
        r@ == spec_parse_greeting(bytes@),
{
    if bytes.len() < 1 {
        return Parsed::Incomplete;
    }
    if bytes[0] != SOCKS_VERSION {
        return Parsed::Invalid(ProtocolError::BadVersion);
    }
    if bytes.len() < 2 {
        return Parsed::Incomplete;
    }
    let n: usize = bytes[1] as usize;
    if n == 0 {
        return Parsed::Invalid(ProtocolError::NoAcceptableMethod);
    }
    if bytes.len() < 2 + n {
        return Parsed::Incomplete;
    }
    Parsed::Complete(copy_range(bytes, 2, 2 + n), 2 + n)
}

/// Chooses the method to answer a greeting with, if any is acceptable.
pub fn select_method(methods: &[u8], password_set: bool) -> (m: Option<u8>)
    ensures
        m == spec_select_method(methods@, password_set),
{
    if has_byte(methods, METHOD_NO_AUTH) {
        Some(METHOD_NO_AUTH)
    } else if password_set && has_byte(methods, METHOD_PASSWORD) {
        Some(METHOD_PASSWORD)
    } else {
        None
    }
}

/// Parses a password exchange from the bytes received so far.
pub fn parse_auth(bytes: &[u8]) -> (r: Parsed<Credentials>)
    ensures
        r@ == spec_parse_auth(bytes@),
{
    if bytes.len() < 1 {
        return Parsed::Incomplete;
    }
    if bytes[0] != AUTH_VERSION {
        return Parsed::Invalid(ProtocolError::AuthFailed);
    }
    if bytes.len() < 2 {
        return Parsed::Incomplete;
    }
    let u: usize = bytes[1] as usize;
    if bytes.len() < 3 + u {
        return Parsed::Incomplete;
    }
    let p: usize = bytes[2 + u] as usize;
    if bytes.len() < 3 + u + p {
        return Parsed::Incomplete;
    }
    let username = copy_range(bytes, 2, 2 + u);
    let password = copy_range(bytes, 3 + u, 3 + u + p);
    Parsed::Complete(Credentials { username, password }, 3 + u + p)
}

/// Parses a request from the bytes received so far.
pub fn parse_request(bytes: &[u8]) -> (r: Parsed<ProxyInfo>)
    ensures
        r@ == spec_parse_request(bytes@),
        r matches Parsed::Complete(info, _) ==> info.wf(),
{
    if bytes.len() < 1 {
        return Parsed::Incomplete;
    }
    if bytes[0] != SOCKS_VERSION {
        return Parsed::Invalid(ProtocolError::BadVersion);
    }
    if bytes.len() < 2 {
        return Parsed::Incomplete;
    }
    if bytes[1] != CMD_CONNECT {
        return Parsed::Invalid(ProtocolError::UnsupportedCommand);
    }
    if bytes.len() < 3 {
        return Parsed::Incomplete;
    }
    let tail = slice_subrange(bytes, 3, bytes.len());
    match decode(tail) {
        Err(DecodeError::Truncated) => Parsed::Incomplete,
        Err(e) => Parsed::Invalid(ProtocolError::BadAddress(e)),
        Ok((address, n)) => {
            if bytes.len() - 3 < n + 2 {
                Parsed::Incomplete
            } else {
                let port = port_of(bytes[3 + n], bytes[3 + n + 1]);
                Parsed::Complete(ProxyInfo::new(address, port), 3 + n + 2)
            }
        },
    }
}

/// A greeting is read from its own bytes alone: once they suffice to
/// decide, bytes that follow change nothing.
pub proof fn lemma_greeting_ignores_what_follows(s: Seq<u8>, rest: Seq<u8>)
    requires
        !(spec_parse_greeting(s) is Incomplete),
    ensures
        spec_parse_greeting(s + rest) == spec_parse_greeting(s),
{
    let t = s + rest;
    assert(t[0] == s[0]);
    if s[0] == SOCKS_VERSION {
        assert(t[1] == s[1]);
        if s[1] != 0 {
            assert(t.subrange(2, 2 + s[1] as int) =~= s.subrange(2, 2 + s[1] as int));
        }
    }
}

/// A password exchange is read from its own bytes alone.
pub proof fn lemma_auth_ignores_what_follows(s: Seq<u8>, rest: Seq<u8>)
    requires
        !(spec_parse_auth(s) is Incomplete),
    ensures
        spec_parse_auth(s + rest) == spec_parse_auth(s),
{
    let t = s + rest;
    assert(t[0] == s[0]);
    if s[0] == AUTH_VERSION {
        assert(t[1] == s[1]);
        assert(t[2 + s[1]] == s[2 + s[1]]);
        let u = s[1] as int;
        let p = s[2 + u] as int;
        assert(t.subrange(2, 2 + u) =~= s.subrange(2, 2 + u));
        assert(t.subrange(3 + u, 3 + u + p) =~= s.subrange(3 + u, 3 + u + p));
    }
}

/// A request is read from its own bytes alone.
pub proof fn lemma_request_ignores_what_follows(s: Seq<u8>, rest: Seq<u8>)
    requires
        !(spec_parse_request(s) is Incomplete),
    ensures
        spec_parse_request(s + rest) == spec_parse_request(s),
{
    let t = s + rest;
    assert(t[0] == s[0]);
    if s[0] == SOCKS_VERSION {
        assert(t[1] == s[1]);
        if s[1] == CMD_CONNECT {
            let tail = s.subrange(3, s.len() as int);
            assert(t.subrange(3, t.len() as int) =~= tail + rest);
            lemma_decode_ignores_what_follows(tail, rest);
            match spec_decode(tail) {
                Ok((_, n)) => {
                    assert(t[3 + n] == s[3 + n]);
                    assert(t[3 + n + 1] == s[3 + n + 1]);
                },
                Err(_) => {},
            }
        }
    }
}

} // verus!
