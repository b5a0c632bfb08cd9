//! Wire encoding of SOCKS5 target addresses.

use vstd::prelude::*;
use crate::bytes::{append_bytes, copy_range};

verus! {

/// Address-type tag of an IPv4 literal.
pub const ATYP_IPV4: u8 = 0x01;

/// Address-type tag of a domain name.
pub const ATYP_DOMAIN: u8 = 0x03;

/// Address-type tag of an IPv6 literal.
pub const ATYP_IPV6: u8 = 0x04;

/// Longest domain name that the one-byte length prefix can announce.
pub const MAX_DOMAIN_LEN: usize = 255;

/// A target address as the client names it.
#[derive(Clone, Debug, PartialEq, Eq)]
pub enum AddressSpec {
    IPv4([u8; 4]),
    IPv6([u8; 16]),
    Domain(Vec<u8>),
}

/// Mathematical value of an [`AddressSpec`]: the variant and its bytes.
pub enum AddressModel {
    IPv4(Seq<u8>),
    IPv6(Seq<u8>),
    Domain(Seq<u8>),
}

/// Why a byte string is not an encoded address.
#[derive(Clone, Copy, Debug, PartialEq, Eq, Structural)]
pub enum DecodeError {
    /// The tag is none of the three address types.
    UnknownType,
    /// Fewer bytes are present than the tag and length announce.
    Truncated,
    /// A domain name of length zero.
    EmptyDomain,
}

impl View for AddressSpec {
    type V = AddressModel;

    open spec fn view(&self) -> AddressModel {
        match self {
            AddressSpec::IPv4(b) => AddressModel::IPv4(b@),
            AddressSpec::IPv6(b) => AddressModel::IPv6(b@),
            AddressSpec::Domain(n) => AddressModel::Domain(n@),
        }
    }
}

impl AddressModel {
    /// The byte counts that the wire format allows for each variant.
    pub open spec fn valid(self) -> bool {
        match self {
            AddressModel::IPv4(b) => b.len() == 4,
            AddressModel::IPv6(b) => b.len() == 16,
            AddressModel::Domain(n) => 1 <= n.len() <= 255,
        }
    }

    /// Number of bytes of the encoded form.
    pub open spec fn encoded_len(self) -> int {
        match self {
            AddressModel::IPv4(b) => 1 + b.len() as int,
            AddressModel::IPv6(b) => 1 + b.len() as int,
            AddressModel::Domain(n) => 2 + n.len() as int,
        }
    }
}

/// The encoded form: tag, then for a domain its length, then the bytes.
pub open spec fn spec_encode(a: AddressModel) -> Seq<u8> {
    match a {
        AddressModel::IPv4(b) => seq![ATYP_IPV4] + b,
        AddressModel::IPv6(b) => seq![ATYP_IPV6] + b,
        AddressModel::Domain(n) => seq![ATYP_DOMAIN, n.len() as u8] + n,
    }
}

/// What the front of `s` decodes to, with the number of bytes it takes.
pub open spec fn spec_decode(s: Seq<u8>) -> Result<(AddressModel, int), DecodeError> {
    if s.len() == 0 {
        Err(DecodeError::Truncated)
    } else if s[0] == ATYP_IPV4 {
        if s.len() < 5 {
            Err(DecodeError::Truncated)
        } else {
            Ok((AddressModel::IPv4(s.subrange(1, 5)), 5))
        }
    } else if s[0] == ATYP_IPV6 {
        if s.len() < 17 {
            Err(DecodeError::Truncated)
        } else {
            Ok((AddressModel::IPv6(s.subrange(1, 17)), 17))
        }
    } else if s[0] == ATYP_DOMAIN {
        if s.len() < 2 {
            Err(DecodeError::Truncated)
        } else if s[1] == 0 {
            Err(DecodeError::EmptyDomain)
        } else if s.len() < 2 + s[1] {
            Err(DecodeError::Truncated)
        } else {
            Ok((AddressModel::Domain(s.subrange(2, 2 + s[1] as int)), 2 + s[1] as int))
        }
    } else {
        Err(DecodeError::UnknownType)
    }
}

impl AddressSpec {
    /// Holds when a domain name is non-empty and fits its length prefix.
    pub open spec fn wf(&self) -> bool {
        self@.valid()
    }

    /// Tests the invariant of the domain variant.
    pub fn is_valid(&self) -> (ok: bool)
        ensures
            ok == self.wf(),
    {
        match self {
            AddressSpec::IPv4(_) => true,
            AddressSpec::IPv6(_) => true,
            AddressSpec::Domain(n) => 1 <= n.len() && n.len() <= MAX_DOMAIN_LEN,
        }
    }
}

/// Serialises an address: tag, length prefix for a domain, then the bytes.
pub fn encode(a: &AddressSpec) -> (out: Vec<u8>)
    requires
        a.wf(),
    ensures
        out@ == spec_encode(a@),
        out@.len() == a@.encoded_len(),
{
    let mut out: Vec<u8> = Vec::new();
    match a {
        AddressSpec::IPv4(b) => {
            out.push(ATYP_IPV4);
            append_bytes(&mut out, b.as_slice());
            assert(out@ =~= spec_encode(a@));
        },
        AddressSpec::IPv6(b) => {
            out.push(ATYP_IPV6);
            append_bytes(&mut out, b.as_slice());
            assert(out@ =~= spec_encode(a@));
        },
        AddressSpec::Domain(n) => {
            out.push(ATYP_DOMAIN);
            out.push(n.len() as u8);
            append_bytes(&mut out, n.as_slice());
            assert(out@ =~= spec_encode(a@));
        },
    }
    out
}

/// Parses the address at the front of `bytes`, returning it with the number
/// of bytes it occupied. Bytes after the address are left alone.
pub fn decode(bytes: &[u8]) -> (r: Result<(AddressSpec, usize), DecodeError>)
    ensures
        match spec_decode(bytes@) {
            Ok((m, n)) => r matches Ok((a, k)) && a@ == m && k == n && a.wf(),
            Err(e) => r == Err::<(AddressSpec, usize), DecodeError>(e),
        },
{
    if bytes.len() == 0 {
        return Err(DecodeError::Truncated);
    }
    let tag: u8 = bytes[0];
    if tag == ATYP_IPV4 {
        if bytes.len() < 5 {
            return Err(DecodeError::Truncated);
        }
        let ip: [u8; 4] = [bytes[1], bytes[2], bytes[3], bytes[4]];
        assert(ip@ =~= bytes@.subrange(1, 5));
        Ok((AddressSpec::IPv4(ip), 5))
    } else if tag == ATYP_IPV6 {
        if bytes.len() < 17 {
            return Err(DecodeError::Truncated);
        }
        let ip: [u8; 16] = [
            bytes[1], bytes[2], bytes[3], bytes[4], bytes[5], bytes[6], bytes[7], bytes[8],
            bytes[9], bytes[10], bytes[11], bytes[12], bytes[13], bytes[14], bytes[15], bytes[16],
        ];
        assert(ip@ =~= bytes@.subrange(1, 17));
        Ok((AddressSpec::IPv6(ip), 17))
    } else if tag == ATYP_DOMAIN {
        if bytes.len() < 2 {
            return Err(DecodeError::Truncated);
        }
        let n: usize = bytes[1] as usize;
        if n == 0 {
            return Err(DecodeError::EmptyDomain);
        }
        if bytes.len() < 2 + n {
            return Err(DecodeError::Truncated);
        }
        let name = copy_range(bytes, 2, 2 + n);
        Ok((AddressSpec::Domain(name), 2 + n))
    } else {
        Err(DecodeError::UnknownType)
    }
}

/// Decoding an encoded address gives the address back and takes every byte,
/// whatever follows it in the input.
pub proof fn lemma_decode_encode(a: AddressModel, rest: Seq<u8>)
    requires
        a.valid(),
    ensures
        spec_decode(spec_encode(a) + rest) == Ok::<(AddressModel, int), DecodeError>(
            (a, a.encoded_len()),
        ),
        spec_decode(spec_encode(a)) == Ok::<(AddressModel, int), DecodeError>(
            (a, a.encoded_len()),
        ),
{
    let e = spec_encode(a);
    let s = e + rest;
    match a {
        AddressModel::IPv4(b) => {
            assert(s.subrange(1, 5) =~= b);
            assert(e.subrange(1, 5) =~= b);
        },
        AddressModel::IPv6(b) => {
            assert(s.subrange(1, 17) =~= b);
            assert(e.subrange(1, 17) =~= b);
        },
        AddressModel::Domain(n) => {
            assert(s[1] == n.len() as u8);
            assert(e[1] == n.len() as u8);
            assert(s.subrange(2, 2 + n.len() as int) =~= n);
            assert(e.subrange(2, 2 + n.len() as int) =~= n);
        },
    }
}

/// Decoding looks at the address only: once the bytes suffice to decide,
/// bytes that follow change nothing.
pub proof fn lemma_decode_ignores_what_follows(s: Seq<u8>, rest: Seq<u8>)
    requires
        spec_decode(s) != Err::<(AddressModel, int), DecodeError>(DecodeError::Truncated),
    ensures
        spec_decode(s + rest) == spec_decode(s),
{
    let t = s + rest;
    assert(s.len() > 0);
    assert(t[0] == s[0]);
    if s[0] == ATYP_IPV4 {
        assert(t.subrange(1, 5) =~= s.subrange(1, 5));
    } else if s[0] == ATYP_IPV6 {
        assert(t.subrange(1, 17) =~= s.subrange(1, 17));
    } else if s[0] == ATYP_DOMAIN {
        assert(t[1] == s[1]);
        if s[1] != 0 {
            assert(t.subrange(2, 2 + s[1] as int) =~= s.subrange(2, 2 + s[1] as int));
        }
    }
}

} // verus!
