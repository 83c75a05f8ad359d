//! The TUIC address: its model, its byte encoding, and a parser for it.
//!
//! On the wire an address is a type octet followed by its body:
//! `0xff` for no address, `0x00` for a domain (a length octet, the domain's
//! UTF-8 bytes, a port), `0x01` for IPv4 (4 octets, a port) and `0x02` for
//! IPv6 (16 octets, a port). Ports are big-endian.
use vstd::prelude::*;
use vstd::utf8::*;

use crate::net::{SocketAddr, SocketAddrV4, SocketAddrV6};

verus! {

broadcast use vstd::array::group_array_axioms;

pub const ADDRESS_TYPE_NONE: u8 = 0xff;
pub const ADDRESS_TYPE_DOMAIN: u8 = 0x00;
pub const ADDRESS_TYPE_IPV4: u8 = 0x01;
pub const ADDRESS_TYPE_IPV6: u8 = 0x02;

/// Why a byte sequence is not a TUIC header or address.
#[derive(Clone, Copy, Debug, PartialEq, Eq, Structural)]
pub enum UnmarshalError {
    /// The input ended before the header or address did.
    UnexpectedEof,
    /// The version octet is not the TUIC version.
    InvalidVersion(u8),
    /// The command octet names no command.
    InvalidCommand(u8),
    /// The address type octet names no address type.
    InvalidAddressType(u8),
    /// A domain's bytes are not valid UTF-8.
    AddressInvalidEncoding,
}

/// A TUIC address: none, a domain with a port, or a socket address.
#[derive(Clone, Debug, PartialEq, Eq)]
pub enum Address {
    NoAddress,
    DomainAddress(String, u16),
    SocketAddress(SocketAddr),
}

/// The model of an [`Address`]: a domain is its sequence of characters.
pub enum AddressView {
    NoAddress,
    Domain(Seq<char>, u16),
    Socket(SocketAddr),
}

impl View for Address {
    type V = AddressView;

    open spec fn view(&self) -> AddressView {
        match self {
            Address::NoAddress => AddressView::NoAddress,
            Address::DomainAddress(d, p) => AddressView::Domain(d@, *p),
            Address::SocketAddress(a) => AddressView::Socket(*a),
        }
    }
}

/// A port in network order.
pub open spec fn be16(v: u16) -> Seq<u8> {
    seq![(v / 256) as u8, (v % 256) as u8]
}

/// The port whose network-order octets are `hi` and `lo`.
pub open spec fn from_be16(hi: u8, lo: u8) -> u16 {
    (hi as int * 256 + lo as int) as u16
}

/// The bytes of an address on the wire. The length octet of a domain holds
/// its byte length modulo 256.
pub open spec fn encode_address(a: AddressView) -> Seq<u8> {
    match a {
        AddressView::NoAddress => seq![ADDRESS_TYPE_NONE],
        AddressView::Domain(d, port) => seq![ADDRESS_TYPE_DOMAIN, (encode_utf8(d).len() % 256) as u8]
            + encode_utf8(d) + be16(port),
        AddressView::Socket(SocketAddr::V4(s)) => seq![ADDRESS_TYPE_IPV4] + s.ip@ + be16(s.port),
        AddressView::Socket(SocketAddr::V6(s)) => seq![ADDRESS_TYPE_IPV6] + s.ip@ + be16(s.port),
    }
}

/// The number of bytes an address takes on the wire.
pub open spec fn address_len(a: AddressView) -> nat {
    match a {
        AddressView::NoAddress => 1,
        AddressView::Domain(d, _) => 1 + 1 + encode_utf8(d).len() + 2,
        AddressView::Socket(SocketAddr::V4(_)) => 1 + 4 + 2,
        AddressView::Socket(SocketAddr::V6(_)) => 1 + 16 + 2,
    }
}

/// An address that its encoding gives back: a domain of at most 255 bytes,
/// and an IPv6 socket address without flow information or scope (the wire
/// carries neither).
pub open spec fn address_wf(a: AddressView) -> bool {
    match a {
        AddressView::Domain(d, _) => encode_utf8(d).len() <= 255,
        AddressView::Socket(SocketAddr::V6(s)) => s.flowinfo == 0 && s.scope_id == 0,
        _ => true,
    }
}

/// The IPv4 octets at `s[off..off + 4]`.
pub open spec fn octets4(s: Seq<u8>, off: int) -> [u8; 4] {
    [s[off], s[off + 1], s[off + 2], s[off + 3]]
}

/// The IPv6 octets at `s[off..off + 16]`.
pub open spec fn octets16(s: Seq<u8>, off: int) -> [u8; 16] {
    [
        s[off], s[off + 1], s[off + 2], s[off + 3], s[off + 4], s[off + 5], s[off + 6], s[off + 7],
        s[off + 8], s[off + 9], s[off + 10], s[off + 11], s[off + 12], s[off + 13], s[off + 14],
        s[off + 15],
    ]
}

/// Parses an address at the start of `s`: the address and the number of
/// bytes it took, or why `s` does not start with one.
pub open spec fn parse_address(s: Seq<u8>) -> Result<(AddressView, int), UnmarshalError> {
    if s.len() < 1 {
        Err(UnmarshalError::UnexpectedEof)
    } else if s[0] == ADDRESS_TYPE_NONE {
        Ok((AddressView::NoAddress, 1))
    } else if s[0] == ADDRESS_TYPE_DOMAIN {
        if s.len() < 2 {
            Err(UnmarshalError::UnexpectedEof)
        } else {
            let n = s[1] as int;
            if s.len() < 2 + n + 2 {
                Err(UnmarshalError::UnexpectedEof)
            } else {
                let bytes = s.subrange(2, 2 + n);
                if valid_utf8(bytes) {
                    Ok(
                        (
                            AddressView::Domain(decode_utf8(bytes), from_be16(s[2 + n], s[3 + n])),
                            4 + n,
                        ),
                    )
                } else {
                    Err(UnmarshalError::AddressInvalidEncoding)
                }
            }
        }
    } else if s[0] == ADDRESS_TYPE_IPV4 {
        if s.len() < 7 {
            Err(UnmarshalError::UnexpectedEof)
        } else {
            Ok(
                (
                    AddressView::Socket(
                        SocketAddr::V4(SocketAddrV4 { ip: octets4(s, 1), port: from_be16(s[5], s[6]) }),
                    ),
                    7,
                ),
            )
        }
    } else if s[0] == ADDRESS_TYPE_IPV6 {
        if s.len() < 19 {
            Err(UnmarshalError::UnexpectedEof)
        } else {
            Ok(
                (
                    AddressView::Socket(
                        SocketAddr::V6(
                            SocketAddrV6 {
                                ip: octets16(s, 1),
                                port: from_be16(s[17], s[18]),
                                flowinfo: 0,
                                scope_id: 0,
                            },
                        ),
                    ),
                    19,
                ),
            )
        }
    } else {
        Err(UnmarshalError::InvalidAddressType(s[0]))
    }
}

/// The octets of a port, in network order.
pub proof fn lemma_be16(v: u16)
    ensures
        from_be16((v / 256) as u8, (v % 256) as u8) == v,
{
}

/// Splitting a port into network-order octets and back gives the port.
pub proof fn lemma_be16_roundtrip(hi: u8, lo: u8)
    ensures
        be16(from_be16(hi, lo)) == seq![hi, lo],
{
    assert(be16(from_be16(hi, lo)) =~= seq![hi, lo]);
}

/// An address takes on the wire exactly the bytes its length counts.
pub proof fn lemma_address_len(a: AddressView)
    ensures
        encode_address(a).len() == address_len(a),
{
}

/// Parsing the encoding of a well-formed address, whatever bytes follow it,
/// gives back the address and the length of its encoding.
pub proof fn lemma_address_roundtrip(a: AddressView, rest: Seq<u8>)
    requires
        address_wf(a),
    ensures
        parse_address(encode_address(a) + rest) == Ok::<(AddressView, int), UnmarshalError>(
            (a, encode_address(a).len() as int),
        ),
{
    let e = encode_address(a);
    let s = e + rest;
    match a {
        AddressView::NoAddress => {},
        AddressView::Domain(d, port) => {
            let b = encode_utf8(d);
            let n = b.len() as int;
            encode_utf8_valid_utf8(d);
            encode_utf8_decode_utf8(d);
            assert(s[1] as int == n);
            assert(s.subrange(2, 2 + n) =~= b);
            assert(s[2 + n] == (port / 256) as u8);
            assert(s[3 + n] == (port % 256) as u8);
        },
        AddressView::Socket(SocketAddr::V4(v4)) => {
            assert(octets4(s, 1) =~= v4.ip);
        },
        AddressView::Socket(SocketAddr::V6(v6)) => {
            assert(octets16(s, 1) =~= v6.ip);
        },
    }
}

/// Whatever the parser accepts is a well-formed address, written in the
/// only way it encodes: the bytes it took are the address's encoding.
pub proof fn lemma_address_parse_canonical(s: Seq<u8>)
    requires
        parse_address(s) is Ok,
    ensures
        ({
            let (a, n) = parse_address(s)->Ok_0;
            &&& address_wf(a)
            &&& 0 < n <= s.len()
            &&& encode_address(a) == s.subrange(0, n)
        }),
{
    let (a, n) = parse_address(s)->Ok_0;
    if s[0] == ADDRESS_TYPE_NONE {
        assert(encode_address(a) =~= s.subrange(0, n));
    } else if s[0] == ADDRESS_TYPE_DOMAIN {
        let len = s[1] as int;
        let bytes = s.subrange(2, 2 + len);
        decode_utf8_encode_utf8(bytes);
        lemma_be16_roundtrip(s[2 + len], s[3 + len]);
        assert(encode_address(a) =~= s.subrange(0, n));
    } else if s[0] == ADDRESS_TYPE_IPV4 {
        lemma_be16_roundtrip(s[5], s[6]);
        assert(octets4(s, 1)@ =~= s.subrange(1, 5));
        assert(encode_address(a) =~= s.subrange(0, n));
    } else {
        lemma_be16_roundtrip(s[17], s[18]);
        assert(octets16(s, 1)@ =~= s.subrange(1, 17));
        assert(encode_address(a) =~= s.subrange(0, n));
    }
}

/// Appends `bytes` to `buf`.
pub fn push_bytes(buf: &mut Vec<u8>, bytes: &[u8])
    ensures
        final(buf)@ == old(buf)@ + bytes@,
{
    let mut i: usize = 0;
    while i < bytes.len()
        invariant
            i <= bytes@.len(),
            buf@ == old(buf)@ + bytes@.subrange(0, i as int),
        decreases bytes.len() - i,
    {
        buf.push(bytes[i]);
        i = i + 1;
        proof {
            assert(bytes@.subrange(0, i as int) =~= bytes@.subrange(0, i - 1) + seq![bytes@[i - 1]]);
        }
    }
    proof {
        assert(bytes@.subrange(0, bytes@.len() as int) =~= bytes@);
    }
}

/// Appends a port in network order to `buf`.
pub fn push_be16(buf: &mut Vec<u8>, v: u16)
    ensures
        final(buf)@ == old(buf)@ + be16(v),
{
    buf.push((v / 256) as u8);
    buf.push((v % 256) as u8);
    proof {
        assert(buf@ =~= old(buf)@ + be16(v));
    }
}

/// The port whose network-order octets are `hi` and `lo`.
pub fn read_be16(hi: u8, lo: u8) -> (r: u16)
    ensures
        r == from_be16(hi, lo),
{
    (hi as u16) * 256 + (lo as u16)
}

/// Decodes UTF-8 bytes into a string, if they are valid UTF-8.
#[verifier::external_body]
fn string_from_utf8(bytes: &[u8]) -> (r: Option<String>)
    ensures
        match r {
            Some(s) => valid_utf8(bytes@) && s@ == decode_utf8(bytes@),
            None => !valid_utf8(bytes@),
        },
{
    String::from_utf8(bytes.to_vec()).ok()
}

impl Address {
    /// The number of bytes the address takes on the wire.
    pub fn len(&self) -> (r: usize)
        requires
            address_len(self@) <= usize::MAX,
        ensures
            r == address_len(self@),
    {
        match self {
            Address::NoAddress => 1,
            Address::DomainAddress(d, _) => 1 + 1 + d.as_str().as_bytes().len() + 2,
            Address::SocketAddress(SocketAddr::V4(_)) => 1 + 4 + 2,
            Address::SocketAddress(SocketAddr::V6(_)) => 1 + 16 + 2,
        }
    }

    /// Appends the address's wire bytes to `buf`.
    pub fn marshal(&self, buf: &mut Vec<u8>)
        ensures
            final(buf)@ == old(buf)@ + encode_address(self@),
            final(buf)@.len() == old(buf)@.len() + address_len(self@),
    {
        match self {
            Address::NoAddress => {
                buf.push(ADDRESS_TYPE_NONE);
                proof {
                    assert(buf@ =~= old(buf)@ + encode_address(self@));
                }
            },
            Address::DomainAddress(d, port) => {
                let bytes = d.as_str().as_bytes();
                buf.push(ADDRESS_TYPE_DOMAIN);
                buf.push((bytes.len() % 256) as u8);
                push_bytes(buf, bytes);
                push_be16(buf, *port);
                proof {
                    assert(buf@ =~= old(buf)@ + encode_address(self@));
                }
            },
            Address::SocketAddress(SocketAddr::V4(s)) => {
                buf.push(ADDRESS_TYPE_IPV4);
                push_bytes(buf, s.ip.as_slice());
                push_be16(buf, s.port);
                proof {
                    assert(buf@ =~= old(buf)@ + encode_address(self@));
                }
            },
            Address::SocketAddress(SocketAddr::V6(s)) => {
                buf.push(ADDRESS_TYPE_IPV6);
                push_bytes(buf, s.ip.as_slice());
                push_be16(buf, s.port);
                proof {
                    assert(buf@ =~= old(buf)@ + encode_address(self@));
                }
            },
        }
    }

    /// Parses an address at `buf[pos..]`: the address and the number of bytes
    /// it took, or why those bytes are not an address.
    pub fn unmarshal_at(buf: &[u8], pos: usize) -> (r: Result<(Address, usize), UnmarshalError>)
        requires
            pos <= buf@.len(),
        ensures
            match r {
                Ok((a, n)) => parse_address(buf@.skip(pos as int)) == Ok::<(AddressView, int), UnmarshalError>((a@, n as int)),
                Err(e) => parse_address(buf@.skip(pos as int)) == Err::<(AddressView, int), UnmarshalError>(e),
            },
    {
        let ghost s = buf@.skip(pos as int);
        let len = buf.len();
        if len - pos < 1 {
            return Err(UnmarshalError::UnexpectedEof);
        }
        let t = buf[pos];
        if t == ADDRESS_TYPE_NONE {
            Ok((Address::NoAddress, 1))
        } else if t == ADDRESS_TYPE_DOMAIN {
            if len - pos < 2 {
                return Err(UnmarshalError::UnexpectedEof);
            }
            let n = buf[pos + 1] as usize;
            if len - pos < 2 + n + 2 {
                return Err(UnmarshalError::UnexpectedEof);
            }
            let bytes = slice_range(buf, pos + 2, pos + 2 + n);
            proof {
                assert(bytes@ =~= s.subrange(2, 2 + n as int));
            }
            match string_from_utf8(bytes) {
                Some(d) => {
                    let port = read_be16(buf[pos + 2 + n], buf[pos + 3 + n]);
                    Ok((Address::DomainAddress(d, port), 4 + n))
                },
                None => Err(UnmarshalError::AddressInvalidEncoding),
            }
        } else if t == ADDRESS_TYPE_IPV4 {
            if len - pos < 7 {
                return Err(UnmarshalError::UnexpectedEof);
            }
            let ip = [buf[pos + 1], buf[pos + 2], buf[pos + 3], buf[pos + 4]];
            let port = read_be16(buf[pos + 5], buf[pos + 6]);
            proof {
                assert(ip =~= octets4(s, 1));
            }
            Ok((Address::SocketAddress(SocketAddr::V4(SocketAddrV4 { ip, port })), 7))
        } else if t == ADDRESS_TYPE_IPV6 {
            if len - pos < 19 {
                return Err(UnmarshalError::UnexpectedEof);
            }
            let ip = [
                buf[pos + 1], buf[pos + 2], buf[pos + 3], buf[pos + 4], buf[pos + 5], buf[pos + 6],
                buf[pos + 7], buf[pos + 8], buf[pos + 9], buf[pos + 10], buf[pos + 11],
                buf[pos + 12], buf[pos + 13], buf[pos + 14], buf[pos + 15], buf[pos + 16],
            ];
            let port = read_be16(buf[pos + 17], buf[pos + 18]);
            proof {
                assert(ip =~= octets16(s, 1));
            }
            Ok(
                (
                    Address::SocketAddress(
                        SocketAddr::V6(SocketAddrV6 { ip, port, flowinfo: 0, scope_id: 0 }),
                    ),
                    19,
                ),
            )
        } else {
            Err(UnmarshalError::InvalidAddressType(t))
        }
    }
}

/// The bytes `buf[from..to]`.
pub fn slice_range(buf: &[u8], from: usize, to: usize) -> (r: &[u8])
    requires
        from <= to <= buf@.len(),
    ensures
        r@ == buf@.subrange(from as int, to as int),
{
    vstd::slice::slice_subrange(buf, from, to)
}

} // verus!
