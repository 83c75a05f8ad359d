//! The TUIC command header: its model, its byte encoding, and a parser.
//!
//! A header is the version octet, a command octet and the command's body:
//! `Authenticate` (a 16-byte UUID and a 32-byte token), `Connect` (an
//! address), `Packet` (association and packet ids, fragment count and index,
//! payload size, an address), `Dissociate` (an association id) and
//! `Heartbeat` (nothing). Integers are big-endian.
use vstd::prelude::*;

use crate::address::{
    address_len, address_wf, be16, encode_address, from_be16, lemma_address_len,
    lemma_address_parse_canonical, lemma_address_roundtrip, lemma_be16_roundtrip, parse_address,
    push_be16, push_bytes, read_be16, Address, AddressView, UnmarshalError,
};

verus! {

pub const VERSION: u8 = 0x05;

pub const COMMAND_AUTHENTICATE: u8 = 0x00;
pub const COMMAND_CONNECT: u8 = 0x01;
pub const COMMAND_PACKET: u8 = 0x02;
pub const COMMAND_DISSOCIATE: u8 = 0x03;
pub const COMMAND_HEARTBEAT: u8 = 0x04;

/// `Authenticate`: the client's UUID and its authentication token.
#[derive(Clone, Debug, PartialEq, Eq)]
pub struct Authenticate {
    uuid: [u8; 16],
    token: [u8; 32],
}

/// `Connect`: the target of a TCP relay.
#[derive(Clone, Debug, PartialEq, Eq)]
pub struct Connect {
    addr: Address,
}

/// `Packet`: one fragment of a relayed UDP packet.
#[derive(Clone, Debug, PartialEq, Eq)]
pub struct Packet {
    assoc_id: u16,
    pkt_id: u16,
    frag_total: u8,
    frag_id: u8,
    size: u16,
    addr: Address,
}

/// `Dissociate`: the end of a UDP association.
#[derive(Clone, Debug, PartialEq, Eq)]
pub struct Dissociate {
    assoc_id: u16,
}

/// `Heartbeat`: keeps the connection alive.
#[derive(Clone, Debug, PartialEq, Eq)]
pub struct Heartbeat;

/// A TUIC command header.
#[derive(Clone, Debug, PartialEq, Eq)]
pub enum Header {
    Authenticate(Authenticate),
    Connect(Connect),
    Packet(Packet),
    Dissociate(Dissociate),
    Heartbeat(Heartbeat),
}

/// The model of a [`Header`].
pub enum HeaderView {
    Authenticate { uuid: Seq<u8>, token: Seq<u8> },
    Connect { addr: AddressView },
    Packet {
        assoc_id: u16,
        pkt_id: u16,
        frag_total: u8,
        frag_id: u8,
        size: u16,
        addr: AddressView,
    },
    Dissociate { assoc_id: u16 },
    Heartbeat,
}

impl View for Authenticate {
    type V = HeaderView;

    closed spec fn view(&self) -> HeaderView {
        HeaderView::Authenticate { uuid: self.uuid@, token: self.token@ }
    }
}

impl View for Connect {
    type V = HeaderView;

    closed spec fn view(&self) -> HeaderView {
        HeaderView::Connect { addr: self.addr@ }
    }
}

impl View for Packet {
    type V = HeaderView;

    closed spec fn view(&self) -> HeaderView {
        HeaderView::Packet {
            assoc_id: self.assoc_id,
            pkt_id: self.pkt_id,
            frag_total: self.frag_total,
            frag_id: self.frag_id,
            size: self.size,
            addr: self.addr@,
        }
    }
}

impl View for Dissociate {
    type V = HeaderView;

    closed spec fn view(&self) -> HeaderView {
        HeaderView::Dissociate { assoc_id: self.assoc_id }
    }
}

impl View for Heartbeat {
    type V = HeaderView;

    closed spec fn view(&self) -> HeaderView {
        HeaderView::Heartbeat
    }
}

impl View for Header {
    type V = HeaderView;

    open spec fn view(&self) -> HeaderView {
        match self {
            Header::Authenticate(a) => a@,
            Header::Connect(c) => c@,
            Header::Packet(p) => p@,
            Header::Dissociate(d) => d@,
            Header::Heartbeat(h) => h@,
        }
    }
}

impl Authenticate {
    pub fn new(uuid: [u8; 16], token: [u8; 32]) -> (r: Authenticate)
        ensures
            r@ == (HeaderView::Authenticate { uuid: uuid@, token: token@ }),
    {
        Authenticate { uuid, token }
    }

    pub fn uuid(&self) -> (r: [u8; 16])
        ensures
            self@ == (HeaderView::Authenticate { uuid: r@, token: self@->token }),
    {
        self.uuid
    }

    pub fn token(&self) -> (r: [u8; 32])
        ensures
            self@ == (HeaderView::Authenticate { uuid: self@->uuid, token: r@ }),
    {
        self.token
    }
}

impl Connect {
    pub fn new(addr: Address) -> (r: Connect)
        ensures
            r@ == (HeaderView::Connect { addr: addr@ }),
    {
        Connect { addr }
    }

    pub fn addr(&self) -> (r: &Address)
        ensures
            self@ == (HeaderView::Connect { addr: r@ }),
    {
        &self.addr
    }
}

impl Packet {
    pub fn new(assoc_id: u16, pkt_id: u16, frag_total: u8, frag_id: u8, size: u16, addr: Address) -> (r: Packet)
        ensures
            r@ == (HeaderView::Packet { assoc_id, pkt_id, frag_total, frag_id, size, addr: addr@ }),
    {
        Packet { assoc_id, pkt_id, frag_total, frag_id, size, addr }
    }

    pub fn assoc_id(&self) -> (r: u16)
        ensures
            self@ is Packet && r == self@->Packet_assoc_id,
    {
        self.assoc_id
    }

    pub fn pkt_id(&self) -> (r: u16)
        ensures
            self@ is Packet && r == self@->pkt_id,
    {
        self.pkt_id
    }

    pub fn frag_total(&self) -> (r: u8)
        ensures
            self@ is Packet && r == self@->frag_total,
    {
        self.frag_total
    }

    pub fn frag_id(&self) -> (r: u8)
        ensures
            self@ is Packet && r == self@->frag_id,
    {
        self.frag_id
    }

    pub fn size(&self) -> (r: u16)
        ensures
            self@ is Packet && r == self@->size,
    {
        self.size
    }

    pub fn addr(&self) -> (r: &Address)
        ensures
            self@ is Packet && r@ == self@->Packet_addr,
    {
        &self.addr
    }
}

impl Dissociate {
    pub fn new(assoc_id: u16) -> (r: Dissociate)
        ensures
            r@ == (HeaderView::Dissociate { assoc_id }),
    {
        Dissociate { assoc_id }
    }

    pub fn assoc_id(&self) -> (r: u16)
        ensures
            self@ == (HeaderView::Dissociate { assoc_id: r }),
    {
        self.assoc_id
    }
}

impl Heartbeat {
    pub fn new() -> (r: Heartbeat)
        ensures
            r@ == HeaderView::Heartbeat,
    {
        Heartbeat
    }
}

/// The command octet of a header.
pub open spec fn command_of(h: HeaderView) -> u8 {
    match h {
        HeaderView::Authenticate { .. } => COMMAND_AUTHENTICATE,
        HeaderView::Connect { .. } => COMMAND_CONNECT,
        HeaderView::Packet { .. } => COMMAND_PACKET,
        HeaderView::Dissociate { .. } => COMMAND_DISSOCIATE,
        HeaderView::Heartbeat => COMMAND_HEARTBEAT,
    }
}

/// The bytes of a header's body on the wire.
pub open spec fn encode_body(h: HeaderView) -> Seq<u8> {
    match h {
        HeaderView::Authenticate { uuid, token } => uuid + token,
        HeaderView::Connect { addr } => encode_address(addr),
        HeaderView::Packet { assoc_id, pkt_id, frag_total, frag_id, size, addr } => be16(assoc_id)
            + be16(pkt_id) + seq![frag_total, frag_id] + be16(size) + encode_address(addr),
        HeaderView::Dissociate { assoc_id } => be16(assoc_id),
        HeaderView::Heartbeat => Seq::empty(),
    }
}

/// The bytes of a header on the wire.
pub open spec fn encode_header(h: HeaderView) -> Seq<u8> {
    seq![VERSION, command_of(h)] + encode_body(h)
}

/// The number of bytes a header takes on the wire.
pub open spec fn header_len(h: HeaderView) -> nat {
    2 + match h {
        HeaderView::Authenticate { .. } => 16 + 32,
        HeaderView::Connect { addr } => address_len(addr),
        HeaderView::Packet { addr, .. } => 2 + 2 + 1 + 1 + 2 + address_len(addr),
        HeaderView::Dissociate { .. } => 2,
        HeaderView::Heartbeat => 0,
    }
}

/// A header that its encoding gives back: its UUID and token have their
/// lengths and its address is well-formed.
pub open spec fn header_wf(h: HeaderView) -> bool {
    match h {
        HeaderView::Authenticate { uuid, token } => uuid.len() == 16 && token.len() == 32,
        HeaderView::Connect { addr } => address_wf(addr),
        HeaderView::Packet { addr, .. } => address_wf(addr),
        _ => true,
    }
}

/// Parses a header at the start of `s`: the header and the number of bytes
/// it took, or why `s` does not start with one.
pub open spec fn parse_header(s: Seq<u8>) -> Result<(HeaderView, int), UnmarshalError> {
    if s.len() < 1 {
        Err(UnmarshalError::UnexpectedEof)
    } else if s[0] != VERSION {
        Err(UnmarshalError::InvalidVersion(s[0]))
    } else if s.len() < 2 {
        Err(UnmarshalError::UnexpectedEof)
    } else if s[1] == COMMAND_AUTHENTICATE {
        if s.len() < 50 {
            Err(UnmarshalError::UnexpectedEof)
        } else {
            Ok(
                (
                    HeaderView::Authenticate {
                        uuid: s.subrange(2, 18),
                        token: s.subrange(18, 50),
                    },
                    50,
                ),
            )
        }
    } else if s[1] == COMMAND_CONNECT {
        match parse_address(s.skip(2)) {
            Ok((addr, n)) => Ok((HeaderView::Connect { addr }, 2 + n)),
            Err(e) => Err(e),
        }
    } else if s[1] == COMMAND_PACKET {
        if s.len() < 10 {
            Err(UnmarshalError::UnexpectedEof)
        } else {
            match parse_address(s.skip(10)) {
                Ok((addr, n)) => Ok(
                    (
                        HeaderView::Packet {
                            assoc_id: from_be16(s[2], s[3]),
                            pkt_id: from_be16(s[4], s[5]),
                            frag_total: s[6],
                            frag_id: s[7],
                            size: from_be16(s[8], s[9]),
                            addr,
                        },
                        10 + n,
                    ),
                ),
                Err(e) => Err(e),
            }
        }
    } else if s[1] == COMMAND_DISSOCIATE {
        if s.len() < 4 {
            Err(UnmarshalError::UnexpectedEof)
        } else {
            Ok((HeaderView::Dissociate { assoc_id: from_be16(s[2], s[3]) }, 4))
        }
    } else if s[1] == COMMAND_HEARTBEAT {
        Ok((HeaderView::Heartbeat, 2))
    } else {
        Err(UnmarshalError::InvalidCommand(s[1]))
    }
}

/// The `N` bytes `buf[pos..pos + N]`, as an array.
fn read_array<const N: usize>(buf: &[u8], pos: usize) -> (r: [u8; N])
    requires
        pos + N <= buf@.len(),
    ensures
        r@ == buf@.subrange(pos as int, pos + N),
{
    let mut a: [u8; N] = vstd::array::array_fill_for_copy_types(0u8);
    let mut i: usize = 0;
    while i < N
        invariant
            i <= N,
            pos + N <= buf.len(),
            buf.len() == buf@.len(),
            a@.len() == N,
            forall|j: int| 0 <= j < i ==> a@[j] == buf@[pos + j],
        decreases N - i,
    {
        a[i] = buf[pos + i];
        i = i + 1;
    }
    proof {
        assert(a@ =~= buf@.subrange(pos as int, pos + N));
    }
    a
}

impl Header {
    /// The number of bytes the header takes on the wire.
    pub fn len(&self) -> (r: usize)
        requires
            header_len(self@) <= usize::MAX,
        ensures
            r == header_len(self@),
    {
        match self {
            Header::Authenticate(_) => 2 + 16 + 32,
            Header::Connect(c) => 2 + c.addr.len(),
            Header::Packet(p) => 2 + 2 + 2 + 1 + 1 + 2 + p.addr.len(),
            Header::Dissociate(_) => 2 + 2,
            Header::Heartbeat(_) => 2,
        }
    }

    /// Appends the header's wire bytes to `buf`.
    pub fn marshal(&self, buf: &mut Vec<u8>)
        ensures
            final(buf)@ == old(buf)@ + encode_header(self@),
            final(buf)@.len() == old(buf)@.len() + header_len(self@),
    {
        buf.push(VERSION);
        match self {
            Header::Authenticate(a) => {
                buf.push(COMMAND_AUTHENTICATE);
                push_bytes(buf, a.uuid.as_slice());
                push_bytes(buf, a.token.as_slice());
            },
            Header::Connect(c) => {
                buf.push(COMMAND_CONNECT);
                c.addr.marshal(buf);
            },
            Header::Packet(p) => {
                buf.push(COMMAND_PACKET);
                push_be16(buf, p.assoc_id);
                push_be16(buf, p.pkt_id);
                buf.push(p.frag_total);
                buf.push(p.frag_id);
                push_be16(buf, p.size);
                p.addr.marshal(buf);
            },
            Header::Dissociate(d) => {
                buf.push(COMMAND_DISSOCIATE);
                push_be16(buf, d.assoc_id);
            },
            Header::Heartbeat(_) => {
                buf.push(COMMAND_HEARTBEAT);
            },
        }
        proof {
            assert(buf@ =~= old(buf)@ + encode_header(self@));
            lemma_header_len(self@);
        }
    }

    /// Parses a header at the start of `buf`. A header that parses took
    /// exactly `len()` bytes of `buf`; the bytes after it are left alone.
    pub fn unmarshal(buf: &[u8]) -> (r: Result<Header, UnmarshalError>)
        ensures
            match r {
                Ok(h) => parse_header(buf@) == Ok::<(HeaderView, int), UnmarshalError>(
                    (h@, header_len(h@) as int),
                ),
                Err(e) => parse_header(buf@) == Err::<(HeaderView, int), UnmarshalError>(e),
            },
    {
        let len = buf.len();
        if len < 1 {
            return Err(UnmarshalError::UnexpectedEof);
        }
        let ver = buf[0];
        if ver != VERSION {
            return Err(UnmarshalError::InvalidVersion(ver));
        }
        if len < 2 {
            return Err(UnmarshalError::UnexpectedEof);
        }
        let cmd = buf[1];
        let r = if cmd == COMMAND_AUTHENTICATE {
            if len < 50 {
                return Err(UnmarshalError::UnexpectedEof);
            }
            let uuid: [u8; 16] = read_array(buf, 2);
            let token: [u8; 32] = read_array(buf, 18);
            Header::Authenticate(Authenticate { uuid, token })
        } else if cmd == COMMAND_CONNECT {
            let (addr, _) = Address::unmarshal_at(buf, 2)?;
            Header::Connect(Connect { addr })
        } else if cmd == COMMAND_PACKET {
            if len < 10 {
                return Err(UnmarshalError::UnexpectedEof);
            }
            let assoc_id = read_be16(buf[2], buf[3]);
            let pkt_id = read_be16(buf[4], buf[5]);
            let frag_total = buf[6];
            let frag_id = buf[7];
            let size = read_be16(buf[8], buf[9]);
            let (addr, _) = Address::unmarshal_at(buf, 10)?;
            Header::Packet(Packet { assoc_id, pkt_id, frag_total, frag_id, size, addr })
        } else if cmd == COMMAND_DISSOCIATE {
            if len < 4 {
                return Err(UnmarshalError::UnexpectedEof);
            }
            Header::Dissociate(Dissociate { assoc_id: read_be16(buf[2], buf[3]) })
        } else if cmd == COMMAND_HEARTBEAT {
            Header::Heartbeat(Heartbeat)
        } else {
            return Err(UnmarshalError::InvalidCommand(cmd));
        };
        proof {
            lemma_header_parse_canonical(buf@);
            lemma_header_len(r@);
        }
        Ok(r)
    }
}

/// A header takes on the wire exactly the bytes its length counts.
pub proof fn lemma_header_len(h: HeaderView)
    requires
        h matches HeaderView::Authenticate { uuid, token } ==> uuid.len() == 16 && token.len() == 32,
    ensures
        encode_header(h).len() == header_len(h),
{
    match h {
        HeaderView::Connect { addr } => lemma_address_len(addr),
        HeaderView::Packet { addr, .. } => lemma_address_len(addr),
        _ => {},
    }
}

/// Parsing the encoding of a well-formed header, whatever bytes follow it,
/// gives back the header and the length of its encoding.
pub proof fn lemma_header_roundtrip(h: HeaderView, rest: Seq<u8>)
    requires
        header_wf(h),
    ensures
        parse_header(encode_header(h) + rest) == Ok::<(HeaderView, int), UnmarshalError>(
            (h, encode_header(h).len() as int),
        ),
{
    let e = encode_header(h);
    let s = e + rest;
    assert(s[0] == VERSION);
    assert(s[1] == command_of(h));
    match h {
        HeaderView::Authenticate { uuid, token } => {
            assert(s.subrange(2, 18) =~= uuid);
            assert(s.subrange(18, 50) =~= token);
        },
        HeaderView::Connect { addr } => {
            lemma_address_roundtrip(addr, rest);
            assert(s.skip(2) =~= encode_address(addr) + rest);
        },
        HeaderView::Packet { assoc_id, pkt_id, frag_total, frag_id, size, addr } => {
            lemma_packet_roundtrip(h, rest);
        },
        HeaderView::Dissociate { assoc_id } => {},
        HeaderView::Heartbeat => {},
    }
}

proof fn lemma_packet_roundtrip(h: HeaderView, rest: Seq<u8>)
    requires
        h is Packet,
        header_wf(h),
    ensures
        parse_header(encode_header(h) + rest) == Ok::<(HeaderView, int), UnmarshalError>(
            (h, encode_header(h).len() as int),
        ),
{
    let e = encode_header(h);
    let s = e + rest;
    let addr = h->Packet_addr;
    lemma_address_roundtrip(addr, rest);
    assert(s[0] == VERSION);
    assert(s[1] == COMMAND_PACKET);
    assert(s.skip(10) =~= encode_address(addr) + rest);
    assert(from_be16(s[2], s[3]) == h->Packet_assoc_id);
    assert(from_be16(s[4], s[5]) == h->pkt_id);
    assert(s[6] == h->frag_total);
    assert(s[7] == h->frag_id);
    assert(from_be16(s[8], s[9]) == h->size);
}

/// Whatever the parser accepts is a well-formed header, written in the only
/// way it encodes: the bytes it took are the header's encoding, as many as
/// its length counts.
pub proof fn lemma_header_parse_canonical(s: Seq<u8>)
    requires
        parse_header(s) is Ok,
    ensures
        ({
            let (h, n) = parse_header(s)->Ok_0;
            &&& header_wf(h)
            &&& n == header_len(h)
            &&& 0 < n <= s.len()
            &&& encode_header(h) == s.subrange(0, n)
        }),
{
    let (h, n) = parse_header(s)->Ok_0;
    if s[1] == COMMAND_AUTHENTICATE {
        assert(encode_header(h) =~= s.subrange(0, n));
    } else if s[1] == COMMAND_CONNECT {
        let t = s.skip(2);
        lemma_address_parse_canonical(t);
        let (a, m) = parse_address(t)->Ok_0;
        lemma_address_len(a);
        assert(encode_header(h) =~= s.subrange(0, n));
    } else if s[1] == COMMAND_PACKET {
        let t = s.skip(10);
        lemma_address_parse_canonical(t);
        let (a, m) = parse_address(t)->Ok_0;
        lemma_address_len(a);
        lemma_be16_roundtrip(s[2], s[3]);
        lemma_be16_roundtrip(s[4], s[5]);
        lemma_be16_roundtrip(s[8], s[9]);
        assert(encode_header(h) =~= s.subrange(0, n));
    } else if s[1] == COMMAND_DISSOCIATE {
        lemma_be16_roundtrip(s[2], s[3]);
        assert(encode_header(h) =~= s.subrange(0, n));
    } else {
        assert(encode_header(h) =~= s.subrange(0, n));
    }
}

} // verus!
