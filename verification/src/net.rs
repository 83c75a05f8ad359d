//! IP and socket addresses, held as plain octets, and the IPv4-mapped IPv6
//! conversions the relay applies to them.
use vstd::prelude::*;

verus! {

broadcast use vstd::array::group_array_axioms;

/// An IPv4 or IPv6 address, by its octets in network order.
#[derive(Clone, Copy, Debug, PartialEq, Eq)]
pub enum IpAddr {
    V4([u8; 4]),
    V6([u8; 16]),
}

/// An IPv4 socket address.
#[derive(Clone, Copy, Debug, PartialEq, Eq)]
pub struct SocketAddrV4 {
    pub ip: [u8; 4],
    pub port: u16,
}

/// An IPv6 socket address, with its flow information and scope.
#[derive(Clone, Copy, Debug, PartialEq, Eq)]
pub struct SocketAddrV6 {
    pub ip: [u8; 16],
    pub port: u16,
    pub flowinfo: u32,
    pub scope_id: u32,
}

/// An IPv4 or IPv6 socket address.
#[derive(Clone, Copy, Debug, PartialEq, Eq)]
pub enum SocketAddr {
    V4(SocketAddrV4),
    V6(SocketAddrV6),
}

/// The IPv4 address that an IPv6 address maps, if it has the form
/// `::ffff:a.b.c.d`.
pub open spec fn spec_ipv4_mapped(ip: [u8; 16]) -> Option<[u8; 4]> {
    if (forall|i: int| 0 <= i < 10 ==> ip@[i] == 0) && ip@[10] == 0xff && ip@[11] == 0xff {
        Some([ip@[12], ip@[13], ip@[14], ip@[15]])
    } else {
        None
    }
}

/// The IPv6 address `::ffff:a.b.c.d` for the IPv4 address `a.b.c.d`.
pub open spec fn spec_ipv6_mapped(ip: [u8; 4]) -> [u8; 16] {
    [0, 0, 0, 0, 0, 0, 0, 0, 0, 0, 0xff, 0xff, ip@[0], ip@[1], ip@[2], ip@[3]]
}

/// The socket address for an IP address and a port; an IPv6 one has no
/// flow information and scope 0.
pub open spec fn spec_socket_addr(ip: IpAddr, port: u16) -> SocketAddr {
    match ip {
        IpAddr::V4(a) => SocketAddr::V4(SocketAddrV4 { ip: a, port }),
        IpAddr::V6(a) => SocketAddr::V6(SocketAddrV6 { ip: a, port, flowinfo: 0, scope_id: 0 }),
    }
}

/// An IPv6 socket address whose address is IPv4-mapped, written as the
/// IPv4 socket address it maps; any other address is left as it is.
pub open spec fn spec_unmap(a: SocketAddr) -> SocketAddr {
    match a {
        SocketAddr::V6(v6) => match spec_ipv4_mapped(v6.ip) {
            Some(v4) => SocketAddr::V4(SocketAddrV4 { ip: v4, port: v6.port }),
            None => a,
        },
        SocketAddr::V4(_) => a,
    }
}

impl SocketAddr {
    pub open spec fn spec_is_ipv4(&self) -> bool {
        self is V4
    }

    pub open spec fn spec_port(&self) -> u16 {
        match self {
            SocketAddr::V4(a) => a.port,
            SocketAddr::V6(a) => a.port,
        }
    }

    /// Builds the socket address for an IP address and a port.
    pub fn new(ip: IpAddr, port: u16) -> (r: SocketAddr)
        ensures
            r == spec_socket_addr(ip, port),
    {
        match ip {
            IpAddr::V4(a) => SocketAddr::V4(SocketAddrV4 { ip: a, port }),
            IpAddr::V6(a) => SocketAddr::V6(SocketAddrV6 { ip: a, port, flowinfo: 0, scope_id: 0 }),
        }
    }

    /// Whether this is an IPv4 socket address.
    pub fn is_ipv4(&self) -> (r: bool)
        ensures
            r == self.spec_is_ipv4(),
    {
        match self {
            SocketAddr::V4(_) => true,
            SocketAddr::V6(_) => false,
        }
    }

    /// Whether this is an IPv6 socket address.
    pub fn is_ipv6(&self) -> (r: bool)
        ensures
            r == !self.spec_is_ipv4(),
    {
        match self {
            SocketAddr::V4(_) => false,
            SocketAddr::V6(_) => true,
        }
    }

    /// The port of the socket address.
    pub fn port(&self) -> (r: u16)
        ensures
            r == self.spec_port(),
    {
        match self {
            SocketAddr::V4(a) => a.port,
            SocketAddr::V6(a) => a.port,
        }
    }
}

/// The IPv4 address that an IPv6 address maps, if it is `::ffff:a.b.c.d`.
pub fn to_ipv4_mapped(ip: &[u8; 16]) -> (r: Option<[u8; 4]>)
    ensures
        r == spec_ipv4_mapped(*ip),
{
    let mut i: usize = 0;
    while i < 10
        invariant
            i <= 10,
            forall|j: int| 0 <= j < i ==> ip@[j] == 0,
        decreases 10 - i,
    {
        if ip[i] != 0 {
            return None;
        }
        i = i + 1;
    }
    if ip[10] == 0xff && ip[11] == 0xff {
        Some([ip[12], ip[13], ip[14], ip[15]])
    } else {
        None
    }
}

/// The IPv6 address `::ffff:a.b.c.d` for the IPv4 address `a.b.c.d`.
pub fn to_ipv6_mapped(ip: &[u8; 4]) -> (r: [u8; 16])
    ensures
        r == spec_ipv6_mapped(*ip),
{
    [0, 0, 0, 0, 0, 0, 0, 0, 0, 0, 0xff, 0xff, ip[0], ip[1], ip[2], ip[3]]
}

/// Writes an IPv4-mapped IPv6 socket address as the IPv4 socket address it
/// maps; any other address is returned as it is.
pub fn unmap_socket_addr(a: SocketAddr) -> (r: SocketAddr)
    ensures
        r == spec_unmap(a),
{
    match a {
        SocketAddr::V6(v6) => match to_ipv4_mapped(&v6.ip) {
            Some(v4) => SocketAddr::V4(SocketAddrV4 { ip: v4, port: v6.port }),
            None => a,
        },
        SocketAddr::V4(_) => a,
    }
}

/// Whether two arrays of octets are equal.
fn octets_eq<const N: usize>(a: &[u8; N], b: &[u8; N]) -> (r: bool)
    ensures
        r == (*a == *b),
{
    let mut i: usize = 0;
    while i < N
        invariant
            i <= N,
            a@.len() == N,
            b@.len() == N,
            forall|j: int| 0 <= j < i ==> a@[j] == b@[j],
        decreases N - i,
    {
        if a[i] != b[i] {
            return false;
        }
        i = i + 1;
    }
    proof {
        assert(*a =~= *b);
    }
    true
}

/// Whether two socket addresses are equal, flow information and scope of
/// IPv6 ones included.
pub fn socket_addr_eq(a: &SocketAddr, b: &SocketAddr) -> (r: bool)
    ensures
        r == (*a == *b),
{
    match (a, b) {
        (SocketAddr::V4(x), SocketAddr::V4(y)) => octets_eq(&x.ip, &y.ip) && x.port == y.port,
        (SocketAddr::V6(x), SocketAddr::V6(y)) => octets_eq(&x.ip, &y.ip) && x.port == y.port
            && x.flowinfo == y.flowinfo && x.scope_id == y.scope_id,
        _ => false,
    }
}

/// Unmapping an address twice is unmapping it once.
pub proof fn lemma_unmap_idempotent(a: SocketAddr)
    ensures
        spec_unmap(spec_unmap(a)) == spec_unmap(a),
{
}

/// Mapping an IPv4 address into IPv6 and back gives the address itself.
pub proof fn lemma_mapped_roundtrip(ip: [u8; 4])
    ensures
        spec_ipv4_mapped(spec_ipv6_mapped(ip)) == Some(ip),
{
    let m = spec_ipv6_mapped(ip);
    assert(forall|i: int| 0 <= i < 10 ==> m@[i] == 0);
    assert([m@[12], m@[13], m@[14], m@[15]] =~= ip);
}

} // verus!
