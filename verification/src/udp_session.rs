//! Decisions of a SOCKS5 UDP associate session: how its socket is set up,
//! and which client a datagram is accepted from.
use vstd::prelude::*;

use crate::socks5::{spec_unmap_address, unmap_address, Socks5Address};
use crate::net::{
    spec_unmap, lemma_mapped_roundtrip, socket_addr_eq, spec_ipv4_mapped, spec_ipv6_mapped, spec_socket_addr,
    to_ipv4_mapped, to_ipv6_mapped, IpAddr, SocketAddr, SocketAddrV4, SocketAddrV6,
};

verus! {

/// How the UDP socket of an associate session is set up.
#[derive(Clone, Copy, Debug, PartialEq, Eq)]
pub struct AssociateSocketPlan {
    /// Whether the socket is an IPv6 one (else IPv4), by the family of the
    /// local address the client reached the SOCKS5 server on.
    pub ipv6: bool,
    /// The `IPV6_V6ONLY` option to set, if any: only on IPv6 sockets, and
    /// only when dual stack is configured (it is set to its negation).
    pub only_v6: Option<bool>,
    /// The address the socket is bound to: the local IP address, any port.
    pub bind: SocketAddr,
}

/// Plans the UDP socket of an associate session.
pub fn plan_associate_socket(local_ip: IpAddr, dual_stack: Option<bool>) -> (r: AssociateSocketPlan)
    ensures
        r.ipv6 == (local_ip is V6),
        r.only_v6 == (match (dual_stack, local_ip) {
            (Some(d), IpAddr::V6(_)) => Some(!d),
            _ => None,
        }),
        r.bind == spec_socket_addr(local_ip, 0),
{
    let ipv6 = match local_ip {
        IpAddr::V4(_) => false,
        IpAddr::V6(_) => true,
    };
    let only_v6 = match (dual_stack, local_ip) {
        (Some(d), IpAddr::V6(_)) => Some(!d),
        _ => None,
    };
    AssociateSocketPlan { ipv6, only_v6, bind: SocketAddr::new(local_ip, 0) }
}

/// The connected client address written in the family of a datagram's
/// source: an IPv4 address as its IPv4-mapped IPv6 form, an IPv4-mapped
/// IPv6 address as its IPv4 form.
pub open spec fn spec_align_connected(connected: SocketAddr, src: SocketAddr) -> SocketAddr {
    match (connected, src) {
        (SocketAddr::V4(c), SocketAddr::V6(_)) => SocketAddr::V6(
            SocketAddrV6 { ip: spec_ipv6_mapped(c.ip), port: c.port, flowinfo: 0, scope_id: 0 },
        ),
        (SocketAddr::V6(c), SocketAddr::V4(_)) => match spec_ipv4_mapped(c.ip) {
            Some(v4) => SocketAddr::V4(SocketAddrV4 { ip: v4, port: c.port }),
            None => connected,
        },
        _ => connected,
    }
}

/// Whether a datagram comes from the session's client.
#[derive(Clone, Copy, Debug, PartialEq, Eq, Structural)]
pub enum SourceCheck {
    /// The session has no client yet: the socket is to be connected to the
    /// datagram's source.
    Unconnected,
    /// The datagram comes from the connected client.
    Matches,
    /// The datagram comes from another address: it is refused.
    Mismatch,
}

/// Writes the connected client address in the family of a datagram's source.
pub fn align_connected(connected: SocketAddr, src: &SocketAddr) -> (r: SocketAddr)
    ensures
        r == spec_align_connected(connected, *src),
{
    match (connected, src) {
        (SocketAddr::V4(c), SocketAddr::V6(_)) => SocketAddr::V6(
            SocketAddrV6 { ip: to_ipv6_mapped(&c.ip), port: c.port, flowinfo: 0, scope_id: 0 },
        ),
        (SocketAddr::V6(c), SocketAddr::V4(_)) => match to_ipv4_mapped(&c.ip) {
            Some(v4) => SocketAddr::V4(SocketAddrV4 { ip: v4, port: c.port }),
            None => connected,
        },
        _ => connected,
    }
}

/// Checks a datagram's source against the client the session is connected
/// to, if any.
pub fn check_source(connected: Option<SocketAddr>, src: &SocketAddr) -> (r: SourceCheck)
    ensures
        r == match connected {
            None => SourceCheck::Unconnected,
            Some(c) => if *src == spec_align_connected(c, *src) {
                SourceCheck::Matches
            } else {
                SourceCheck::Mismatch
            },
        },
{
    match connected {
        None => SourceCheck::Unconnected,
        Some(c) => {
            let aligned = align_connected(c, src);
            if socket_addr_eq(src, &aligned) {
                SourceCheck::Matches
            } else {
                SourceCheck::Mismatch
            }
        },
    }
}

/// Why a received datagram is refused.
#[derive(Clone, Copy, Debug, PartialEq, Eq, Structural)]
pub enum ReceiveError {
    /// It comes from another address than the session's client.
    InvalidSource,
    /// It is a fragment: fragmented datagrams are not supported.
    Fragmented,
}

/// The decision on a received datagram.
#[derive(Debug, PartialEq, Eq)]
pub struct Received {
    /// Whether the socket is to be connected to the datagram's source (the
    /// session had no client yet); this happens even when the datagram is
    /// then refused as a fragment.
    pub connect_to_source: bool,
    /// The datagram's target, IPv4-mapped addresses in their IPv4 form, or
    /// why the datagram is refused.
    pub outcome: Result<Socks5Address, ReceiveError>,
}

/// The decision on a received datagram, by the source check first and its
/// fragment number second.
pub open spec fn spec_receive(connected: Option<SocketAddr>, src: SocketAddr, frag: u8, dst: Socks5Address) -> Received {
    match connected {
        Some(c) if src != spec_align_connected(c, src) => Received {
            connect_to_source: false,
            outcome: Err(ReceiveError::InvalidSource),
        },
        _ => Received {
            connect_to_source: connected is None,
            outcome: if frag != 0 {
                Err(ReceiveError::Fragmented)
            } else {
                Ok(spec_unmap_address(dst))
            },
        },
    }
}

/// Decides on a datagram received from `src` with fragment number `frag`
/// and target `dst`, by the client the session is connected to, if any.
pub fn receive_decision(connected: Option<SocketAddr>, src: &SocketAddr, frag: u8, dst: Socks5Address) -> (r: Received)
    ensures
        r == spec_receive(connected, *src, frag, dst),
{
    let check = check_source(connected, src);
    match check {
        SourceCheck::Mismatch => Received { connect_to_source: false, outcome: Err(ReceiveError::InvalidSource) },
        _ => {
            let connect_to_source = match check {
                SourceCheck::Unconnected => true,
                _ => false,
            };
            let outcome = if frag != 0 {
                Err(ReceiveError::Fragmented)
            } else {
                Ok(unmap_address(dst))
            };
            Received { connect_to_source, outcome }
        },
    }
}

/// A connected session accepts a datagram only from its client's own port,
/// and, within one address family, only from its client's exact address;
/// a datagram from any other port is refused as coming from an invalid
/// source, whatever its fragment number and target.
pub proof fn lemma_source_is_client(c: SocketAddr, src: SocketAddr, frag: u8, dst: Socks5Address)
    ensures
        spec_align_connected(c, src).spec_port() == c.spec_port(),
        src == spec_align_connected(c, src) ==> src.spec_port() == c.spec_port(),
        (c is V4 && src is V4) || (c is V6 && src is V6) ==> (src == spec_align_connected(c, src)
            <==> src == c),
        src.spec_port() != c.spec_port() ==> spec_receive(Some(c), src, frag, dst) == (Received {
            connect_to_source: false,
            outcome: Err(ReceiveError::InvalidSource),
        }),
{
}

/// A fragment is never relayed; an unconnected session connects to the
/// first datagram's source, fragment or not, and a connected one never
/// reconnects; a relayed datagram goes to its own target, an IPv4-mapped
/// socket address in its IPv4 form, a domain unchanged.
pub proof fn lemma_receive_outcomes(connected: Option<SocketAddr>, src: SocketAddr, frag: u8, dst: Socks5Address)
    ensures
        ({
            let r = spec_receive(connected, src, frag, dst);
            &&& frag != 0 ==> r.outcome is Err
            &&& r.connect_to_source <==> connected is None
            &&& connected is None ==> r.outcome == (if frag == 0 {
                Ok::<Socks5Address, ReceiveError>(spec_unmap_address(dst))
            } else {
                Err(ReceiveError::Fragmented)
            })
            &&& r.outcome matches Ok(t) ==> frag == 0 && match dst {
                Socks5Address::DomainAddress(d, p) => t == Socks5Address::DomainAddress(d, p),
                Socks5Address::SocketAddress(a) => t == Socks5Address::SocketAddress(spec_unmap(a))
                    && t->SocketAddress_0.spec_port() == a.spec_port(),
            }
        }),
{
}

/// A session connected to a client accepts its datagrams, whether they
/// come from its own address or from that address's dual-stack form.
pub proof fn lemma_client_accepted(c: SocketAddr)
    ensures
        c == spec_align_connected(c, c),
        c matches SocketAddr::V4(v4) ==> ({
            let mapped = SocketAddr::V6(
                SocketAddrV6 { ip: spec_ipv6_mapped(v4.ip), port: v4.port, flowinfo: 0, scope_id: 0 },
            );
            mapped == spec_align_connected(c, mapped)
        }),
        c matches SocketAddr::V6(v6) ==> ({
            spec_ipv4_mapped(v6.ip) matches Some(ip) ==> ({
                let unmapped = SocketAddr::V4(SocketAddrV4 { ip, port: v6.port });
                unmapped == spec_align_connected(c, unmapped)
            })
        }),
{
    if let SocketAddr::V4(v4) = c {
        lemma_mapped_roundtrip(v4.ip);
    }
}

} // verus!
