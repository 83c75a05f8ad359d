//! The relay server's address as the client knows it: the name it connects
//! to, the name it presents for TLS, and the order in which it tries the
//! addresses that name resolves to.
use vstd::prelude::*;
use vstd::string::*;

use crate::net::{spec_socket_addr, IpAddr, SocketAddr};
use crate::options::StackPrefer;

verus! {

/// The relay server's address.
pub struct ServerAddr {
    domain: String,
    port: u16,
    ip: Option<IpAddr>,
    pub ipstack_prefer: StackPrefer,
    sni: Option<String>,
}

/// The model of a [`ServerAddr`].
pub struct ServerAddrView {
    pub domain: Seq<char>,
    pub port: u16,
    pub ip: Option<IpAddr>,
    pub ipstack_prefer: StackPrefer,
    pub sni: Option<Seq<char>>,
}

impl View for ServerAddr {
    type V = ServerAddrView;

    closed spec fn view(&self) -> ServerAddrView {
        ServerAddrView {
            domain: self.domain@,
            port: self.port,
            ip: self.ip,
            ipstack_prefer: self.ipstack_prefer,
            sni: match self.sni {
                Some(s) => Some(s@),
                None => None,
            },
        }
    }
}

/// A domain written in URL notation for IPv6, `[...]`, without its brackets;
/// any other domain as it is.
pub open spec fn strip_brackets(d: Seq<char>) -> Seq<char> {
    if d.len() > 0 && d[0] == '[' && d[d.len() - 1] == ']' {
        d.subrange(1, d.len() - 1)
    } else {
        d
    }
}

/// The addresses of `s` of one family (IPv4 when `v4` holds), in their order.
pub open spec fn only_family(s: Seq<SocketAddr>, v4: bool) -> Seq<SocketAddr>
    decreases s.len(),
{
    if s.len() == 0 {
        Seq::empty()
    } else {
        let rest = only_family(s.drop_last(), v4);
        if s.last().spec_is_ipv4() == v4 {
            rest.push(s.last())
        } else {
            rest
        }
    }
}

/// The resolved addresses in the order the client tries them: one family
/// only, or both with the preferred family first, each family keeping the
/// order of the resolver.
pub open spec fn arrange_by_preference(s: Seq<SocketAddr>, p: StackPrefer) -> Seq<SocketAddr> {
    match p {
        StackPrefer::V4only => only_family(s, true),
        StackPrefer::V6only => only_family(s, false),
        StackPrefer::V4first => only_family(s, true) + only_family(s, false),
        StackPrefer::V6first => only_family(s, false) + only_family(s, true),
    }
}

impl ServerAddr {
    /// A server address with no TLS name of its own.
    pub fn new(domain: String, port: u16, ip: Option<IpAddr>, ipstack_prefer: StackPrefer) -> (r: ServerAddr)
        ensures
            r@ == (ServerAddrView {
                domain: strip_brackets(domain@),
                port,
                ip,
                ipstack_prefer,
                sni: None,
            }),
    {
        Self::with_sni(domain, port, ip, ipstack_prefer, None)
    }

    /// A server address with an optional TLS name. Brackets around an IPv6
    /// domain (URL notation) are removed: they are not valid in TLS names.
    pub fn with_sni(
        domain: String,
        port: u16,
        ip: Option<IpAddr>,
        ipstack_prefer: StackPrefer,
        sni: Option<String>,
    ) -> (r: ServerAddr)
        ensures
            r@ == (ServerAddrView {
                domain: strip_brackets(domain@),
                port,
                ip,
                ipstack_prefer,
                sni: match sni {
                    Some(s) => Some(s@),
                    None => None,
                },
            }),
    {
        let n = domain.as_str().unicode_len();
        let domain = if n > 0 && domain.as_str().get_char(0) == '[' && domain.as_str().get_char(n - 1) == ']' {
            String::from_str(domain.as_str().substring_char(1, n - 1))
        } else {
            domain
        };
        ServerAddr { domain, port, ip, ipstack_prefer, sni }
    }

    /// The name presented for TLS: the configured one, else the domain.
    pub fn server_name(&self) -> (r: &str)
        ensures
            r@ == match self@.sni {
                Some(s) => s,
                None => self@.domain,
            },
    {
        match &self.sni {
            Some(s) => s.as_str(),
            None => self.domain.as_str(),
        }
    }

    /// The domain the server is looked up by.
    pub fn domain(&self) -> (r: &str)
        ensures
            r@ == self@.domain,
    {
        self.domain.as_str()
    }

    /// The server's port.
    pub fn port(&self) -> (r: u16)
        ensures
            r == self@.port,
    {
        self.port
    }

    /// The server's socket address when its IP address is configured: then
    /// the domain is not looked up.
    pub fn explicit_target(&self) -> (r: Option<SocketAddr>)
        ensures
            r == match self@.ip {
                Some(ip) => Some(spec_socket_addr(ip, self@.port)),
                None => None,
            },
    {
        match self.ip {
            Some(ip) => Some(SocketAddr::new(ip, self.port)),
            None => None,
        }
    }

    /// Orders the addresses the domain resolved to by the stack preference:
    /// only IPv4 or only IPv6 ones, or the preferred family first.
    pub fn arrange_resolved(&self, addrs: Vec<SocketAddr>) -> (r: Vec<SocketAddr>)
        ensures
            r@ == arrange_by_preference(addrs@, self@.ipstack_prefer),
    {
        let mut v4: Vec<SocketAddr> = Vec::new();
        let mut v6: Vec<SocketAddr> = Vec::new();
        let mut i: usize = 0;
        while i < addrs.len()
            invariant
                i <= addrs@.len(),
                v4@ == only_family(addrs@.subrange(0, i as int), true),
                v6@ == only_family(addrs@.subrange(0, i as int), false),
            decreases addrs.len() - i,
        {
            let a = addrs[i];
            proof {
                assert(addrs@.subrange(0, i + 1).drop_last() =~= addrs@.subrange(0, i as int));
            }
            if a.is_ipv4() {
                v4.push(a);
            } else {
                v6.push(a);
            }
            i = i + 1;
        }
        proof {
            assert(addrs@.subrange(0, addrs@.len() as int) =~= addrs@);
        }
        match self.ipstack_prefer {
            StackPrefer::V4only => v4,
            StackPrefer::V6only => v6,
            StackPrefer::V4first => {
                v4.append(&mut v6);
                v4
            },
            StackPrefer::V6first => {
                v6.append(&mut v4);
                v6
            },
        }
    }
}

/// Every address kept for one family is of that family, and every address
/// of that family is kept.
pub proof fn lemma_only_family(s: Seq<SocketAddr>, v4: bool)
    ensures
        forall|i: int|
            0 <= i < only_family(s, v4).len() ==> #[trigger] only_family(s, v4)[i].spec_is_ipv4() == v4,
        forall|i: int|
            0 <= i < s.len() && s[i].spec_is_ipv4() == v4 ==> only_family(s, v4).contains(#[trigger] s[i]),
    decreases s.len(),
{
    if s.len() > 0 {
        lemma_only_family(s.drop_last(), v4);
        let rest = only_family(s.drop_last(), v4);
        assert forall|i: int| 0 <= i < s.len() && s[i].spec_is_ipv4() == v4 implies only_family(s, v4).contains(
            #[trigger] s[i],
        ) by {
            if i < s.len() - 1 {
                assert(s.drop_last()[i] == s[i]);
                let j = choose|j: int| 0 <= j < rest.len() && rest[j] == s[i];
                if s.last().spec_is_ipv4() == v4 {
                    assert(rest.push(s.last())[j] == s[i]);
                }
            } else {
                assert(rest.push(s.last())[rest.len() as int] == s[i]);
            }
        }
    }
}

/// With a single-family preference, the client tries only addresses of
/// that family; with a preferred family, it tries every address of it
/// before any address of the other.
pub proof fn lemma_preference_respected(s: Seq<SocketAddr>, p: StackPrefer)
    ensures
        p == StackPrefer::V4only ==> forall|i: int|
            0 <= i < arrange_by_preference(s, p).len() ==> #[trigger] arrange_by_preference(s, p)[i].spec_is_ipv4(),
        p == StackPrefer::V6only ==> forall|i: int|
            0 <= i < arrange_by_preference(s, p).len() ==> !#[trigger] arrange_by_preference(s, p)[i].spec_is_ipv4(),
        p == StackPrefer::V4first ==> forall|i: int, j: int|
            0 <= i < j < arrange_by_preference(s, p).len() && #[trigger] arrange_by_preference(s, p)[j].spec_is_ipv4()
                ==> #[trigger] arrange_by_preference(s, p)[i].spec_is_ipv4(),
        p == StackPrefer::V6first ==> forall|i: int, j: int|
            0 <= i < j < arrange_by_preference(s, p).len() && !#[trigger] arrange_by_preference(s, p)[j].spec_is_ipv4()
                ==> !#[trigger] arrange_by_preference(s, p)[i].spec_is_ipv4(),
{
    lemma_only_family(s, true);
    lemma_only_family(s, false);
    let a = only_family(s, true);
    let b = only_family(s, false);
    if p == StackPrefer::V4first {
        assert forall|i: int, j: int|
            0 <= i < j < (a + b).len() && #[trigger] (a + b)[j].spec_is_ipv4() implies #[trigger] (a + b)[i].spec_is_ipv4() by {
            if j >= a.len() {
                assert(b[j - a.len()].spec_is_ipv4() == false);
            }
        }
    }
    if p == StackPrefer::V6first {
        assert forall|i: int, j: int|
            0 <= i < j < (b + a).len() && !#[trigger] (b + a)[j].spec_is_ipv4() implies !#[trigger] (b + a)[i].spec_is_ipv4() by {
            if j >= b.len() {
                assert(a[j - b.len()].spec_is_ipv4());
            }
        }
    }
}

/// Splitting by family neither loses nor repeats an address: the two
/// families together have as many addresses as were resolved, and each kept
/// address was resolved; so with a preferred family the client tries every
/// resolved address exactly as often as the resolver gave it.
pub proof fn lemma_families_partition(s: Seq<SocketAddr>)
    ensures
        only_family(s, true).len() + only_family(s, false).len() == s.len(),
        arrange_by_preference(s, StackPrefer::V4first).len() == s.len(),
        arrange_by_preference(s, StackPrefer::V6first).len() == s.len(),
        forall|a: SocketAddr| #[trigger] only_family(s, true).contains(a) ==> s.contains(a),
        forall|a: SocketAddr| #[trigger] only_family(s, false).contains(a) ==> s.contains(a),
    decreases s.len(),
{
    if s.len() > 0 {
        let init = s.drop_last();
        lemma_families_partition(init);
        assert forall|a: SocketAddr| #[trigger] only_family(s, true).contains(a) implies s.contains(a) by {
            if init.contains(a) {
                let k = choose|k: int| 0 <= k < init.len() && init[k] == a;
                assert(s[k] == a);
            } else {
                let f = only_family(init, true);
                if f.contains(a) {
                } else {
                    let k = choose|k: int| 0 <= k < only_family(s, true).len() && only_family(s, true)[k] == a;
                    assert(k == f.len());
                    assert(s[s.len() - 1] == a);
                }
            }
        }
        assert forall|a: SocketAddr| #[trigger] only_family(s, false).contains(a) implies s.contains(a) by {
            if init.contains(a) {
                let k = choose|k: int| 0 <= k < init.len() && init[k] == a;
                assert(s[k] == a);
            } else {
                let f = only_family(init, false);
                if f.contains(a) {
                } else {
                    let k = choose|k: int| 0 <= k < only_family(s, false).len() && only_family(s, false)[k] == a;
                    assert(k == f.len());
                    assert(s[s.len() - 1] == a);
                }
            }
        }
    }
}

} // verus!
