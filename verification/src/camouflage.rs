//! Decisions of the HTTP/3 camouflage reverse proxy: which headers it
//! forwards, and how large a request or response body may grow.
use vstd::prelude::*;
use vstd::string::*;

use crate::text::{eq_ignore_ascii_case, str_eq, str_eq_ignore_ascii_case};

verus! {

/// The largest request body forwarded to the backend, in bytes.
pub const MAX_REQUEST_BODY_SIZE: usize = 16777216;

/// The largest response body forwarded to the client, in bytes.
pub const MAX_RESPONSE_BODY_SIZE: usize = 67108864;

/// Whether a header name is one of the hop-by-hop or recomputed headers
/// that the proxy does not forward (compared ignoring ASCII case).
pub open spec fn is_hop_header(name: Seq<char>) -> bool {
    ||| eq_ignore_ascii_case(name, "connection"@)
    ||| eq_ignore_ascii_case(name, "keep-alive"@)
    ||| eq_ignore_ascii_case(name, "proxy-connection"@)
    ||| eq_ignore_ascii_case(name, "transfer-encoding"@)
    ||| eq_ignore_ascii_case(name, "upgrade"@)
    ||| eq_ignore_ascii_case(name, "te"@)
    ||| eq_ignore_ascii_case(name, "trailer"@)
    ||| eq_ignore_ascii_case(name, "host"@)
    ||| eq_ignore_ascii_case(name, "content-length"@)
}

/// Whether the proxy forwards a header, in either direction: all but the
/// connection-specific ones, `host` and `content-length`.
pub fn is_forwardable_header(name: &str) -> (r: bool)
    ensures
        r == !is_hop_header(name@),
{
    !(str_eq_ignore_ascii_case(name, "connection") || str_eq_ignore_ascii_case(name, "keep-alive")
        || str_eq_ignore_ascii_case(name, "proxy-connection") || str_eq_ignore_ascii_case(
        name,
        "transfer-encoding",
    ) || str_eq_ignore_ascii_case(name, "upgrade") || str_eq_ignore_ascii_case(name, "te")
        || str_eq_ignore_ascii_case(name, "trailer") || str_eq_ignore_ascii_case(name, "host")
        || str_eq_ignore_ascii_case(name, "content-length"))
}

/// The size of a body after one more chunk, if it stays within `max`
/// ([`MAX_REQUEST_BODY_SIZE`] or [`MAX_RESPONSE_BODY_SIZE`]); `None` when
/// the body has grown too large and forwarding fails.
pub fn grow_body(total: usize, chunk: usize, max: usize) -> (r: Option<usize>)
    ensures
        r == (if total + chunk <= max {
            Some((total + chunk) as usize)
        } else {
            None
        }),
{
    match total.checked_add(chunk) {
        Some(t) => if t <= max {
            Some(t)
        } else {
            None
        },
        None => None,
    }
}

/// The status a failed forward is answered with: Bad Gateway.
pub const BAD_GATEWAY: u16 = 502;

/// Whether the camouflage proxy serves a connection: only when it is
/// configured and enabled.
pub fn camouflage_enabled(enabled: Option<bool>) -> (r: bool)
    ensures
        r == (enabled == Some(true)),
{
    match enabled {
        Some(e) => e,
        None => false,
    }
}

/// What the proxy does after forwarding a request.
#[derive(Clone, Copy, Debug, PartialEq, Eq, Structural)]
pub enum RequestAction {
    /// Serve the next request.
    Continue,
    /// Answer the request with [`BAD_GATEWAY`] and finish its stream, then
    /// serve the next request.
    RespondBadGateway,
}

/// What the proxy does after forwarding a request: a failed forward is
/// answered with Bad Gateway; either way the next request is served.
pub fn on_forward_result(ok: bool) -> (r: RequestAction)
    ensures
        r == (if ok {
            RequestAction::Continue
        } else {
            RequestAction::RespondBadGateway
        }),
{
    if ok {
        RequestAction::Continue
    } else {
        RequestAction::RespondBadGateway
    }
}

/// The headers of `hs` the proxy forwards, in their order.
pub open spec fn forwardable(hs: Seq<(String, Vec<u8>)>) -> Seq<(String, Vec<u8>)>
    decreases hs.len(),
{
    if hs.len() == 0 {
        Seq::empty()
    } else if is_hop_header(hs.last().0@) {
        forwardable(hs.drop_last())
    } else {
        forwardable(hs.drop_last()).push(hs.last())
    }
}

/// A header is withheld exactly when its name is, ignoring ASCII case, one
/// of `connection`, `keep-alive`, `proxy-connection`, `transfer-encoding`,
/// `upgrade`, `te`, `trailer`, `host` or `content-length`; every other
/// header, whatever its name, is forwarded: the forwarded headers of a list
/// are exactly its headers with other names, none dropped, none added.
pub proof fn lemma_forwarded_headers(hs: Seq<(String, Vec<u8>)>, name: Seq<char>)
    ensures
        is_hop_header(name) <==> ({
            ||| eq_ignore_ascii_case(name, "connection"@)
            ||| eq_ignore_ascii_case(name, "keep-alive"@)
            ||| eq_ignore_ascii_case(name, "proxy-connection"@)
            ||| eq_ignore_ascii_case(name, "transfer-encoding"@)
            ||| eq_ignore_ascii_case(name, "upgrade"@)
            ||| eq_ignore_ascii_case(name, "te"@)
            ||| eq_ignore_ascii_case(name, "trailer"@)
            ||| eq_ignore_ascii_case(name, "host"@)
            ||| eq_ignore_ascii_case(name, "content-length"@)
        }),
        forall|h: (String, Vec<u8>)| #[trigger] forwardable(hs).contains(h) <==> (hs.contains(h)
            && !is_hop_header(h.0@)),
        forwardable(hs).len() <= hs.len(),
    decreases hs.len(),
{
    if hs.len() > 0 {
        lemma_forwarded_headers(hs.drop_last(), name);
        assert(hs =~= hs.drop_last().push(hs.last()));
        assert forall|h: (String, Vec<u8>)| #[trigger] forwardable(hs).contains(h) <==> (hs.contains(h)
            && !is_hop_header(h.0@)) by {
            if hs.contains(h) {
                let i = choose|i: int| 0 <= i < hs.len() && hs[i] == h;
                if i < hs.len() - 1 {
                    assert(hs.drop_last()[i] == h);
                }
            }
            if hs.drop_last().contains(h) {
                let j = choose|j: int| 0 <= j < hs.drop_last().len() && hs.drop_last()[j] == h;
                assert(hs[j] == h);
            }
            if !is_hop_header(hs.last().0@) {
                let f = forwardable(hs.drop_last());
                if f.push(hs.last()).contains(h) && h != hs.last() {
                    let k = choose|k: int| 0 <= k < f.push(hs.last()).len() && f.push(hs.last())[k] == h;
                    assert(f[k] == h);
                }
                if f.contains(h) {
                    let k = choose|k: int| 0 <= k < f.len() && f[k] == h;
                    assert(f.push(hs.last())[k] == h);
                }
                assert(f.push(hs.last())[f.len() as int] == hs.last());
            }
            assert(hs[hs.len() - 1] == hs.last());
        }
    }
}

/// The value of the first header of `hs` named `host`.
pub open spec fn first_host(hs: Seq<(String, Vec<u8>)>) -> Option<Vec<u8>>
    decreases hs.len(),
{
    if hs.len() == 0 {
        None
    } else {
        match first_host(hs.drop_last()) {
            Some(v) => Some(v),
            None => if hs.last().0@ == "host"@ {
                Some(hs.last().1)
            } else {
                None
            },
        }
    }
}

/// The request's `Host` header is the first header named `host`: when there
/// is one, its value is that of a `host` header with none before it; when
/// there is none, no header of the request is named `host`.
pub proof fn lemma_first_host(hs: Seq<(String, Vec<u8>)>)
    ensures
        first_host(hs) matches Some(v) ==> exists|i: int|
            0 <= i < hs.len() && #[trigger] hs[i].0@ == "host"@ && hs[i].1 == v && forall|j: int|
                0 <= j < i ==> #[trigger] hs[j].0@ != "host"@,
        first_host(hs) is None <==> forall|i: int| 0 <= i < hs.len() ==> #[trigger] hs[i].0@ != "host"@,
    decreases hs.len(),
{
    if hs.len() > 0 {
        let init = hs.drop_last();
        lemma_first_host(init);
        assert forall|i: int| 0 <= i < init.len() implies #[trigger] init[i] == hs[i] by {}
        if first_host(init) is Some {
            let i = choose|i: int|
                0 <= i < init.len() && #[trigger] init[i].0@ == "host"@ && init[i].1 == first_host(init)->0
                    && forall|j: int| 0 <= j < i ==> #[trigger] init[j].0@ != "host"@;
            assert(hs[i] == init[i]);
            assert forall|j: int| 0 <= j < i implies #[trigger] hs[j].0@ != "host"@ by {
                assert(hs[j] == init[j]);
            }
        } else {
            let l = hs.len() - 1;
            assert(hs[l] == hs.last());
            if hs.last().0@ == "host"@ {
                assert forall|j: int| 0 <= j < l implies #[trigger] hs[j].0@ != "host"@ by {
                    assert(hs[j] == init[j]);
                }
            } else {
                assert forall|i: int| 0 <= i < hs.len() implies #[trigger] hs[i].0@ != "host"@ by {
                    if i < l {
                        assert(hs[i] == init[i]);
                    }
                }
            }
        }
        if forall|i: int| 0 <= i < hs.len() ==> #[trigger] hs[i].0@ != "host"@ {
            assert forall|i: int| 0 <= i < init.len() implies #[trigger] init[i].0@ != "host"@ by {
                assert(hs[i] == init[i]);
                assert(hs[i].0@ != "host"@);
            }
            assert(hs[hs.len() - 1].0@ != "host"@);
        }
    }
}

/// Splits headers into the forwardable ones and the value of the first
/// `host` header.
fn split_headers(headers: Vec<(String, Vec<u8>)>) -> (r: (Vec<(String, Vec<u8>)>, Option<Vec<u8>>))
    ensures
        r.0@ == forwardable(headers@),
        r.1 == first_host(headers@),
{
    let ghost all = headers@;
    let mut rest = headers;
    let mut kept: Vec<(String, Vec<u8>)> = Vec::new();
    let mut host: Option<Vec<u8>> = None;
    let n = rest.len();
    let mut i: usize = 0;
    while i < n
        invariant
            n == all.len(),
            i <= n,
            rest@ == all.skip(i as int),
            kept@ == forwardable(all.take(i as int)),
            host == first_host(all.take(i as int)),
        decreases n - i,
    {
        let h = rest.remove(0);
        proof {
            assert(all.take(i + 1).drop_last() =~= all.take(i as int));
            assert(all.take(i + 1).last() == all[i as int]);
            assert(all.skip(i as int)[0] == all[i as int]);
            assert(all.skip(i as int).remove(0) =~= all.skip(i + 1));
        }
        proof {
            assert(eq_ignore_ascii_case(h.0@, h.0@));
        }
        if is_forwardable_header(h.0.as_str()) {
            kept.push(h);
        } else if host.is_none() && str_eq(h.0.as_str(), "host") {
            host = Some(h.1);
        }
        i = i + 1;
    }
    proof {
        assert(all.take(n as int) =~= all);
    }
    (kept, host)
}

/// The headers the proxy forwards, in their order.
pub fn forwardable_headers(headers: Vec<(String, Vec<u8>)>) -> (r: Vec<(String, Vec<u8>)>)
    ensures
        r@ == forwardable(headers@),
{
    split_headers(headers).0
}

/// The `Host` header the proxy sends to the backend.
#[derive(Debug)]
pub enum HostHeader {
    /// The configured backend host name.
    Override(String),
    /// The value of the client request's `Host` header.
    Request(Vec<u8>),
    /// No `Host` header.
    Absent,
}

/// The request the proxy sends to the backend for a client request.
#[derive(Debug)]
pub struct BackendRequest {
    /// The client request's method.
    pub method: String,
    /// The path and query joined to the backend URL.
    pub path_and_query: String,
    /// The forwarded headers.
    pub headers: Vec<(String, Vec<u8>)>,
    pub host: HostHeader,
    /// The body, sent only when it is not empty.
    pub body: Option<Vec<u8>>,
}

/// Plans the backend request for a client request: the same method; the
/// request's path and query, `/` when it has none; the forwardable
/// headers; as `Host` the configured backend host name, else the client's
/// `Host` header; and the body only when it is not empty.
pub fn backend_request_plan(
    method: String,
    path_and_query: Option<String>,
    headers: Vec<(String, Vec<u8>)>,
    host_override: Option<String>,
    body: Vec<u8>,
) -> (r: BackendRequest)
    ensures
        r.method == method,
        r.path_and_query@ == match path_and_query {
            Some(p) => p@,
            None => "/"@,
        },
        r.headers@ == forwardable(headers@),
        r.host == match host_override {
            Some(h) => HostHeader::Override(h),
            None => match first_host(headers@) {
                Some(v) => HostHeader::Request(v),
                None => HostHeader::Absent,
            },
        },
        r.body == (if body@.len() == 0 {
            None
        } else {
            Some(body)
        }),
{
    let path_and_query = match path_and_query {
        Some(p) => p,
        None => String::from_str("/"),
    };
    let (headers, request_host) = split_headers(headers);
    let host = match host_override {
        Some(h) => HostHeader::Override(h),
        None => match request_host {
            Some(v) => HostHeader::Request(v),
            None => HostHeader::Absent,
        },
    };
    let body = if body.len() == 0 {
        None
    } else {
        Some(body)
    };
    BackendRequest { method, path_and_query, headers, host, body }
}

/// What the proxy does with a chunk of the backend's response body.
#[derive(Clone, Copy, Debug, PartialEq, Eq, Structural)]
pub enum ChunkAction {
    /// Send the chunk to the client; the body has this size so far.
    Send(usize),
    /// Skip the empty chunk; the body has this size so far.
    Skip(usize),
    /// The body grew beyond [`MAX_RESPONSE_BODY_SIZE`]: forwarding fails.
    TooLarge,
}

/// What the proxy does with a response chunk of `len` bytes after `total`
/// bytes of body: the body may not exceed [`MAX_RESPONSE_BODY_SIZE`], and
/// empty chunks are not sent.
pub fn on_response_chunk(total: usize, len: usize) -> (r: ChunkAction)
    ensures
        r == (if total + len > MAX_RESPONSE_BODY_SIZE {
            ChunkAction::TooLarge
        } else if len == 0 {
            ChunkAction::Skip(total)
        } else {
            ChunkAction::Send((total + len) as usize)
        }),
{
    match grow_body(total, len, MAX_RESPONSE_BODY_SIZE) {
        None => ChunkAction::TooLarge,
        Some(t) => if len == 0 {
            ChunkAction::Skip(t)
        } else {
            ChunkAction::Send(t)
        },
    }
}

} // verus!
