use tuic::net::{IpAddr, SocketAddr, SocketAddrV4, SocketAddrV6};
use tuic::options::StackPrefer;
use tuic::server_addr::ServerAddr;

#[test]
fn test_server_addr_basic() {
    let addr = ServerAddr::new("example.com".to_string(), 443, None, StackPrefer::V4only);
    assert_eq!(addr.server_name(), "example.com");
}

#[test]
fn test_server_addr_with_sni() {
    let addr = ServerAddr::with_sni(
        "example.com".to_string(),
        443,
        None,
        StackPrefer::V4only,
        Some("sni.example.com".to_string()),
    );
    assert_eq!(addr.server_name(), "sni.example.com");
}

#[test]
fn test_server_addr_sni_none_fallback() {
    let addr = ServerAddr::with_sni("example.com".to_string(), 443, None, StackPrefer::V4only, None);
    assert_eq!(addr.server_name(), "example.com");
}

#[test]
fn test_server_addr_ipv6_bracket_stripping() {
    let addr = ServerAddr::new("[::1]".to_string(), 443, None, StackPrefer::V6only);
    assert_eq!(addr.server_name(), "::1");
}

#[test]
fn test_server_addr_ipv6_no_brackets() {
    let addr = ServerAddr::new("::1".to_string(), 443, None, StackPrefer::V6only);
    assert_eq!(addr.server_name(), "::1");
}

#[test]
fn test_server_addr_with_sni_and_brackets() {
    let addr = ServerAddr::with_sni(
        "[::1]".to_string(),
        443,
        None,
        StackPrefer::V6only,
        Some("custom-sni.com".to_string()),
    );
    // SNI takes precedence over domain
    assert_eq!(addr.server_name(), "custom-sni.com");
    // But the domain itself should have brackets stripped
    assert_eq!(addr.domain(), "::1");
}

#[test]
fn server_addr_brackets_only_when_both() {
    assert_eq!(ServerAddr::new("[::1".to_string(), 1, None, StackPrefer::V4only).domain(), "[::1");
    assert_eq!(ServerAddr::new("::1]".to_string(), 1, None, StackPrefer::V4only).domain(), "::1]");
    assert_eq!(ServerAddr::new("[".to_string(), 1, None, StackPrefer::V4only).domain(), "[");
    assert_eq!(ServerAddr::new("[]".to_string(), 1, None, StackPrefer::V4only).domain(), "");
}

#[test]
fn server_addr_explicit_ip() {
    let ip = IpAddr::V4([1, 2, 3, 4]);
    let addr = ServerAddr::new("ignored-domain.com".to_string(), 8080, Some(ip), StackPrefer::V4only);
    assert_eq!(
        addr.explicit_target(),
        Some(SocketAddr::V4(SocketAddrV4 { ip: [1, 2, 3, 4], port: 8080 }))
    );
    let mut localhost = [0u8; 16];
    localhost[15] = 1;
    let addr = ServerAddr::new("ignored.com".to_string(), 9090, Some(IpAddr::V6(localhost)), StackPrefer::V6only);
    assert_eq!(
        addr.explicit_target(),
        Some(SocketAddr::V6(SocketAddrV6 { ip: localhost, port: 9090, flowinfo: 0, scope_id: 0 }))
    );
    let addr = ServerAddr::new("localhost".to_string(), 80, None, StackPrefer::V4only);
    assert_eq!(addr.explicit_target(), None);
    assert_eq!(addr.port(), 80);
}

fn v4(last: u8) -> SocketAddr {
    SocketAddr::V4(SocketAddrV4 { ip: [10, 0, 0, last], port: 80 })
}

fn v6(last: u8) -> SocketAddr {
    let mut ip = [0u8; 16];
    ip[0] = 0xfe;
    ip[15] = last;
    SocketAddr::V6(SocketAddrV6 { ip, port: 80, flowinfo: 0, scope_id: 0 })
}

#[test]
fn server_addr_arrange_resolved() {
    let resolved = vec![v6(1), v4(1), v6(2), v4(2)];
    let order = |p: StackPrefer| ServerAddr::new("h".to_string(), 80, None, p).arrange_resolved(resolved.clone());
    assert_eq!(order(StackPrefer::V4only), vec![v4(1), v4(2)]);
    assert_eq!(order(StackPrefer::V6only), vec![v6(1), v6(2)]);
    assert_eq!(order(StackPrefer::V4first), vec![v4(1), v4(2), v6(1), v6(2)]);
    assert_eq!(order(StackPrefer::V6first), vec![v6(1), v6(2), v4(1), v4(2)]);
    assert_eq!(order(StackPrefer::V4only).len() + order(StackPrefer::V6only).len(), resolved.len());
}
