use tuic::camouflage::{grow_body, is_forwardable_header, MAX_REQUEST_BODY_SIZE, MAX_RESPONSE_BODY_SIZE};
use tuic::certs::{certificate_chain, certificate_encoding, pem_chain, CertEncoding, CertError};
use tuic::net::{to_ipv4_mapped, to_ipv6_mapped, unmap_socket_addr, IpAddr, SocketAddr, SocketAddrV4, SocketAddrV6};
use tuic::options::UdpRelayMode;
use tuic::relay::{
    client_accepts_packet, mode_of_source, raised_stream_limit, server_rejects_packet, ConnectGate, ConnectStep,
    PacketSource, StartupMode,
};
use tuic::transfer::{CopyAction, Side, Transfer, BUFFER_SIZE};
use tuic::udp_session::{check_source, plan_associate_socket, SourceCheck};

fn mapped(v4: [u8; 4]) -> [u8; 16] {
    [0, 0, 0, 0, 0, 0, 0, 0, 0, 0, 0xff, 0xff, v4[0], v4[1], v4[2], v4[3]]
}

#[test]
fn relay_packet_sources() {
    assert!(client_accepts_packet(UdpRelayMode::Quic, PacketSource::UniStream));
    assert!(!client_accepts_packet(UdpRelayMode::Quic, PacketSource::Datagram));
    assert!(client_accepts_packet(UdpRelayMode::Native, PacketSource::Datagram));
    assert!(!client_accepts_packet(UdpRelayMode::Native, PacketSource::UniStream));
    assert!(server_rejects_packet(Some(UdpRelayMode::Native), PacketSource::UniStream));
    assert!(server_rejects_packet(Some(UdpRelayMode::Quic), PacketSource::Datagram));
    assert!(!server_rejects_packet(None, PacketSource::Datagram));
    assert!(!server_rejects_packet(None, PacketSource::UniStream));
    assert_eq!(mode_of_source(PacketSource::UniStream), UdpRelayMode::Quic);
    assert_eq!(mode_of_source(PacketSource::Datagram), UdpRelayMode::Native);
}

#[test]
fn relay_connect_gate() {
    let mut gate = ConnectGate::new(StartupMode::Loop);
    assert_eq!(gate.on_attempt(false), ConnectStep::Retry);
    assert_eq!(gate.on_attempt(true), ConnectStep::ReturnConnection);
    assert!(gate.first_connected);
    assert_eq!(gate.on_attempt(false), ConnectStep::ReturnError);

    let mut gate = ConnectGate::new(StartupMode::Lazy);
    assert_eq!(gate.on_attempt(false), ConnectStep::Exit);
    assert!(!gate.first_connected);
    let mut gate = ConnectGate::new(StartupMode::Eager);
    assert_eq!(gate.on_attempt(false), ConnectStep::Exit);
    assert!(StartupMode::Eager.connects_at_startup());
    assert!(!StartupMode::Lazy.connects_at_startup());
    assert!(!StartupMode::Loop.connects_at_startup());
}

#[test]
fn relay_stream_limit() {
    assert_eq!(raised_stream_limit(32, 22, 22), Some(64));
    assert_eq!(raised_stream_limit(32, 21, 22), None);
    assert_eq!(raised_stream_limit(0, 0, 0), Some(0));
}

#[test]
fn camouflage_headers() {
    for h in ["connection", "Keep-Alive", "proxy-connection", "Transfer-Encoding", "upgrade", "TE", "trailer", "Host", "content-length"] {
        assert!(!is_forwardable_header(h), "{h}");
    }
    for h in ["content-type", "accept", "x-te", "hosts", "cookie"] {
        assert!(is_forwardable_header(h), "{h}");
    }
}

#[test]
fn camouflage_body_limits() {
    assert_eq!(MAX_REQUEST_BODY_SIZE, 16 * 1024 * 1024);
    assert_eq!(MAX_RESPONSE_BODY_SIZE, 64 * 1024 * 1024);
    assert_eq!(grow_body(10, 5, 15), Some(15));
    assert_eq!(grow_body(10, 6, 15), None);
    assert_eq!(grow_body(usize::MAX, 1, usize::MAX), None);
    assert_eq!(grow_body(0, MAX_REQUEST_BODY_SIZE + 1, MAX_REQUEST_BODY_SIZE), None);
}

#[test]
fn transfer_counts() {
    let mut t = Transfer::new();
    let a_bytes = [1u8; 10];
    match t.on_read::<()>(Side::A, Ok(&a_bytes)) {
        CopyAction::Write { to, bytes } => {
            assert_eq!(to, Side::B);
            assert_eq!(bytes, &a_bytes[..]);
        }
        other => panic!("unexpected {other:?}"),
    }
    assert!(matches!(t.on_write::<()>(Ok(())), CopyAction::Read));
    let b_bytes = [7u8, 8, 9];
    match t.on_read::<()>(Side::B, Ok(&b_bytes)) {
        CopyAction::Write { to, bytes } => {
            assert_eq!(to, Side::A);
            assert_eq!(bytes, &[7u8, 8, 9][..]);
        }
        other => panic!("unexpected {other:?}"),
    }
    assert!(matches!(t.on_read::<()>(Side::A, Ok(&[0u8; 5])), CopyAction::Write { to: Side::B, .. }));
    assert_eq!((t.a_to_b, t.b_to_a), (15, 3));
    assert!(matches!(t.on_read::<()>(Side::B, Ok(&[])), CopyAction::Stop(None)));
    assert_eq!((t.a_to_b, t.b_to_a), (15, 3));
    assert_eq!(BUFFER_SIZE, 16 * 1024);
}

#[test]
fn transfer_stops_on_errors() {
    let mut t = Transfer::new();
    assert!(matches!(t.on_read(Side::A, Err("reset")), CopyAction::Stop(Some("reset"))));
    assert!(matches!(t.on_write::<&str>(Err("broken pipe")), CopyAction::Stop(Some("broken pipe"))));
    assert_eq!((t.a_to_b, t.b_to_a), (0, 0));
}

#[test]
fn transfer_count_wraps() {
    let mut t = Transfer { a_to_b: usize::MAX - 1, b_to_a: 0 };
    assert!(matches!(t.on_read::<()>(Side::A, Ok(&[1, 2, 3])), CopyAction::Write { to: Side::B, .. }));
    assert_eq!(t.a_to_b, 1);
}

#[test]
fn certs_encoding() {
    assert_eq!(certificate_encoding(Some("der")), CertEncoding::Der);
    assert_eq!(certificate_encoding(Some("DER")), CertEncoding::Pem);
    assert_eq!(certificate_encoding(Some("pem")), CertEncoding::Pem);
    assert_eq!(certificate_encoding(None), CertEncoding::Pem);
}

#[test]
fn net_mapped_addresses() {
    assert_eq!(to_ipv6_mapped(&[1, 2, 3, 4]), mapped([1, 2, 3, 4]));
    assert_eq!(to_ipv4_mapped(&mapped([1, 2, 3, 4])), Some([1, 2, 3, 4]));
    let mut not_mapped = mapped([1, 2, 3, 4]);
    not_mapped[10] = 0;
    assert_eq!(to_ipv4_mapped(&not_mapped), None);
    let v6 = SocketAddr::V6(SocketAddrV6 { ip: mapped([8, 8, 8, 8]), port: 53, flowinfo: 0, scope_id: 0 });
    assert_eq!(unmap_socket_addr(v6), SocketAddr::V4(SocketAddrV4 { ip: [8, 8, 8, 8], port: 53 }));
    let mut other = [0u8; 16];
    other[15] = 1;
    let loopback = SocketAddr::V6(SocketAddrV6 { ip: other, port: 53, flowinfo: 0, scope_id: 0 });
    assert_eq!(unmap_socket_addr(loopback), loopback);
    assert_eq!(unmap_socket_addr(unmap_socket_addr(v6)), unmap_socket_addr(v6));
}

#[test]
fn udp_session_source_checks() {
    let client = SocketAddr::V4(SocketAddrV4 { ip: [127, 0, 0, 1], port: 5000 });
    let client6 = SocketAddr::V6(SocketAddrV6 { ip: mapped([127, 0, 0, 1]), port: 5000, flowinfo: 0, scope_id: 0 });
    let other = SocketAddr::V4(SocketAddrV4 { ip: [127, 0, 0, 2], port: 5000 });
    assert_eq!(check_source(None, &client), SourceCheck::Unconnected);
    assert_eq!(check_source(Some(client), &client), SourceCheck::Matches);
    assert_eq!(check_source(Some(client), &client6), SourceCheck::Matches);
    assert_eq!(check_source(Some(client6), &client), SourceCheck::Matches);
    assert_eq!(check_source(Some(client), &other), SourceCheck::Mismatch);

    let plan = plan_associate_socket(IpAddr::V6([0; 16]), Some(true));
    assert!(plan.ipv6);
    assert_eq!(plan.only_v6, Some(false));
    let plan = plan_associate_socket(IpAddr::V4([0; 4]), Some(true));
    assert!(!plan.ipv6);
    assert_eq!(plan.only_v6, None);
    assert_eq!(plan.bind, SocketAddr::V4(SocketAddrV4 { ip: [0; 4], port: 0 }));
}

#[test]
fn certs_chain_from_file_contents() {
    let pem = b"-----BEGIN CERTIFICATE-----\nAQID\n-----END CERTIFICATE-----\n-----BEGIN CERTIFICATE-----\nBAUG\n-----END CERTIFICATE-----\n".to_vec();
    assert_eq!(certificate_chain(Some("pem"), pem.clone()), Ok(vec![vec![1, 2, 3], vec![4, 5, 6]]));
    assert_eq!(certificate_chain(None, pem.clone()), Ok(vec![vec![1, 2, 3], vec![4, 5, 6]]));
    assert_eq!(certificate_chain(Some("der"), pem.clone()), Ok(vec![pem]));
    let bad = b"-----BEGIN CERTIFICATE-----\n!!!!\n-----END CERTIFICATE-----\n".to_vec();
    assert_eq!(certificate_chain(Some("crt"), bad), Err(CertError::InvalidPem));
    assert_eq!(certificate_chain(Some("crt"), b"no pem here".to_vec()), Ok(vec![]));
    assert_eq!(pem_chain(None), Err(CertError::InvalidPem));
    assert_eq!(pem_chain(Some(vec![vec![7]])), Ok(vec![vec![7]]));
}
