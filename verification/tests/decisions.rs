use tuic::address::Address;
use tuic::camouflage::{
    backend_request_plan, camouflage_enabled, forwardable_headers, on_forward_result, on_response_chunk, ChunkAction,
    HostHeader, RequestAction, BAD_GATEWAY, MAX_RESPONSE_BODY_SIZE,
};
use tuic::log_file::{log_file_location, LogFileError, LogFileLocation};
use tuic::net::{SocketAddr, SocketAddrV4, SocketAddrV6};
use tuic::options::UdpRelayMode;
use tuic::relay::{task_step, Authentication, Negotiation, TaskAction, TaskError, TaskKind, TaskOrigin};
use tuic::socks5::{
    associate_step, connect_step, tuic_target, unmap_address, AssociateAction, AssociateEvent, AssociateState,
    ConnectAction, ConnectEvent, ConnectState, Socks5Address,
};
use tuic::udp_session::{receive_decision, ReceiveError, Received};

fn mapped(v4: [u8; 4]) -> [u8; 16] {
    [0, 0, 0, 0, 0, 0, 0, 0, 0, 0, 0xff, 0xff, v4[0], v4[1], v4[2], v4[3]]
}

fn client() -> SocketAddr {
    SocketAddr::V4(SocketAddrV4 { ip: [127, 0, 0, 1], port: 5000 })
}

fn header(name: &str, value: &[u8]) -> (String, Vec<u8>) {
    (name.to_string(), value.to_vec())
}

#[test]
fn socks5_targets() {
    let domain = Socks5Address::DomainAddress("example.com".to_string(), 443);
    assert_eq!(tuic_target(domain.clone()), Address::DomainAddress("example.com".to_string(), 443));
    assert_eq!(tuic_target(Socks5Address::SocketAddress(client())), Address::SocketAddress(client()));
    let v6 = SocketAddr::V6(SocketAddrV6 { ip: mapped([8, 8, 8, 8]), port: 53, flowinfo: 0, scope_id: 0 });
    assert_eq!(
        unmap_address(Socks5Address::SocketAddress(v6)),
        Socks5Address::SocketAddress(SocketAddr::V4(SocketAddrV4 { ip: [8, 8, 8, 8], port: 53 }))
    );
    assert_eq!(unmap_address(domain.clone()), domain);
}

#[test]
fn socks5_connect_steps() {
    let (s, a) = connect_step(ConnectState::Starting, ConnectEvent::RelayReady);
    assert_eq!(a, ConnectAction::ReplySucceeded);
    let (s, a) = connect_step(s, ConnectEvent::ReplySent);
    assert_eq!(a, ConnectAction::Copy);
    assert_eq!(
        connect_step(s, ConnectEvent::CopyFailed),
        (ConnectState::Done, ConnectAction::ShutdownClientAndResetRelay)
    );
    assert_eq!(connect_step(s, ConnectEvent::CopyFinished), (ConnectState::Done, ConnectAction::Finish));
    assert_eq!(
        connect_step(ConnectState::ReplyingSuccess, ConnectEvent::ReplyFailed),
        (ConnectState::Done, ConnectAction::ShutdownRelay)
    );

    let (s, a) = connect_step(ConnectState::Starting, ConnectEvent::RelayFailed);
    assert_eq!((s, a), (ConnectState::ReplyingFailure, ConnectAction::ReplyGeneralFailure));
    assert_eq!(connect_step(s, ConnectEvent::ReplySent), (ConnectState::Done, ConnectAction::ShutdownClient));
    assert_eq!(connect_step(s, ConnectEvent::ReplyFailed), (ConnectState::Done, ConnectAction::Finish));
}

#[test]
fn socks5_associate_steps() {
    let local = SocketAddr::V4(SocketAddrV4 { ip: [127, 0, 0, 1], port: 40000 });
    let (s, a) = associate_step(7, AssociateState::Starting, AssociateEvent::SessionCreated(local));
    assert_eq!(a, AssociateAction::ReplySucceeded(local));
    let (s, a) = associate_step(7, s, AssociateEvent::ReplySent);
    assert_eq!((s, a), (AssociateState::Relaying, AssociateAction::Register(7)));
    let target = Socks5Address::DomainAddress("example.com".to_string(), 53);
    let (s, a) = associate_step(7, s, AssociateEvent::Datagram(target));
    assert_eq!(a, AssociateAction::Forward(Address::DomainAddress("example.com".to_string(), 53), 7));
    let (s, a) = associate_step(7, s, AssociateEvent::ReceiveFailed);
    assert_eq!((s, a.clone()), (AssociateState::Relaying, AssociateAction::SkipDatagram));
    let (s, a) = associate_step(7, s, AssociateEvent::Closed);
    assert_eq!((s, a), (AssociateState::Dissociating, AssociateAction::Unregister(7)));
    assert_eq!(
        associate_step(7, s, AssociateEvent::RelayObtained),
        (AssociateState::Done, AssociateAction::Dissociate(7))
    );
    assert_eq!(associate_step(7, s, AssociateEvent::RelayUnavailable), (AssociateState::Done, AssociateAction::Finish));

    let (s, a) = associate_step(1, AssociateState::Starting, AssociateEvent::SessionFailed);
    assert_eq!((s, a), (AssociateState::ReplyingFailure, AssociateAction::ReplyGeneralFailure));
    assert_eq!(associate_step(1, s, AssociateEvent::ReplySent), (AssociateState::Done, AssociateAction::Shutdown));
    assert_eq!(
        associate_step(1, AssociateState::ReplyingSuccess, AssociateEvent::ReplyFailed),
        (AssociateState::Done, AssociateAction::Finish)
    );
}

#[test]
fn udp_session_receive() {
    let dst = Socks5Address::DomainAddress("example.com".to_string(), 53);
    assert_eq!(
        receive_decision(None, &client(), 0, dst.clone()),
        Received { connect_to_source: true, outcome: Ok(dst.clone()) }
    );
    assert_eq!(
        receive_decision(Some(client()), &client(), 0, dst.clone()),
        Received { connect_to_source: false, outcome: Ok(dst.clone()) }
    );
    // A fragment is refused, but an unconnected session still connects to its source.
    assert_eq!(
        receive_decision(None, &client(), 1, dst.clone()),
        Received { connect_to_source: true, outcome: Err(ReceiveError::Fragmented) }
    );
    assert_eq!(
        receive_decision(Some(client()), &client(), 3, dst.clone()),
        Received { connect_to_source: false, outcome: Err(ReceiveError::Fragmented) }
    );
    let other = SocketAddr::V4(SocketAddrV4 { ip: [127, 0, 0, 2], port: 5000 });
    assert_eq!(
        receive_decision(Some(client()), &other, 1, dst.clone()),
        Received { connect_to_source: false, outcome: Err(ReceiveError::InvalidSource) }
    );
    let v6_dst = SocketAddr::V6(SocketAddrV6 { ip: mapped([1, 1, 1, 1]), port: 53, flowinfo: 0, scope_id: 0 });
    assert_eq!(
        receive_decision(Some(client()), &client(), 0, Socks5Address::SocketAddress(v6_dst)).outcome,
        Ok(Socks5Address::SocketAddress(SocketAddr::V4(SocketAddrV4 { ip: [1, 1, 1, 1], port: 53 })))
    );
}

#[test]
fn relay_task_steps() {
    let ok = Authentication::Authenticated;
    assert_eq!(
        task_step(TaskOrigin::UniStream, Negotiation::TimedOut, ok, None),
        TaskAction::Close(TaskError::NegotiationTimeout)
    );
    assert_eq!(task_step(TaskOrigin::Datagram, Negotiation::Failed, ok, None), TaskAction::Close(TaskError::Negotiation));
    let auth = Negotiation::Task(TaskKind::Authenticate);
    assert_eq!(task_step(TaskOrigin::UniStream, auth, ok, None), TaskAction::HandleAuthenticate);
    assert_eq!(
        task_step(TaskOrigin::UniStream, auth, Authentication::Refused, None),
        TaskAction::Close(TaskError::Authentication)
    );
    assert_eq!(
        task_step(TaskOrigin::BiStream, Negotiation::Task(TaskKind::Connect), Authentication::Closed, None),
        TaskAction::Close(TaskError::ConnectionClosed)
    );
    assert_eq!(task_step(TaskOrigin::BiStream, Negotiation::Task(TaskKind::Connect), ok, None), TaskAction::HandleConnect);
    let packet = Negotiation::Task(TaskKind::Packet);
    assert_eq!(task_step(TaskOrigin::UniStream, packet, ok, None), TaskAction::HandlePacket(UdpRelayMode::Quic));
    assert_eq!(
        task_step(TaskOrigin::UniStream, packet, ok, Some(UdpRelayMode::Native)),
        TaskAction::Close(TaskError::UnexpectedPacketSource)
    );
    assert_eq!(
        task_step(TaskOrigin::Datagram, packet, ok, Some(UdpRelayMode::Native)),
        TaskAction::HandlePacket(UdpRelayMode::Native)
    );
    assert_eq!(
        task_step(TaskOrigin::Datagram, packet, ok, Some(UdpRelayMode::Quic)),
        TaskAction::Close(TaskError::UnexpectedPacketSource)
    );
    assert_eq!(
        task_step(TaskOrigin::UniStream, Negotiation::Task(TaskKind::Dissociate), ok, None),
        TaskAction::HandleDissociate
    );
    assert_eq!(
        task_step(TaskOrigin::Datagram, Negotiation::Task(TaskKind::Heartbeat), ok, None),
        TaskAction::HandleHeartbeat
    );
}

#[test]
fn camouflage_serving() {
    assert!(camouflage_enabled(Some(true)));
    assert!(!camouflage_enabled(Some(false)));
    assert!(!camouflage_enabled(None));
    assert_eq!(on_forward_result(true), RequestAction::Continue);
    assert_eq!(on_forward_result(false), RequestAction::RespondBadGateway);
    assert_eq!(BAD_GATEWAY, 502);
}

#[test]
fn camouflage_backend_request() {
    let headers = vec![
        header("Connection", b"keep-alive"),
        header("accept", b"*/*"),
        header("host", b"front.example"),
        header("Content-Length", b"3"),
        header("x-token", b"abc"),
        header("host", b"second.example"),
    ];
    assert_eq!(
        forwardable_headers(headers.clone()),
        vec![header("accept", b"*/*"), header("x-token", b"abc")]
    );

    let plan = backend_request_plan("POST".to_string(), Some("/a?b=c".to_string()), headers.clone(), None, b"xyz".to_vec());
    assert_eq!(plan.method, "POST");
    assert_eq!(plan.path_and_query, "/a?b=c");
    assert_eq!(plan.headers, vec![header("accept", b"*/*"), header("x-token", b"abc")]);
    assert!(matches!(plan.host, HostHeader::Request(ref v) if v == b"front.example"));
    assert_eq!(plan.body, Some(b"xyz".to_vec()));

    let plan = backend_request_plan(
        "GET".to_string(),
        None,
        headers,
        Some("backend.internal".to_string()),
        Vec::new(),
    );
    assert_eq!(plan.path_and_query, "/");
    assert!(matches!(plan.host, HostHeader::Override(ref h) if h == "backend.internal"));
    assert_eq!(plan.body, None);

    let plan = backend_request_plan("GET".to_string(), None, vec![header("accept", b"*/*")], None, Vec::new());
    assert!(matches!(plan.host, HostHeader::Absent));
}

#[test]
fn camouflage_response_chunks() {
    assert_eq!(on_response_chunk(0, 10), ChunkAction::Send(10));
    assert_eq!(on_response_chunk(10, 0), ChunkAction::Skip(10));
    assert_eq!(on_response_chunk(MAX_RESPONSE_BODY_SIZE - 1, 1), ChunkAction::Send(MAX_RESPONSE_BODY_SIZE));
    assert_eq!(on_response_chunk(MAX_RESPONSE_BODY_SIZE, 1), ChunkAction::TooLarge);
    assert_eq!(on_response_chunk(usize::MAX, 1), ChunkAction::TooLarge);
}

#[test]
fn log_file_locations() {
    assert_eq!(
        log_file_location(Some(b"/var/log".to_vec()), Some(b"tuic.log".to_vec())),
        Ok(LogFileLocation { dir: b"/var/log".to_vec(), file_name: b"tuic.log".to_vec() })
    );
    assert_eq!(
        log_file_location(Some(Vec::new()), Some(b"tuic.log".to_vec())),
        Ok(LogFileLocation { dir: b".".to_vec(), file_name: b"tuic.log".to_vec() })
    );
    assert_eq!(
        log_file_location(None, Some(b"tuic.log".to_vec())),
        Ok(LogFileLocation { dir: b".".to_vec(), file_name: b"tuic.log".to_vec() })
    );
    assert_eq!(log_file_location(Some(b"/".to_vec()), None), Err(LogFileError::MissingFileName));
}
