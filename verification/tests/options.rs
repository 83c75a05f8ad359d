use tuic::options::{CongestionControl, StackPrefer, UdpRelayMode};

#[test]
fn test_udp_relay_mode_from_str() {
    assert_eq!(UdpRelayMode::from_str("native").unwrap(), UdpRelayMode::Native);
    assert_eq!(UdpRelayMode::from_str("NATIVE").unwrap(), UdpRelayMode::Native);
    assert_eq!(UdpRelayMode::from_str("quic").unwrap(), UdpRelayMode::Quic);
    assert_eq!(UdpRelayMode::from_str("QUIC").unwrap(), UdpRelayMode::Quic);
    assert!(UdpRelayMode::from_str("invalid").is_err());
}

#[test]
fn test_udp_relay_mode_display() {
    assert_eq!(UdpRelayMode::Native.to_string(), "native");
    assert_eq!(UdpRelayMode::Quic.to_string(), "quic");
}

#[test]
fn test_congestion_control_from_str() {
    assert_eq!(CongestionControl::from_str("cubic").unwrap(), CongestionControl::Cubic);
    assert_eq!(CongestionControl::from_str("CUBIC").unwrap(), CongestionControl::Cubic);
    assert_eq!(CongestionControl::from_str("new_reno").unwrap(), CongestionControl::NewReno);
    assert_eq!(CongestionControl::from_str("newreno").unwrap(), CongestionControl::NewReno);
    assert_eq!(CongestionControl::from_str("NEWRENO").unwrap(), CongestionControl::NewReno);
    assert_eq!(CongestionControl::from_str("bbr").unwrap(), CongestionControl::Bbr);
    assert_eq!(CongestionControl::from_str("BBR").unwrap(), CongestionControl::Bbr);
    assert!(CongestionControl::from_str("invalid").is_err());
}

#[test]
fn test_congestion_control_default() {
    let default = CongestionControl::default();
    assert_eq!(default, CongestionControl::Bbr);
}

#[test]
fn test_stack_prefer_from_str() {
    assert_eq!(StackPrefer::from_str("v4").unwrap(), StackPrefer::V4only);
    assert_eq!(StackPrefer::from_str("V4").unwrap(), StackPrefer::V4only);
    assert_eq!(StackPrefer::from_str("v4only").unwrap(), StackPrefer::V4only);
    assert_eq!(StackPrefer::from_str("only_v4").unwrap(), StackPrefer::V4only);
    assert_eq!(StackPrefer::from_str("ONLY_V4").unwrap(), StackPrefer::V4only);
    assert_eq!(StackPrefer::from_str("v6").unwrap(), StackPrefer::V6only);
    assert_eq!(StackPrefer::from_str("V6").unwrap(), StackPrefer::V6only);
    assert_eq!(StackPrefer::from_str("v6only").unwrap(), StackPrefer::V6only);
    assert_eq!(StackPrefer::from_str("only_v6").unwrap(), StackPrefer::V6only);
    assert_eq!(StackPrefer::from_str("ONLY_V6").unwrap(), StackPrefer::V6only);
    assert_eq!(StackPrefer::from_str("v4v6").unwrap(), StackPrefer::V4first);
    assert_eq!(StackPrefer::from_str("V4V6").unwrap(), StackPrefer::V4first);
    assert_eq!(StackPrefer::from_str("v4first").unwrap(), StackPrefer::V4first);
    assert_eq!(StackPrefer::from_str("prefer_v4").unwrap(), StackPrefer::V4first);
    assert_eq!(StackPrefer::from_str("PREFER_V4").unwrap(), StackPrefer::V4first);
    assert_eq!(StackPrefer::from_str("v6v4").unwrap(), StackPrefer::V6first);
    assert_eq!(StackPrefer::from_str("V6V4").unwrap(), StackPrefer::V6first);
    assert_eq!(StackPrefer::from_str("v6first").unwrap(), StackPrefer::V6first);
    assert_eq!(StackPrefer::from_str("prefer_v6").unwrap(), StackPrefer::V6first);
    assert_eq!(StackPrefer::from_str("PREFER_V6").unwrap(), StackPrefer::V6first);
    assert!(StackPrefer::from_str("invalid").is_err());
}

#[test]
fn options_error_messages() {
    assert_eq!(UdpRelayMode::from_str("udp"), Err("invalid UDP relay mode"));
    assert_eq!(CongestionControl::from_str("reno"), Err("invalid congestion control"));
    assert_eq!(StackPrefer::from_str("v5"), Err("invalid stack preference"));
}

#[test]
fn options_edge_cases() {
    // The alias `auto` prefers IPv4.
    assert_eq!(StackPrefer::from_str("Auto").unwrap(), StackPrefer::V4first);
    // Only ASCII letters are case-folded; lengths must match exactly.
    assert!(UdpRelayMode::from_str("native ").is_err());
    assert!(UdpRelayMode::from_str("").is_err());
    assert!(CongestionControl::from_str("new-reno").is_err());
    assert_eq!(CongestionControl::from_str("New_Reno").unwrap(), CongestionControl::NewReno);
    assert_eq!(StackPrefer::default(), StackPrefer::V4only);
}

#[test]
fn options_name_roundtrip() {
    for m in [UdpRelayMode::Native, UdpRelayMode::Quic] {
        assert_eq!(UdpRelayMode::from_str(&m.to_string()).unwrap(), m);
    }
}
