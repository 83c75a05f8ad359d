//! Options shared by the TUIC client and server: the UDP relay mode, the
//! congestion control algorithm and the IP stack preference.
use vstd::prelude::*;
use vstd::string::*;

use crate::text::{ascii_lower, eq_ignore_ascii_case, lemma_eq_ignore_ascii_case_equiv, str_eq_ignore_ascii_case};

verus! {

/// UDP relay mode of the TUIC protocol.
#[derive(Clone, Copy, Debug, PartialEq, Eq, Structural)]
pub enum UdpRelayMode {
    Native,
    Quic,
}

/// The name a relay mode is written with.
pub open spec fn udp_relay_mode_name(m: UdpRelayMode) -> Seq<char> {
    match m {
        UdpRelayMode::Native => "native"@,
        UdpRelayMode::Quic => "quic"@,
    }
}

/// The relay mode a name stands for, ignoring ASCII case.
pub open spec fn parse_udp_relay_mode(s: Seq<char>) -> Option<UdpRelayMode> {
    if eq_ignore_ascii_case(s, "native"@) {
        Some(UdpRelayMode::Native)
    } else if eq_ignore_ascii_case(s, "quic"@) {
        Some(UdpRelayMode::Quic)
    } else {
        None
    }
}

impl UdpRelayMode {
    /// Parses a relay mode: `native` or `quic`, in any ASCII case.
    pub fn from_str(s: &str) -> (r: Result<UdpRelayMode, &'static str>)
        ensures
            match r {
                Ok(m) => parse_udp_relay_mode(s@) == Some(m),
                Err(e) => parse_udp_relay_mode(s@) is None && e@ == "invalid UDP relay mode"@,
            },
    {
        if str_eq_ignore_ascii_case(s, "native") {
            Ok(UdpRelayMode::Native)
        } else if str_eq_ignore_ascii_case(s, "quic") {
            Ok(UdpRelayMode::Quic)
        } else {
            Err("invalid UDP relay mode")
        }
    }

    /// The lower-case name of the mode.
    pub fn to_string(&self) -> (r: String)
        ensures
            r@ == udp_relay_mode_name(*self),
    {
        match self {
            UdpRelayMode::Native => String::from_str("native"),
            UdpRelayMode::Quic => String::from_str("quic"),
        }
    }
}

/// The name a relay mode is written with parses back to that mode.
pub proof fn lemma_udp_relay_mode_name_roundtrip(m: UdpRelayMode)
    ensures
        parse_udp_relay_mode(udp_relay_mode_name(m)) == Some(m),
{
    reveal_strlit("native");
    reveal_strlit("quic");
    if m == UdpRelayMode::Quic {
        let q = "quic"@;
        let n = "native"@;
        assert(q.len() != n.len());
        assert(!eq_ignore_ascii_case(q, n));
    }
}

/// Congestion control algorithm used on the QUIC connection.
#[derive(Clone, Copy, Debug, PartialEq, Eq, Structural)]
pub enum CongestionControl {
    Bbr,
    Cubic,
    NewReno,
}

/// The algorithm a name stands for, ignoring ASCII case.
pub open spec fn parse_congestion_control(s: Seq<char>) -> Option<CongestionControl> {
    if eq_ignore_ascii_case(s, "cubic"@) {
        Some(CongestionControl::Cubic)
    } else if eq_ignore_ascii_case(s, "new_reno"@) || eq_ignore_ascii_case(s, "newreno"@) {
        Some(CongestionControl::NewReno)
    } else if eq_ignore_ascii_case(s, "bbr"@) {
        Some(CongestionControl::Bbr)
    } else {
        None
    }
}

impl CongestionControl {
    /// Parses an algorithm: `cubic`, `new_reno` or `newreno`, or `bbr`, in
    /// any ASCII case.
    pub fn from_str(s: &str) -> (r: Result<CongestionControl, &'static str>)
        ensures
            match r {
                Ok(c) => parse_congestion_control(s@) == Some(c),
                Err(e) => parse_congestion_control(s@) is None && e@ == "invalid congestion control"@,
            },
    {
        if str_eq_ignore_ascii_case(s, "cubic") {
            Ok(CongestionControl::Cubic)
        } else if str_eq_ignore_ascii_case(s, "new_reno") || str_eq_ignore_ascii_case(s, "newreno") {
            Ok(CongestionControl::NewReno)
        } else if str_eq_ignore_ascii_case(s, "bbr") {
            Ok(CongestionControl::Bbr)
        } else {
            Err("invalid congestion control")
        }
    }
}

impl Default for CongestionControl {
    /// BBR is the default algorithm.
    fn default() -> (r: CongestionControl)
        ensures
            r == CongestionControl::Bbr,
    {
        CongestionControl::Bbr
    }
}

/// IP stack preference for address resolution.
#[derive(Clone, Copy, Debug, PartialEq, Eq, Structural)]
pub enum StackPrefer {
    /// Use only IPv4 addresses
    V4only,
    /// Use only IPv6 addresses
    V6only,
    /// Prefer IPv4, fall back to IPv6
    V4first,
    /// Prefer IPv6, fall back to IPv4
    V6first,
}

/// The preference a name stands for, ignoring ASCII case.
pub open spec fn parse_stack_prefer(s: Seq<char>) -> Option<StackPrefer> {
    if eq_ignore_ascii_case(s, "v4"@) || eq_ignore_ascii_case(s, "v4only"@)
        || eq_ignore_ascii_case(s, "only_v4"@) {
        Some(StackPrefer::V4only)
    } else if eq_ignore_ascii_case(s, "v6"@) || eq_ignore_ascii_case(s, "v6only"@)
        || eq_ignore_ascii_case(s, "only_v6"@) {
        Some(StackPrefer::V6only)
    } else if eq_ignore_ascii_case(s, "v4v6"@) || eq_ignore_ascii_case(s, "v4first"@)
        || eq_ignore_ascii_case(s, "prefer_v4"@) || eq_ignore_ascii_case(s, "auto"@) {
        Some(StackPrefer::V4first)
    } else if eq_ignore_ascii_case(s, "v6v4"@) || eq_ignore_ascii_case(s, "v6first"@)
        || eq_ignore_ascii_case(s, "prefer_v6"@) {
        Some(StackPrefer::V6first)
    } else {
        None
    }
}

impl StackPrefer {
    /// Parses a preference, ignoring ASCII case: `v4`, `v4only`, `only_v4`;
    /// `v6`, `v6only`, `only_v6`; `v4v6`, `v4first`, `prefer_v4`, `auto`;
    /// `v6v4`, `v6first`, `prefer_v6`.
    pub fn from_str(s: &str) -> (r: Result<StackPrefer, &'static str>)
        ensures
            match r {
                Ok(p) => parse_stack_prefer(s@) == Some(p),
                Err(e) => parse_stack_prefer(s@) is None && e@ == "invalid stack preference"@,
            },
    {
        if str_eq_ignore_ascii_case(s, "v4") || str_eq_ignore_ascii_case(s, "v4only")
            || str_eq_ignore_ascii_case(s, "only_v4") {
            Ok(StackPrefer::V4only)
        } else if str_eq_ignore_ascii_case(s, "v6") || str_eq_ignore_ascii_case(s, "v6only")
            || str_eq_ignore_ascii_case(s, "only_v6") {
            Ok(StackPrefer::V6only)
        } else if str_eq_ignore_ascii_case(s, "v4v6") || str_eq_ignore_ascii_case(s, "v4first")
            || str_eq_ignore_ascii_case(s, "prefer_v4") || str_eq_ignore_ascii_case(s, "auto") {
            Ok(StackPrefer::V4first)
        } else if str_eq_ignore_ascii_case(s, "v6v4") || str_eq_ignore_ascii_case(s, "v6first")
            || str_eq_ignore_ascii_case(s, "prefer_v6") {
            Ok(StackPrefer::V6first)
        } else {
            Err("invalid stack preference")
        }
    }
}

impl Default for StackPrefer {
    /// IPv4 only is the default preference.
    fn default() -> (r: StackPrefer)
        ensures
            r == StackPrefer::V4only,
    {
        StackPrefer::V4only
    }
}

/// Parsing ignores ASCII case: two names that differ only in the case of
/// ASCII letters parse to the same relay mode, algorithm and preference.
pub proof fn lemma_parsing_ignores_case(s: Seq<char>, t: Seq<char>)
    requires
        eq_ignore_ascii_case(s, t),
    ensures
        parse_udp_relay_mode(s) == parse_udp_relay_mode(t),
        parse_congestion_control(s) == parse_congestion_control(t),
        parse_stack_prefer(s) == parse_stack_prefer(t),
{
    lemma_eq_ignore_ascii_case_equiv(s, t, "native"@);
    lemma_eq_ignore_ascii_case_equiv(s, t, "quic"@);
    lemma_eq_ignore_ascii_case_equiv(s, t, "cubic"@);
    lemma_eq_ignore_ascii_case_equiv(s, t, "new_reno"@);
    lemma_eq_ignore_ascii_case_equiv(s, t, "newreno"@);
    lemma_eq_ignore_ascii_case_equiv(s, t, "bbr"@);
    lemma_eq_ignore_ascii_case_equiv(s, t, "v4"@);
    lemma_eq_ignore_ascii_case_equiv(s, t, "v4only"@);
    lemma_eq_ignore_ascii_case_equiv(s, t, "only_v4"@);
    lemma_eq_ignore_ascii_case_equiv(s, t, "v6"@);
    lemma_eq_ignore_ascii_case_equiv(s, t, "v6only"@);
    lemma_eq_ignore_ascii_case_equiv(s, t, "only_v6"@);
    lemma_eq_ignore_ascii_case_equiv(s, t, "v4v6"@);
    lemma_eq_ignore_ascii_case_equiv(s, t, "v4first"@);
    lemma_eq_ignore_ascii_case_equiv(s, t, "prefer_v4"@);
    lemma_eq_ignore_ascii_case_equiv(s, t, "auto"@);
    lemma_eq_ignore_ascii_case_equiv(s, t, "v6v4"@);
    lemma_eq_ignore_ascii_case_equiv(s, t, "v6first"@);
    lemma_eq_ignore_ascii_case_equiv(s, t, "prefer_v6"@);
}

/// Every ASCII case variant of a relay mode's or an algorithm's name parses
/// to it: `native`, `quic`; `cubic`; `new_reno` and `newreno`; `bbr`.
pub proof fn lemma_option_names(s: Seq<char>)
    ensures
        eq_ignore_ascii_case(s, "native"@) ==> parse_udp_relay_mode(s) == Some(UdpRelayMode::Native),
        eq_ignore_ascii_case(s, "quic"@) ==> parse_udp_relay_mode(s) == Some(UdpRelayMode::Quic),
        eq_ignore_ascii_case(s, "cubic"@) ==> parse_congestion_control(s) == Some(CongestionControl::Cubic),
        eq_ignore_ascii_case(s, "new_reno"@) ==> parse_congestion_control(s) == Some(
            CongestionControl::NewReno,
        ),
        eq_ignore_ascii_case(s, "newreno"@) ==> parse_congestion_control(s) == Some(
            CongestionControl::NewReno,
        ),
        eq_ignore_ascii_case(s, "bbr"@) ==> parse_congestion_control(s) == Some(CongestionControl::Bbr),
{
    reveal_strlit("native");
    reveal_strlit("quic");
    reveal_strlit("cubic");
    reveal_strlit("new_reno");
    reveal_strlit("newreno");
    reveal_strlit("bbr");
}

/// Every ASCII case variant of a stack preference's names parses to it:
/// `v4`, `v4only`, `only_v4`; `v6`, `v6only`, `only_v6`; `v4v6`, `v4first`,
/// `prefer_v4`, `auto`; `v6v4`, `v6first`, `prefer_v6`.
pub proof fn lemma_stack_prefer_names(s: Seq<char>)
    ensures
        eq_ignore_ascii_case(s, "v4"@) ==> parse_stack_prefer(s) == Some(StackPrefer::V4only),
        eq_ignore_ascii_case(s, "v4only"@) ==> parse_stack_prefer(s) == Some(StackPrefer::V4only),
        eq_ignore_ascii_case(s, "only_v4"@) ==> parse_stack_prefer(s) == Some(StackPrefer::V4only),
        eq_ignore_ascii_case(s, "v6"@) ==> parse_stack_prefer(s) == Some(StackPrefer::V6only),
        eq_ignore_ascii_case(s, "v6only"@) ==> parse_stack_prefer(s) == Some(StackPrefer::V6only),
        eq_ignore_ascii_case(s, "only_v6"@) ==> parse_stack_prefer(s) == Some(StackPrefer::V6only),
        eq_ignore_ascii_case(s, "v4v6"@) ==> parse_stack_prefer(s) == Some(StackPrefer::V4first),
        eq_ignore_ascii_case(s, "v4first"@) ==> parse_stack_prefer(s) == Some(StackPrefer::V4first),
        eq_ignore_ascii_case(s, "prefer_v4"@) ==> parse_stack_prefer(s) == Some(StackPrefer::V4first),
        eq_ignore_ascii_case(s, "auto"@) ==> parse_stack_prefer(s) == Some(StackPrefer::V4first),
        eq_ignore_ascii_case(s, "v6v4"@) ==> parse_stack_prefer(s) == Some(StackPrefer::V6first),
        eq_ignore_ascii_case(s, "v6first"@) ==> parse_stack_prefer(s) == Some(StackPrefer::V6first),
        eq_ignore_ascii_case(s, "prefer_v6"@) ==> parse_stack_prefer(s) == Some(StackPrefer::V6first),
{
    reveal_strlit("v4");
    reveal_strlit("v4only");
    reveal_strlit("only_v4");
    reveal_strlit("v6");
    reveal_strlit("v6only");
    reveal_strlit("only_v6");
    reveal_strlit("v4v6");
    reveal_strlit("v4first");
    reveal_strlit("prefer_v4");
    reveal_strlit("auto");
    reveal_strlit("v6v4");
    reveal_strlit("v6first");
    reveal_strlit("prefer_v6");
    if eq_ignore_ascii_case(s, "v6"@) {
        lemma_eq_ignore_ascii_case_equiv(s, "v6"@, "v4"@);
        assert(ascii_lower("v6"@[1]) != ascii_lower("v4"@[1]));
    }
    if eq_ignore_ascii_case(s, "v6only"@) {
        lemma_eq_ignore_ascii_case_equiv(s, "v6only"@, "v4only"@);
        assert(ascii_lower("v6only"@[1]) != ascii_lower("v4only"@[1]));
    }
    if eq_ignore_ascii_case(s, "only_v6"@) {
        lemma_eq_ignore_ascii_case_equiv(s, "only_v6"@, "only_v4"@);
        assert(ascii_lower("only_v6"@[6]) != ascii_lower("only_v4"@[6]));
    }
    if eq_ignore_ascii_case(s, "v4first"@) {
        lemma_eq_ignore_ascii_case_equiv(s, "v4first"@, "only_v4"@);
        assert(ascii_lower("v4first"@[0]) != ascii_lower("only_v4"@[0]));
        lemma_eq_ignore_ascii_case_equiv(s, "v4first"@, "only_v6"@);
        assert(ascii_lower("v4first"@[0]) != ascii_lower("only_v6"@[0]));
    }
    if eq_ignore_ascii_case(s, "v6v4"@) {
        lemma_eq_ignore_ascii_case_equiv(s, "v6v4"@, "v4v6"@);
        assert(ascii_lower("v6v4"@[1]) != ascii_lower("v4v6"@[1]));
        lemma_eq_ignore_ascii_case_equiv(s, "v6v4"@, "auto"@);
        assert(ascii_lower("v6v4"@[0]) != ascii_lower("auto"@[0]));
    }
    if eq_ignore_ascii_case(s, "v6first"@) {
        lemma_eq_ignore_ascii_case_equiv(s, "v6first"@, "only_v4"@);
        assert(ascii_lower("v6first"@[0]) != ascii_lower("only_v4"@[0]));
        lemma_eq_ignore_ascii_case_equiv(s, "v6first"@, "only_v6"@);
        assert(ascii_lower("v6first"@[0]) != ascii_lower("only_v6"@[0]));
        lemma_eq_ignore_ascii_case_equiv(s, "v6first"@, "v4first"@);
        assert(ascii_lower("v6first"@[1]) != ascii_lower("v4first"@[1]));
    }
    if eq_ignore_ascii_case(s, "prefer_v6"@) {
        lemma_eq_ignore_ascii_case_equiv(s, "prefer_v6"@, "prefer_v4"@);
        assert(ascii_lower("prefer_v6"@[8]) != ascii_lower("prefer_v4"@[8]));
    }
}

} // verus!
