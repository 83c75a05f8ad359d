//! Decisions of the relay connection: which transport UDP packets may
//! arrive on, how the client's first connection is made, and when the
//! server raises its limit of concurrent streams.
use vstd::prelude::*;

use crate::options::UdpRelayMode;

verus! {

/// The transport a TUIC `Packet` arrived on.
#[derive(Clone, Copy, Debug, PartialEq, Eq, Structural)]
pub enum PacketSource {
    /// A unidirectional QUIC stream (the `quic` relay mode).
    UniStream,
    /// A QUIC datagram (the `native` relay mode).
    Datagram,
}

/// The relay mode whose packets travel on a transport.
pub open spec fn spec_mode_of_source(source: PacketSource) -> UdpRelayMode {
    match source {
        PacketSource::UniStream => UdpRelayMode::Quic,
        PacketSource::Datagram => UdpRelayMode::Native,
    }
}

/// The relay mode whose packets travel on a transport: the server relays a
/// packet with the mode of the transport it came on.
pub fn mode_of_source(source: PacketSource) -> (r: UdpRelayMode)
    ensures
        r == spec_mode_of_source(source),
{
    match source {
        PacketSource::UniStream => UdpRelayMode::Quic,
        PacketSource::Datagram => UdpRelayMode::Native,
    }
}

/// Whether the client accepts a packet: only on its mode's transport.
pub open spec fn spec_client_accepts(mode: UdpRelayMode, source: PacketSource) -> bool {
    mode == spec_mode_of_source(source)
}

/// Whether the server refuses a packet: only on the transport of the other
/// mode than the one the client told, if it told one.
pub open spec fn spec_server_rejects(mode: Option<UdpRelayMode>, source: PacketSource) -> bool {
    match mode {
        Some(m) => m != spec_mode_of_source(source),
        None => false,
    }
}

/// Whether the client accepts a packet from the server: only on the
/// transport of its configured relay mode. Any other packet is a wrong
/// packet source.
pub fn client_accepts_packet(mode: UdpRelayMode, source: PacketSource) -> (r: bool)
    ensures
        r == spec_client_accepts(mode, source),
{
    match (mode, source) {
        (UdpRelayMode::Quic, PacketSource::UniStream) => true,
        (UdpRelayMode::Native, PacketSource::Datagram) => true,
        _ => false,
    }
}

/// Whether the server refuses a packet from the client: when the client has
/// told its relay mode, a packet on the other mode's transport is an
/// unexpected packet source; before that, any transport is accepted.
pub fn server_rejects_packet(mode: Option<UdpRelayMode>, source: PacketSource) -> (r: bool)
    ensures
        r == spec_server_rejects(mode, source),
{
    match (mode, source) {
        (Some(UdpRelayMode::Native), PacketSource::UniStream) => true,
        (Some(UdpRelayMode::Quic), PacketSource::Datagram) => true,
        _ => false,
    }
}

/// Client and server agree on packets: once the server knows the client's
/// relay mode, it refuses a packet exactly when the client, in that mode,
/// would refuse one on the same transport.
pub proof fn lemma_packet_sources_agree(mode: UdpRelayMode, source: PacketSource)
    ensures
        spec_client_accepts(mode, source) == !spec_server_rejects(Some(mode), source),
{
}

/// The kind of a task a client opens on the server.
#[derive(Clone, Copy, Debug, PartialEq, Eq, Structural)]
pub enum TaskKind {
    Authenticate,
    Connect,
    Packet,
    Dissociate,
    Heartbeat,
}

/// What a task arrived on.
#[derive(Clone, Copy, Debug, PartialEq, Eq, Structural)]
pub enum TaskOrigin {
    UniStream,
    BiStream,
    Datagram,
}

/// How reading a task's header ended.
#[derive(Clone, Copy, Debug, PartialEq, Eq, Structural)]
pub enum Negotiation {
    /// The stream did not deliver a header in time.
    TimedOut,
    /// The header could not be read or parsed.
    Failed,
    /// A task of this kind.
    Task(TaskKind),
}

/// Where the connection's authentication stands once the task is read:
/// an `Authenticate` task has been checked, and any other task has waited
/// for the connection to be authenticated.
#[derive(Clone, Copy, Debug, PartialEq, Eq, Structural)]
pub enum Authentication {
    /// The connection is authenticated.
    Authenticated,
    /// The task's credentials were refused.
    Refused,
    /// The connection closed before it was authenticated.
    Closed,
}

/// Why the server closes a connection over a task.
#[derive(Clone, Copy, Debug, PartialEq, Eq, Structural)]
pub enum TaskError {
    NegotiationTimeout,
    Negotiation,
    Authentication,
    ConnectionClosed,
    UnexpectedPacketSource,
}

/// What the server does with a task.
#[derive(Clone, Copy, Debug, PartialEq, Eq, Structural)]
pub enum TaskAction {
    /// Close the connection over this error.
    Close(TaskError),
    HandleAuthenticate,
    HandleConnect,
    /// Relay the packet with this relay mode.
    HandlePacket(UdpRelayMode),
    HandleDissociate,
    HandleHeartbeat,
}

/// The tasks each transport carries: `Authenticate`, `Packet` and
/// `Dissociate` on unidirectional streams, `Connect` on bidirectional
/// streams, `Packet` and `Heartbeat` on datagrams; only streams time out.
pub open spec fn task_expected(origin: TaskOrigin, negotiation: Negotiation) -> bool {
    match negotiation {
        Negotiation::TimedOut => origin != TaskOrigin::Datagram,
        Negotiation::Failed => true,
        Negotiation::Task(k) => match origin {
            TaskOrigin::UniStream => k == TaskKind::Authenticate || k == TaskKind::Packet || k
                == TaskKind::Dissociate,
            TaskOrigin::BiStream => k == TaskKind::Connect,
            TaskOrigin::Datagram => k == TaskKind::Packet || k == TaskKind::Heartbeat,
        },
    }
}

/// The transport a packet of a task's origin travelled on.
pub open spec fn spec_packet_source(origin: TaskOrigin) -> PacketSource {
    match origin {
        TaskOrigin::Datagram => PacketSource::Datagram,
        _ => PacketSource::UniStream,
    }
}

/// What the server does with a task: a failed negotiation, a refused
/// authentication, a connection closed before authentication, or a packet
/// on the other relay mode's transport closes the connection, in that
/// order; otherwise the task is handled, a packet with the relay mode of
/// its transport.
pub open spec fn spec_task_step(
    origin: TaskOrigin,
    negotiation: Negotiation,
    auth: Authentication,
    mode: Option<UdpRelayMode>,
) -> TaskAction {
    match negotiation {
        Negotiation::TimedOut => TaskAction::Close(TaskError::NegotiationTimeout),
        Negotiation::Failed => TaskAction::Close(TaskError::Negotiation),
        Negotiation::Task(k) => match auth {
            Authentication::Refused => TaskAction::Close(TaskError::Authentication),
            Authentication::Closed => TaskAction::Close(TaskError::ConnectionClosed),
            Authentication::Authenticated => if k == TaskKind::Packet && spec_server_rejects(
                mode,
                spec_packet_source(origin),
            ) {
                TaskAction::Close(TaskError::UnexpectedPacketSource)
            } else {
                match k {
                    TaskKind::Authenticate => TaskAction::HandleAuthenticate,
                    TaskKind::Connect => TaskAction::HandleConnect,
                    TaskKind::Packet => TaskAction::HandlePacket(
                        spec_mode_of_source(spec_packet_source(origin)),
                    ),
                    TaskKind::Dissociate => TaskAction::HandleDissociate,
                    TaskKind::Heartbeat => TaskAction::HandleHeartbeat,
                }
            },
        },
    }
}

/// Decides what the server does with a task read from a unidirectional
/// stream (`Authenticate`, `Packet`, `Dissociate`), a bidirectional stream
/// (`Connect`) or a datagram (`Packet`, `Heartbeat`), once its header has
/// been read or has failed, and the connection's authentication is settled.
pub fn task_step(
    origin: TaskOrigin,
    negotiation: Negotiation,
    auth: Authentication,
    mode: Option<UdpRelayMode>,
) -> (r: TaskAction)
    requires
        task_expected(origin, negotiation),
    ensures
        r == spec_task_step(origin, negotiation, auth, mode),
{
    let kind = match negotiation {
        Negotiation::TimedOut => return TaskAction::Close(TaskError::NegotiationTimeout),
        Negotiation::Failed => return TaskAction::Close(TaskError::Negotiation),
        Negotiation::Task(k) => k,
    };
    match auth {
        Authentication::Refused => return TaskAction::Close(TaskError::Authentication),
        Authentication::Closed => return TaskAction::Close(TaskError::ConnectionClosed),
        Authentication::Authenticated => {},
    }
    let source = match origin {
        TaskOrigin::Datagram => PacketSource::Datagram,
        _ => PacketSource::UniStream,
    };
    match kind {
        TaskKind::Authenticate => TaskAction::HandleAuthenticate,
        TaskKind::Connect => TaskAction::HandleConnect,
        TaskKind::Packet => if server_rejects_packet(mode, source) {
            TaskAction::Close(TaskError::UnexpectedPacketSource)
        } else {
            TaskAction::HandlePacket(mode_of_source(source))
        },
        TaskKind::Dissociate => TaskAction::HandleDissociate,
        TaskKind::Heartbeat => TaskAction::HandleHeartbeat,
    }
}

/// The server relays only packets the client would relay in the same mode:
/// a packet is handled exactly when it came on the transport of the relay
/// mode the client told (or the client told none yet), and then with that
/// transport's mode.
pub proof fn lemma_task_packets(origin: TaskOrigin, mode: UdpRelayMode)
    requires
        origin != TaskOrigin::BiStream,
    ensures
        spec_task_step(origin, Negotiation::Task(TaskKind::Packet), Authentication::Authenticated, Some(mode))
            == (if spec_client_accepts(mode, spec_packet_source(origin)) {
            TaskAction::HandlePacket(mode)
        } else {
            TaskAction::Close(TaskError::UnexpectedPacketSource)
        }),
{
}

/// A packet is relayed with the relay mode of the transport it came on,
/// whatever the client has told: `native` for a datagram, `quic` for a
/// unidirectional stream. Before the client has told its mode, every
/// authenticated packet is relayed; afterwards, a packet is either relayed
/// that way or closes the connection as an unexpected packet source.
pub proof fn lemma_packet_relay_mode(origin: TaskOrigin, mode: Option<UdpRelayMode>)
    requires
        origin != TaskOrigin::BiStream,
    ensures
        ({
            let r = spec_task_step(origin, Negotiation::Task(TaskKind::Packet), Authentication::Authenticated, mode);
            let transport_mode = if origin == TaskOrigin::Datagram {
                UdpRelayMode::Native
            } else {
                UdpRelayMode::Quic
            };
            &&& r matches TaskAction::HandlePacket(x) ==> x == transport_mode
            &&& mode is None ==> r == TaskAction::HandlePacket(transport_mode)
            &&& r == TaskAction::HandlePacket(transport_mode) || r == TaskAction::Close(
                TaskError::UnexpectedPacketSource,
            )
            &&& r == TaskAction::Close(TaskError::UnexpectedPacketSource) <==> (mode is Some && mode
                != Some(transport_mode))
        }),
{
}

/// The server closes the connection over a task exactly when reading its
/// header timed out or failed, its authentication was refused, the
/// connection closed before it was authenticated, or it is a packet on the
/// other relay mode's transport; each with its own error. Every other task
/// is handled by its kind.
pub proof fn lemma_task_outcomes(origin: TaskOrigin, negotiation: Negotiation, auth: Authentication, mode: Option<UdpRelayMode>)
    requires
        task_expected(origin, negotiation),
    ensures
        ({
            let r = spec_task_step(origin, negotiation, auth, mode);
            &&& negotiation == Negotiation::TimedOut ==> r == TaskAction::Close(TaskError::NegotiationTimeout)
            &&& negotiation == Negotiation::Failed ==> r == TaskAction::Close(TaskError::Negotiation)
            &&& negotiation is Task && auth == Authentication::Refused ==> r == TaskAction::Close(
                TaskError::Authentication,
            )
            &&& negotiation is Task && auth == Authentication::Closed ==> r == TaskAction::Close(
                TaskError::ConnectionClosed,
            )
            &&& auth == Authentication::Authenticated ==> {
                &&& negotiation == Negotiation::Task(TaskKind::Authenticate) ==> r == TaskAction::HandleAuthenticate
                &&& negotiation == Negotiation::Task(TaskKind::Connect) ==> r == TaskAction::HandleConnect
                &&& negotiation == Negotiation::Task(TaskKind::Dissociate) ==> r == TaskAction::HandleDissociate
                &&& negotiation == Negotiation::Task(TaskKind::Heartbeat) ==> r == TaskAction::HandleHeartbeat
            }
            &&& r is HandlePacket ==> negotiation == Negotiation::Task(TaskKind::Packet) && auth
                == Authentication::Authenticated
        }),
{
}

/// When the client makes its first relay connection.
#[derive(Clone, Copy, Debug, PartialEq, Eq, Structural)]
pub enum StartupMode {
    /// At startup; the process exits if it fails.
    Eager,
    /// On the first request; the process exits if it fails.
    Lazy,
    /// On the first request, retrying until it succeeds.
    Loop,
}

impl StartupMode {
    /// Whether the client connects at startup.
    pub fn connects_at_startup(&self) -> (r: bool)
        ensures
            r == (*self == StartupMode::Eager),
    {
        match self {
            StartupMode::Eager => true,
            _ => false,
        }
    }
}

/// What the client does after an attempt to get the relay connection.
#[derive(Clone, Copy, Debug, PartialEq, Eq, Structural)]
pub enum ConnectStep {
    /// Hand the connection to the caller.
    ReturnConnection,
    /// Hand the error to the caller.
    ReturnError,
    /// The first connection failed: exit the process.
    Exit,
    /// The first connection failed: wait a second and try again.
    Retry,
}

/// Whether the client has made its first relay connection, and how it
/// makes it.
pub struct ConnectGate {
    pub first_connected: bool,
    pub mode: StartupMode,
}

/// What follows an attempt, by whether the first connection was made
/// before it and whether it succeeded.
pub open spec fn spec_connect_step(first_connected: bool, mode: StartupMode, ok: bool) -> ConnectStep {
    if ok {
        ConnectStep::ReturnConnection
    } else if first_connected {
        ConnectStep::ReturnError
    } else if mode == StartupMode::Loop {
        ConnectStep::Retry
    } else {
        ConnectStep::Exit
    }
}

impl ConnectGate {
    /// No relay connection made yet.
    pub fn new(mode: StartupMode) -> (r: ConnectGate)
        ensures
            r.first_connected == false,
            r.mode == mode,
    {
        ConnectGate { first_connected: false, mode }
    }

    /// Records an attempt to get the relay connection and says what
    /// follows. Once a connection has been made, errors go to the caller;
    /// before that, a failure exits the process, or is retried in loop mode.
    pub fn on_attempt(&mut self, ok: bool) -> (r: ConnectStep)
        ensures
            r == spec_connect_step(old(self).first_connected, old(self).mode, ok),
            final(self).first_connected == (old(self).first_connected || ok),
            final(self).mode == old(self).mode,
    {
        if ok {
            self.first_connected = true;
            ConnectStep::ReturnConnection
        } else if self.first_connected {
            ConnectStep::ReturnError
        } else {
            match self.mode {
                StartupMode::Loop => ConnectStep::Retry,
                _ => ConnectStep::Exit,
            }
        }
    }
}

/// The first connection is made once: an error reaches a caller only after
/// it, a retry happens only before it and only in loop mode, and the
/// process exits only before it and never in loop mode.
pub proof fn lemma_connect_steps(first_connected: bool, mode: StartupMode, ok: bool)
    ensures
        spec_connect_step(first_connected, mode, ok) == ConnectStep::ReturnError ==> first_connected,
        spec_connect_step(first_connected, mode, ok) == ConnectStep::Retry ==> !first_connected
            && mode == StartupMode::Loop,
        spec_connect_step(first_connected, mode, ok) == ConnectStep::Exit ==> !first_connected
            && mode != StartupMode::Loop,
        ok <==> spec_connect_step(first_connected, mode, ok) == ConnectStep::ReturnConnection,
{
}

/// The raised limit of concurrent streams of a kind, if the count of open
/// streams has reached the threshold (70% of the current limit): twice
/// the current limit.
pub fn raised_stream_limit(current_max: u32, open_streams: usize, threshold: usize) -> (r: Option<u32>)
    requires
        current_max <= u32::MAX / 2,
    ensures
        r == (if open_streams >= threshold {
            Some((2 * current_max) as u32)
        } else {
            None
        }),
{
    if open_streams >= threshold {
        Some(current_max * 2)
    } else {
        None
    }
}

} // verus!
