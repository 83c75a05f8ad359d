//! Decisions of the client's SOCKS5 server: the target addresses it relays
//! to, and the steps of its CONNECT and UDP ASSOCIATE commands.
use vstd::prelude::*;

use crate::address::Address;
use crate::net::{spec_unmap, unmap_socket_addr, SocketAddr};

verus! {

/// A SOCKS5 address: a socket address, or a domain with a port.
#[derive(Clone, Debug, PartialEq, Eq)]
pub enum Socks5Address {
    SocketAddress(SocketAddr),
    DomainAddress(String, u16),
}

/// The TUIC address a SOCKS5 target is relayed to: the same domain and
/// port, or the same socket address.
pub open spec fn spec_tuic_target(a: Socks5Address) -> Address {
    match a {
        Socks5Address::DomainAddress(d, p) => Address::DomainAddress(d, p),
        Socks5Address::SocketAddress(s) => Address::SocketAddress(s),
    }
}

/// The TUIC address a SOCKS5 target is relayed to.
pub fn tuic_target(a: Socks5Address) -> (r: Address)
    ensures
        r == spec_tuic_target(a),
{
    match a {
        Socks5Address::DomainAddress(d, p) => Address::DomainAddress(d, p),
        Socks5Address::SocketAddress(s) => Address::SocketAddress(s),
    }
}

/// A SOCKS5 address with an IPv4-mapped IPv6 socket address written in its
/// IPv4 form.
pub open spec fn spec_unmap_address(a: Socks5Address) -> Socks5Address {
    match a {
        Socks5Address::SocketAddress(s) => Socks5Address::SocketAddress(spec_unmap(s)),
        _ => a,
    }
}

/// Writes an IPv4-mapped IPv6 socket address in its IPv4 form.
pub fn unmap_address(a: Socks5Address) -> (r: Socks5Address)
    ensures
        r == spec_unmap_address(a),
{
    match a {
        Socks5Address::SocketAddress(s) => Socks5Address::SocketAddress(unmap_socket_addr(s)),
        other => other,
    }
}

/// Where a CONNECT command stands.
#[derive(Clone, Copy, Debug, PartialEq, Eq, Structural)]
pub enum ConnectState {
    /// Waiting for the relay stream to the target.
    Starting,
    /// Replying `Succeeded` to the client.
    ReplyingSuccess,
    /// Replying `GeneralFailure` to the client.
    ReplyingFailure,
    /// Copying between the client and the relay stream.
    Relaying,
    /// Over.
    Done,
}

/// What happened to a CONNECT command.
#[derive(Clone, Copy, Debug, PartialEq, Eq, Structural)]
pub enum ConnectEvent {
    /// The relay stream to the target is open.
    RelayReady,
    /// No relay stream could be opened.
    RelayFailed,
    /// The reply reached the client.
    ReplySent,
    /// The reply could not be sent.
    ReplyFailed,
    /// The copy ended without error.
    CopyFinished,
    /// The copy ended with an error.
    CopyFailed,
}

/// What the SOCKS5 server does next for a CONNECT command.
#[derive(Clone, Copy, Debug, PartialEq, Eq, Structural)]
pub enum ConnectAction {
    /// Reply `Succeeded` with the unspecified address.
    ReplySucceeded,
    /// Reply `GeneralFailure` with the unspecified address.
    ReplyGeneralFailure,
    /// Shut the client connection down.
    ShutdownClient,
    /// Shut the relay stream down.
    ShutdownRelay,
    /// Copy between the client and the relay stream in both directions.
    Copy,
    /// Shut the client connection down and reset the relay stream.
    ShutdownClientAndResetRelay,
    /// Nothing more.
    Finish,
}

/// Whether an event can happen where a CONNECT command stands.
pub open spec fn connect_event_expected(s: ConnectState, e: ConnectEvent) -> bool {
    match s {
        ConnectState::Starting => e == ConnectEvent::RelayReady || e == ConnectEvent::RelayFailed,
        ConnectState::ReplyingSuccess | ConnectState::ReplyingFailure => e == ConnectEvent::ReplySent
            || e == ConnectEvent::ReplyFailed,
        ConnectState::Relaying => e == ConnectEvent::CopyFinished || e == ConnectEvent::CopyFailed,
        ConnectState::Done => false,
    }
}

/// The next state and action of a CONNECT command. Without a relay stream
/// the client gets `GeneralFailure` and is shut down; with one it gets
/// `Succeeded` and the two are copied; a copy error shuts the client down
/// and resets the relay stream; a failed success reply shuts the relay
/// stream down.
pub open spec fn spec_connect_step(s: ConnectState, e: ConnectEvent) -> (ConnectState, ConnectAction) {
    match (s, e) {
        (ConnectState::Starting, ConnectEvent::RelayReady) => (ConnectState::ReplyingSuccess, ConnectAction::ReplySucceeded),
        (ConnectState::Starting, _) => (ConnectState::ReplyingFailure, ConnectAction::ReplyGeneralFailure),
        (ConnectState::ReplyingSuccess, ConnectEvent::ReplySent) => (ConnectState::Relaying, ConnectAction::Copy),
        (ConnectState::ReplyingSuccess, _) => (ConnectState::Done, ConnectAction::ShutdownRelay),
        (ConnectState::ReplyingFailure, ConnectEvent::ReplySent) => (ConnectState::Done, ConnectAction::ShutdownClient),
        (ConnectState::ReplyingFailure, _) => (ConnectState::Done, ConnectAction::Finish),
        (ConnectState::Relaying, ConnectEvent::CopyFailed) => (ConnectState::Done, ConnectAction::ShutdownClientAndResetRelay),
        _ => (ConnectState::Done, ConnectAction::Finish),
    }
}

/// The next state and action of a CONNECT command.
pub fn connect_step(s: ConnectState, e: ConnectEvent) -> (r: (ConnectState, ConnectAction))
    requires
        connect_event_expected(s, e),
    ensures
        r == spec_connect_step(s, e),
{
    match (s, e) {
        (ConnectState::Starting, ConnectEvent::RelayReady) => (ConnectState::ReplyingSuccess, ConnectAction::ReplySucceeded),
        (ConnectState::Starting, _) => (ConnectState::ReplyingFailure, ConnectAction::ReplyGeneralFailure),
        (ConnectState::ReplyingSuccess, ConnectEvent::ReplySent) => (ConnectState::Relaying, ConnectAction::Copy),
        (ConnectState::ReplyingSuccess, _) => (ConnectState::Done, ConnectAction::ShutdownRelay),
        (ConnectState::ReplyingFailure, ConnectEvent::ReplySent) => (ConnectState::Done, ConnectAction::ShutdownClient),
        (ConnectState::ReplyingFailure, _) => (ConnectState::Done, ConnectAction::Finish),
        (ConnectState::Relaying, ConnectEvent::CopyFailed) => (ConnectState::Done, ConnectAction::ShutdownClientAndResetRelay),
        _ => (ConnectState::Done, ConnectAction::Finish),
    }
}

/// Each action of a CONNECT command comes from exactly one situation: the
/// client is told of success exactly when the relay stream opened, and of
/// failure exactly when it did not; the streams are copied exactly after a
/// success reply went out; a failed success reply shuts the relay stream,
/// a sent failure reply shuts the client, and a failed copy shuts the
/// client and resets the relay stream.
pub proof fn lemma_connect_actions(s: ConnectState, e: ConnectEvent)
    requires
        connect_event_expected(s, e),
    ensures
        ({
            let a = spec_connect_step(s, e).1;
            &&& a == ConnectAction::ReplySucceeded <==> (s == ConnectState::Starting && e == ConnectEvent::RelayReady)
            &&& a == ConnectAction::ReplyGeneralFailure <==> (s == ConnectState::Starting && e
                == ConnectEvent::RelayFailed)
            &&& a == ConnectAction::Copy <==> (s == ConnectState::ReplyingSuccess && e == ConnectEvent::ReplySent)
            &&& a == ConnectAction::ShutdownRelay <==> (s == ConnectState::ReplyingSuccess && e
                == ConnectEvent::ReplyFailed)
            &&& a == ConnectAction::ShutdownClient <==> (s == ConnectState::ReplyingFailure && e
                == ConnectEvent::ReplySent)
            &&& a == ConnectAction::ShutdownClientAndResetRelay <==> (s == ConnectState::Relaying && e
                == ConnectEvent::CopyFailed)
            &&& a == ConnectAction::Copy ==> spec_connect_step(s, e).0 == ConnectState::Relaying
            &&& s != ConnectState::Starting && a != ConnectAction::Copy ==> spec_connect_step(s, e).0 == ConnectState::Done
        }),
{
}

/// Where a UDP ASSOCIATE command stands.
#[derive(Clone, Copy, Debug, PartialEq, Eq, Structural)]
pub enum AssociateState {
    /// Setting up the session's UDP socket.
    Starting,
    /// Replying `Succeeded` with the socket's address.
    ReplyingSuccess,
    /// Replying `GeneralFailure`.
    ReplyingFailure,
    /// The session is registered: datagrams are relayed until the client's
    /// control connection closes.
    Relaying,
    /// The session is unregistered: the relay is told to dissociate.
    Dissociating,
    /// Over.
    Done,
}

/// What happened to a UDP ASSOCIATE command.
#[derive(Clone, Debug, PartialEq, Eq)]
pub enum AssociateEvent {
    /// The session's UDP socket is bound to this address.
    SessionCreated(SocketAddr),
    /// The session's UDP socket could not be set up.
    SessionFailed,
    /// The reply reached the client.
    ReplySent,
    /// The reply could not be sent.
    ReplyFailed,
    /// The client sent a datagram for this target.
    Datagram(Socks5Address),
    /// Receiving a datagram failed.
    ReceiveFailed,
    /// The client's control connection closed.
    Closed,
    /// The relay connection is available.
    RelayObtained,
    /// The relay connection is not available.
    RelayUnavailable,
}

/// What the SOCKS5 server does next for a UDP ASSOCIATE command.
#[derive(Clone, Debug, PartialEq, Eq)]
pub enum AssociateAction {
    /// Reply `Succeeded` with the session socket's address.
    ReplySucceeded(SocketAddr),
    /// Reply `GeneralFailure` with the unspecified address.
    ReplyGeneralFailure,
    /// Shut the control connection down.
    Shutdown,
    /// Register the session under the association id.
    Register(u16),
    /// Relay the datagram's payload to this target under the association id.
    Forward(Address, u16),
    /// Drop the failed receive and receive on.
    SkipDatagram,
    /// Unregister the session, then get the relay connection.
    Unregister(u16),
    /// Tell the relay to dissociate the association id.
    Dissociate(u16),
    /// Nothing more.
    Finish,
}

/// Whether an event can happen where a UDP ASSOCIATE command stands.
pub open spec fn associate_event_expected(s: AssociateState, e: AssociateEvent) -> bool {
    match s {
        AssociateState::Starting => e is SessionCreated || e is SessionFailed,
        AssociateState::ReplyingSuccess | AssociateState::ReplyingFailure => e is ReplySent || e is ReplyFailed,
        AssociateState::Relaying => e is Datagram || e is ReceiveFailed || e is Closed,
        AssociateState::Dissociating => e is RelayObtained || e is RelayUnavailable,
        AssociateState::Done => false,
    }
}

/// The next state and action of a UDP ASSOCIATE command. A session that
/// could not be set up gets `GeneralFailure` and a shutdown; a set-up one
/// gets `Succeeded` with its address and is registered once the reply is
/// sent; each datagram is forwarded to its target, failed receives are
/// skipped; when the control connection closes the session is unregistered
/// and, if the relay connection is available, dissociated.
pub open spec fn spec_associate_step(assoc_id: u16, s: AssociateState, e: AssociateEvent) -> (AssociateState, AssociateAction) {
    match (s, e) {
        (AssociateState::Starting, AssociateEvent::SessionCreated(local)) => (AssociateState::ReplyingSuccess, AssociateAction::ReplySucceeded(local)),
        (AssociateState::Starting, _) => (AssociateState::ReplyingFailure, AssociateAction::ReplyGeneralFailure),
        (AssociateState::ReplyingSuccess, AssociateEvent::ReplySent) => (AssociateState::Relaying, AssociateAction::Register(assoc_id)),
        (AssociateState::ReplyingSuccess, _) => (AssociateState::Done, AssociateAction::Finish),
        (AssociateState::ReplyingFailure, AssociateEvent::ReplySent) => (AssociateState::Done, AssociateAction::Shutdown),
        (AssociateState::ReplyingFailure, _) => (AssociateState::Done, AssociateAction::Finish),
        (AssociateState::Relaying, AssociateEvent::Datagram(target)) => (AssociateState::Relaying, AssociateAction::Forward(spec_tuic_target(target), assoc_id)),
        (AssociateState::Relaying, AssociateEvent::ReceiveFailed) => (AssociateState::Relaying, AssociateAction::SkipDatagram),
        (AssociateState::Relaying, _) => (AssociateState::Dissociating, AssociateAction::Unregister(assoc_id)),
        (AssociateState::Dissociating, AssociateEvent::RelayObtained) => (AssociateState::Done, AssociateAction::Dissociate(assoc_id)),
        _ => (AssociateState::Done, AssociateAction::Finish),
    }
}

/// The next state and action of a UDP ASSOCIATE command.
pub fn associate_step(assoc_id: u16, s: AssociateState, e: AssociateEvent) -> (r: (AssociateState, AssociateAction))
    requires
        associate_event_expected(s, e),
    ensures
        r == spec_associate_step(assoc_id, s, e),
{
    match (s, e) {
        (AssociateState::Starting, AssociateEvent::SessionCreated(local)) => (AssociateState::ReplyingSuccess, AssociateAction::ReplySucceeded(local)),
        (AssociateState::Starting, _) => (AssociateState::ReplyingFailure, AssociateAction::ReplyGeneralFailure),
        (AssociateState::ReplyingSuccess, AssociateEvent::ReplySent) => (AssociateState::Relaying, AssociateAction::Register(assoc_id)),
        (AssociateState::ReplyingSuccess, _) => (AssociateState::Done, AssociateAction::Finish),
        (AssociateState::ReplyingFailure, AssociateEvent::ReplySent) => (AssociateState::Done, AssociateAction::Shutdown),
        (AssociateState::ReplyingFailure, _) => (AssociateState::Done, AssociateAction::Finish),
        (AssociateState::Relaying, AssociateEvent::Datagram(target)) => (AssociateState::Relaying, AssociateAction::Forward(tuic_target(target), assoc_id)),
        (AssociateState::Relaying, AssociateEvent::ReceiveFailed) => (AssociateState::Relaying, AssociateAction::SkipDatagram),
        (AssociateState::Relaying, _) => (AssociateState::Dissociating, AssociateAction::Unregister(assoc_id)),
        (AssociateState::Dissociating, AssociateEvent::RelayObtained) => (AssociateState::Done, AssociateAction::Dissociate(assoc_id)),
        _ => (AssociateState::Done, AssociateAction::Finish),
    }
}

/// While relaying, every datagram the client sends is forwarded under the
/// session's association id to the same target: a domain with its port, or
/// a socket address, unchanged; the session keeps relaying. Only a failed
/// receive is skipped.
pub proof fn lemma_associate_forwards_datagrams(assoc_id: u16, target: Socks5Address, s: AssociateState, e: AssociateEvent)
    ensures
        spec_associate_step(assoc_id, AssociateState::Relaying, AssociateEvent::Datagram(target)) == (
            AssociateState::Relaying,
            AssociateAction::Forward(
                match target {
                    Socks5Address::DomainAddress(d, p) => Address::DomainAddress(d, p),
                    Socks5Address::SocketAddress(a) => Address::SocketAddress(a),
                },
                assoc_id,
            ),
        ),
        spec_associate_step(assoc_id, s, e).1 == AssociateAction::SkipDatagram ==> s == AssociateState::Relaying
            && e == AssociateEvent::ReceiveFailed,
{
}

/// A session is registered once and unregistered once: registering happens
/// only on the success reply, unregistering only from the relaying state,
/// and every other state reached after relaying is past it.
pub proof fn lemma_associate_registration(assoc_id: u16, s: AssociateState, e: AssociateEvent)
    requires
        associate_event_expected(s, e),
    ensures
        spec_associate_step(assoc_id, s, e).1 is Register ==> s == AssociateState::ReplyingSuccess
            && spec_associate_step(assoc_id, s, e).0 == AssociateState::Relaying,
        spec_associate_step(assoc_id, s, e).1 is Unregister ==> s == AssociateState::Relaying
            && spec_associate_step(assoc_id, s, e).0 == AssociateState::Dissociating,
        spec_associate_step(assoc_id, s, e).1 is Forward ==> s == AssociateState::Relaying,
        spec_associate_step(assoc_id, s, e).1 is Dissociate ==> s == AssociateState::Dissociating,
{
}

} // verus!
