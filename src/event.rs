//! The swarm's occurrences and the owned messages that carry them to the host.
use vstd::prelude::*;

use libp2p::swarm::{ConnectionError, ConnectionId, DialError, ListenError};
use libp2p::{Multiaddr, PeerId, TransportError};
use std::time::Duration;

verus! {

/// One occurrence reported by the swarm, variant for variant and field for
/// field as the network engine reports it.  `Unknown` stands for the kinds
/// that the engine may add later.
#[allow(inconsistent_fields)]
pub enum SwarmOccurrence<B> {
    Behaviour(B),
    ConnectionEstablished {
        peer_id: PeerId,
        connection_id: ConnectionId,
        endpoint: libp2p::core::ConnectedPoint,
        num_established: u32,
        concurrent_dial_errors: Option<Vec<(Multiaddr, TransportError<std::io::Error>)>>,
        established_in: Duration,
    },
    ConnectionClosed {
        peer_id: PeerId,
        connection_id: ConnectionId,
        endpoint: libp2p::core::ConnectedPoint,
        num_established: u32,
        cause: Option<ConnectionError>,
    },
    IncomingConnection {
        connection_id: ConnectionId,
        local_addr: Multiaddr,
        send_back_addr: Multiaddr,
    },
    IncomingConnectionError {
        connection_id: ConnectionId,
        local_addr: Multiaddr,
        send_back_addr: Multiaddr,
        error: ListenError,
    },
    OutgoingConnectionError {
        connection_id: ConnectionId,
        peer_id: Option<PeerId>,
        error: DialError,
    },
    NewListenAddr { listener_id: libp2p::core::transport::ListenerId, address: Multiaddr },
    ExpiredListenAddr { listener_id: libp2p::core::transport::ListenerId, address: Multiaddr },
    ListenerClosed {
        listener_id: libp2p::core::transport::ListenerId,
        addresses: Vec<Multiaddr>,
        reason: Result<(), std::io::Error>,
    },
    ListenerError { listener_id: libp2p::core::transport::ListenerId, error: std::io::Error },
    Dialing { peer_id: Option<PeerId>, connection_id: ConnectionId },
    NewExternalAddrCandidate { address: Multiaddr },
    ExternalAddrConfirmed { address: Multiaddr },
    ExternalAddrExpired { address: Multiaddr },
    NewExternalAddrOfPeer { peer_id: PeerId, address: Multiaddr },
    Unknown,
}

/// The self-contained message that crosses from the swarm's task to the
/// host's tick.  Every field is owned; kinds that the bridge does not model
/// arrive as `Unrecognized`.
#[allow(inconsistent_fields)]
#[derive(Debug)]
pub enum SwarmThreadEvent<B> {
    Behaviour(B),
    ConnectionEstablished {
        peer_id: PeerId,
        connection_id: ConnectionId,
        endpoint: libp2p::core::ConnectedPoint,
        num_established: u32,
        concurrent_dial_errors: Option<Vec<(Multiaddr, TransportError<std::io::Error>)>>,
        established_in: Duration,
    },
    ConnectionClosed {
        peer_id: PeerId,
        connection_id: ConnectionId,
        endpoint: libp2p::core::ConnectedPoint,
        num_established: u32,
        cause: Option<ConnectionError>,
    },
    IncomingConnection {
        connection_id: ConnectionId,
        local_addr: Multiaddr,
        send_back_addr: Multiaddr,
    },
    IncomingConnectionError {
        connection_id: ConnectionId,
        local_addr: Multiaddr,
        send_back_addr: Multiaddr,
        error: ListenError,
    },
    OutgoingConnectionError {
        connection_id: ConnectionId,
        peer_id: Option<PeerId>,
        error: DialError,
    },
    NewListenAddress { listener_id: libp2p::core::transport::ListenerId, address: Multiaddr },
    ExpiredListenAddress { listener_id: libp2p::core::transport::ListenerId, address: Multiaddr },
    ListenerClosed {
        listener_id: libp2p::core::transport::ListenerId,
        addresses: Vec<Multiaddr>,
        reason: Result<(), std::io::Error>,
    },
    ListenerError { listener_id: libp2p::core::transport::ListenerId, error: std::io::Error },
    Dialing { peer_id: Option<PeerId>, connection_id: ConnectionId },
    NewExternalAddressCandidate { address: Multiaddr },
    ExternalAddressConfirmed { address: Multiaddr },
    ExternalAddressExpired { address: Multiaddr },
    Unrecognized,
}

impl<B> SwarmOccurrence<B> {
    /// A connection that has just been established counts itself among the
    /// peer's connections, so that count is at least one.
    pub open spec fn wf(self) -> bool {
        self matches SwarmOccurrence::ConnectionEstablished { num_established, .. }
            ==> num_established >= 1
    }
}

impl<B> SwarmThreadEvent<B> {
    /// As for the occurrence: an established connection counts itself.
    pub open spec fn wf(self) -> bool {
        self matches SwarmThreadEvent::ConnectionEstablished { num_established, .. }
            ==> num_established >= 1
    }
}

/// The message that an occurrence becomes: the same kind, with every field
/// passed on unchanged, or `Unrecognized` for a kind that has no message.
pub open spec fn translated<B>(ev: SwarmOccurrence<B>) -> SwarmThreadEvent<B> {
    match ev {
        SwarmOccurrence::Behaviour(payload) => SwarmThreadEvent::Behaviour(payload),
        SwarmOccurrence::ConnectionEstablished {
            peer_id,
            connection_id,
            endpoint,
            num_established,
            concurrent_dial_errors,
            established_in,
        } => SwarmThreadEvent::ConnectionEstablished {
            peer_id,
            connection_id,
            endpoint,
            num_established,
            concurrent_dial_errors,
            established_in,
        },
        SwarmOccurrence::ConnectionClosed {
            peer_id,
            connection_id,
            endpoint,
            num_established,
            cause,
        } => SwarmThreadEvent::ConnectionClosed {
            peer_id,
            connection_id,
            endpoint,
            num_established,
            cause,
        },
        SwarmOccurrence::IncomingConnection { connection_id, local_addr, send_back_addr } =>
            SwarmThreadEvent::IncomingConnection { connection_id, local_addr, send_back_addr },
        SwarmOccurrence::IncomingConnectionError {
            connection_id,
            local_addr,
            send_back_addr,
            error,
        } => SwarmThreadEvent::IncomingConnectionError {
            connection_id,
            local_addr,
            send_back_addr,
            error,
        },
        SwarmOccurrence::OutgoingConnectionError { connection_id, peer_id, error } =>
            SwarmThreadEvent::OutgoingConnectionError { connection_id, peer_id, error },
        SwarmOccurrence::NewListenAddr { listener_id, address } =>
            SwarmThreadEvent::NewListenAddress { listener_id, address },
        SwarmOccurrence::ExpiredListenAddr { listener_id, address } =>
            SwarmThreadEvent::ExpiredListenAddress { listener_id, address },
        SwarmOccurrence::ListenerClosed { listener_id, addresses, reason } =>
            SwarmThreadEvent::ListenerClosed { listener_id, addresses, reason },
        SwarmOccurrence::ListenerError { listener_id, error } =>
            SwarmThreadEvent::ListenerError { listener_id, error },
        SwarmOccurrence::Dialing { peer_id, connection_id } =>
            SwarmThreadEvent::Dialing { peer_id, connection_id },
        SwarmOccurrence::NewExternalAddrCandidate { address } =>
            SwarmThreadEvent::NewExternalAddressCandidate { address },
        SwarmOccurrence::ExternalAddrConfirmed { address } =>
            SwarmThreadEvent::ExternalAddressConfirmed { address },
        SwarmOccurrence::ExternalAddrExpired { address } =>
            SwarmThreadEvent::ExternalAddressExpired { address },
        SwarmOccurrence::NewExternalAddrOfPeer { .. } => SwarmThreadEvent::Unrecognized,
        SwarmOccurrence::Unknown => SwarmThreadEvent::Unrecognized,
    }
}

/// Every occurrence becomes exactly one message, and that message is
/// `Unrecognized` exactly for the kinds that the bridge does not model: the
/// engine's own unmodelled kinds and those it may add later.
pub proof fn unrecognized_exactly_for_unmodelled_kinds<B>(ev: SwarmOccurrence<B>)
    ensures
        translated(ev) is Unrecognized <==> (ev is Unknown || ev is NewExternalAddrOfPeer),
{
}

impl<B> From<SwarmOccurrence<B>> for SwarmThreadEvent<B> {
    /// Turns one occurrence into its message; it never fails and never
    /// blocks, whatever kind of occurrence it is given.
    fn from(ev: SwarmOccurrence<B>) -> (r: SwarmThreadEvent<B>)
        ensures
            r == translated(ev),
            ev.wf() ==> r.wf(),
    {
        match ev {
            SwarmOccurrence::Behaviour(payload) => SwarmThreadEvent::Behaviour(payload),
            SwarmOccurrence::ConnectionEstablished {
                peer_id,
                connection_id,
                endpoint,
                num_established,
                concurrent_dial_errors,
                established_in,
            } => SwarmThreadEvent::ConnectionEstablished {
                peer_id,
                connection_id,
                endpoint,
                num_established,
                concurrent_dial_errors,
                established_in,
            },
            SwarmOccurrence::ConnectionClosed {
                peer_id,
                connection_id,
                endpoint,
                num_established,
                cause,
            } => SwarmThreadEvent::ConnectionClosed {
                peer_id,
                connection_id,
                endpoint,
                num_established,
                cause,
            },
            SwarmOccurrence::IncomingConnection { connection_id, local_addr, send_back_addr } =>
                SwarmThreadEvent::IncomingConnection { connection_id, local_addr, send_back_addr },
            SwarmOccurrence::IncomingConnectionError {
                connection_id,
                local_addr,
                send_back_addr,
                error,
            } => SwarmThreadEvent::IncomingConnectionError {
                connection_id,
                local_addr,
                send_back_addr,
                error,
            },
            SwarmOccurrence::OutgoingConnectionError { connection_id, peer_id, error } =>
                SwarmThreadEvent::OutgoingConnectionError { connection_id, peer_id, error },
            SwarmOccurrence::NewListenAddr { listener_id, address } =>
                SwarmThreadEvent::NewListenAddress { listener_id, address },
            SwarmOccurrence::ExpiredListenAddr { listener_id, address } =>
                SwarmThreadEvent::ExpiredListenAddress { listener_id, address },
            SwarmOccurrence::ListenerClosed { listener_id, addresses, reason } =>
                SwarmThreadEvent::ListenerClosed { listener_id, addresses, reason },
            SwarmOccurrence::ListenerError { listener_id, error } =>
                SwarmThreadEvent::ListenerError { listener_id, error },
            SwarmOccurrence::Dialing { peer_id, connection_id } =>
                SwarmThreadEvent::Dialing { peer_id, connection_id },
            SwarmOccurrence::NewExternalAddrCandidate { address } =>
                SwarmThreadEvent::NewExternalAddressCandidate { address },
            SwarmOccurrence::ExternalAddrConfirmed { address } =>
                SwarmThreadEvent::ExternalAddressConfirmed { address },
            SwarmOccurrence::ExternalAddrExpired { address } =>
                SwarmThreadEvent::ExternalAddressExpired { address },
            SwarmOccurrence::NewExternalAddrOfPeer { .. } => SwarmThreadEvent::Unrecognized,
            SwarmOccurrence::Unknown => SwarmThreadEvent::Unrecognized,
        }
    }
}

impl<B> vstd::std_specs::convert::FromSpecImpl<SwarmOccurrence<B>> for SwarmThreadEvent<B> {
    open spec fn obeys_from_spec() -> bool {
        true
    }

    open spec fn from_spec(ev: SwarmOccurrence<B>) -> SwarmThreadEvent<B> {
        translated(ev)
    }
}

} // verus!
