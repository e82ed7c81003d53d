//! Outside types that the bridge carries without looking inside them.
use vstd::prelude::*;

verus! {

#[verifier::external_type_specification]
#[verifier::external_body]
pub struct ExPeerId(libp2p::PeerId);

#[verifier::external_type_specification]
#[verifier::external_body]
pub struct ExMultiaddr(libp2p::Multiaddr);

#[verifier::external_type_specification]
#[verifier::external_body]
pub struct ExConnectionId(libp2p::swarm::ConnectionId);

#[verifier::external_type_specification]
#[verifier::external_body]
pub struct ExListenerId(libp2p::core::transport::ListenerId);

#[verifier::external_type_specification]
#[verifier::external_body]
pub struct ExConnectedPoint(libp2p::core::ConnectedPoint);

#[verifier::external_type_specification]
#[verifier::external_body]
#[verifier::reject_recursive_types(E)]
pub struct ExTransportError<E>(libp2p::TransportError<E>);

#[verifier::external_type_specification]
#[verifier::external_body]
pub struct ExConnectionError(libp2p::swarm::ConnectionError);

#[verifier::external_type_specification]
#[verifier::external_body]
pub struct ExListenError(libp2p::swarm::ListenError);

#[verifier::external_type_specification]
#[verifier::external_body]
pub struct ExDialError(libp2p::swarm::DialError);

#[verifier::external_type_specification]
#[verifier::external_body]
pub struct ExIoError(std::io::Error);

#[verifier::external_type_specification]
#[verifier::external_body]
pub struct ExRuntime(tokio::runtime::Runtime);

#[verifier::external_type_specification]
#[verifier::external_body]
#[verifier::reject_recursive_types(T)]
pub struct ExReceiver<T>(tokio::sync::mpsc::Receiver<T>);

} // verus!
