use std::sync::Arc;

use libp2p::swarm::ConnectionId;
use libp2p::Multiaddr;
use metaphysics::bridge::{tick_of, Dispatch, Metaphy, PollFault, Received, StartError};
use metaphysics::event::SwarmThreadEvent;
use tokio::sync::mpsc;
use tokio::sync::mpsc::error::TrySendError;

fn runtime() -> Arc<tokio::runtime::Runtime> {
    Arc::new(tokio::runtime::Builder::new_current_thread().build().unwrap())
}

fn addr(s: &str) -> Multiaddr {
    s.parse().unwrap()
}

fn started(capacity: usize) -> (mpsc::Sender<SwarmThreadEvent<u32>>, Metaphy<u32>) {
    let (tx, rx) = mpsc::channel::<SwarmThreadEvent<u32>>(capacity);
    let mut m = Metaphy::new(runtime());
    assert_eq!(m.start(rx), Ok(()));
    (tx, m)
}

fn behaviour_of(r: Result<Option<SwarmThreadEvent<u32>>, PollFault>) -> u32 {
    match r {
        Ok(Some(SwarmThreadEvent::Behaviour(n))) => n,
        _ => panic!("expected a behaviour message"),
    }
}

#[test]
fn tick_without_channel_is_fatal() {
    let mut m: Metaphy<u32> = Metaphy::new(runtime());
    assert!(!m.is_started());
    assert!(matches!(m.physics_process(), Err(PollFault::NoChannel)));
    assert!(matches!(m.poll_event(), Err(PollFault::NoChannel)));
}

#[test]
fn second_start_is_refused() {
    let (_tx, mut m) = started(4);
    let (_tx2, rx2) = mpsc::channel::<SwarmThreadEvent<u32>>(4);
    assert_eq!(m.start(rx2), Err(StartError::AlreadyStarted));
    assert!(m.is_started());
}

#[test]
fn runtime_handle_is_shared() {
    let rt = runtime();
    let m: Metaphy<u32> = Metaphy::new(rt.clone());
    assert!(Arc::ptr_eq(&m.runtime(), &rt));
}

#[test]
fn empty_channel_dispatches_nothing() {
    let (_tx, mut m) = started(4);
    assert!(matches!(m.poll_event(), Ok(None)));
    assert!(matches!(m.physics_process(), Ok(Dispatch::Nothing)));
}

#[test]
fn buffered_message_is_received() {
    let (tx, mut m) = started(4);
    tx.try_send(SwarmThreadEvent::Behaviour(9)).unwrap();
    assert!(matches!(m.physics_process(), Ok(Dispatch::Behaviour(9))));
    assert!(matches!(m.physics_process(), Ok(Dispatch::Nothing)));
}

#[test]
fn one_dispatch_per_tick_in_order() {
    let (tx, mut m) = started(32);
    for n in 1..=5u32 {
        tx.try_send(SwarmThreadEvent::Behaviour(n)).unwrap();
    }
    for n in 1..=5u32 {
        match m.physics_process() {
            Ok(Dispatch::Behaviour(k)) => assert_eq!(k, n),
            _ => panic!("expected one behaviour message per tick"),
        }
    }
    assert!(matches!(m.physics_process(), Ok(Dispatch::Nothing)));
}

#[test]
fn order_is_preserved_across_the_bridge() {
    let (tx, mut m) = started(32);
    let sent: Vec<u32> = vec![7, 3, 9, 3, 1, 20, 0, 5];
    for n in sent.iter() {
        tx.try_send(SwarmThreadEvent::Behaviour(*n)).unwrap();
    }
    let mut seen: Vec<u32> = Vec::new();
    for _ in 0..sent.len() {
        seen.push(behaviour_of(m.poll_event()));
    }
    assert_eq!(seen, sent);
}

#[test]
fn full_channel_holds_back_and_loses_nothing() {
    let (tx, mut m) = started(2);
    let a = addr("/ip4/127.0.0.1/tcp/1");
    let b = addr("/ip4/127.0.0.1/tcp/2");
    let id = libp2p::core::transport::ListenerId::next();
    tx.try_send(SwarmThreadEvent::NewListenAddress { listener_id: id, address: a.clone() }).unwrap();
    tx.try_send(SwarmThreadEvent::NewListenAddress { listener_id: id, address: b.clone() }).unwrap();
    let third = SwarmThreadEvent::Dialing { peer_id: None, connection_id: ConnectionId::new_unchecked(3) };
    let third = match tx.try_send(third) {
        Err(TrySendError::Full(ev)) => ev,
        _ => panic!("the third message must wait for room"),
    };
    match m.poll_event() {
        Ok(Some(SwarmThreadEvent::NewListenAddress { address, .. })) => assert_eq!(address, a),
        _ => panic!("expected the first address"),
    }
    tx.try_send(third).unwrap();
    match m.physics_process() {
        Ok(Dispatch::NewListenAddress { listener_id, address }) => {
            assert_eq!(listener_id, id);
            assert_eq!(address, b);
        }
        _ => panic!("expected the second address"),
    }
    match m.poll_event() {
        Ok(Some(SwarmThreadEvent::Dialing { peer_id, connection_id })) => {
            assert!(peer_id.is_none());
            assert_eq!(connection_id, ConnectionId::new_unchecked(3));
        }
        _ => panic!("expected the dialing message"),
    }
    assert!(matches!(m.poll_event(), Ok(None)));
}

#[test]
fn dropped_sender_is_reported_after_the_buffer_drains() {
    let (tx, mut m) = started(4);
    tx.try_send(SwarmThreadEvent::Behaviour(1)).unwrap();
    drop(tx);
    assert_eq!(behaviour_of(m.poll_event()), 1);
    assert!(matches!(m.physics_process(), Err(PollFault::Disconnected)));
    assert!(matches!(m.physics_process(), Err(PollFault::Disconnected)));
}

#[test]
fn dropped_consumer_fails_the_send() {
    let (tx, m) = started(4);
    drop(m);
    assert!(matches!(tx.try_send(SwarmThreadEvent::Unrecognized), Err(TrySendError::Closed(_))));
}

#[test]
fn unrecognized_message_does_not_disturb_later_ticks() {
    let (tx, mut m) = started(4);
    tx.try_send(SwarmThreadEvent::Unrecognized).unwrap();
    tx.try_send(SwarmThreadEvent::Behaviour(4)).unwrap();
    assert!(matches!(m.physics_process(), Ok(Dispatch::Nothing)));
    assert!(matches!(m.physics_process(), Ok(Dispatch::Behaviour(4))));
    assert!(m.is_started());
}

#[test]
fn tick_of_sends_a_message_to_its_handler() {
    assert!(matches!(tick_of(Received::Event(SwarmThreadEvent::Behaviour(6u32))), Ok(Dispatch::Behaviour(6))));
    let id = libp2p::core::transport::ListenerId::next();
    let a = addr("/ip4/127.0.0.1/tcp/7");
    match tick_of(Received::Event(SwarmThreadEvent::<u32>::NewListenAddress { listener_id: id, address: a.clone() })) {
        Ok(Dispatch::NewListenAddress { listener_id, address }) => {
            assert_eq!(listener_id, id);
            assert_eq!(address, a);
        }
        _ => panic!("expected the listen address handler"),
    }
}

#[test]
fn tick_of_empty_is_nothing_and_disconnected_is_a_fault() {
    assert!(matches!(tick_of::<u32>(Received::Empty), Ok(Dispatch::Nothing)));
    assert!(matches!(tick_of::<u32>(Received::Disconnected), Err(PollFault::Disconnected)));
}

#[test]
fn tick_of_unrecognized_is_no_fault() {
    assert!(matches!(tick_of::<u32>(Received::Event(SwarmThreadEvent::Unrecognized)), Ok(Dispatch::Nothing)));
    let d = SwarmThreadEvent::<u32>::Dialing { peer_id: None, connection_id: ConnectionId::new_unchecked(2) };
    assert!(matches!(tick_of(Received::Event(d)), Ok(Dispatch::Nothing)));
}
