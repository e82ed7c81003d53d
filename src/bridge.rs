//! The host's side of the bridge: one non-blocking look at the channel per
//! tick, and the handler that each message goes to.
use vstd::prelude::*;

use crate::event::SwarmThreadEvent;
use std::sync::Arc;
use tokio::runtime::Runtime;
use tokio::sync::mpsc::error::TryRecvError;
use tokio::sync::mpsc::Receiver;

verus! {

/// How many messages may wait in the channel before the swarm's task has to
/// wait for the host to take one.
pub const EVENT_CHANNEL_CAPACITY: usize = 32;

/// What one non-blocking receive found.
pub enum Received<T> {
    Event(T),
    Empty,
    Disconnected,
}

/// Why a tick could not look at the channel, or why it will never see
/// another message.  Both are fatal to the host.
#[derive(Debug, PartialEq, Eq, Structural, Clone, Copy)]
pub enum PollFault {
    /// The bridge was never started, so there is no channel to read.
    NoChannel,
    /// Every sender is gone: the swarm's task has ended.
    Disconnected,
}

/// The bridge was already started; it is started once only.
#[derive(Debug, PartialEq, Eq, Structural, Clone, Copy)]
pub enum StartError {
    AlreadyStarted,
}

/// The handler a message goes to on the host's tick.
pub enum Dispatch<B> {
    /// Hand the behaviour's outcome to the host.
    Behaviour(B),
    /// Report a new local listening address.
    NewListenAddress { listener_id: libp2p::core::transport::ListenerId, address: libp2p::Multiaddr },
    /// Nothing to do: no message, or a kind that has no handler yet.
    Nothing,
}

/// The handler for each kind of message.
pub open spec fn dispatch_of<B>(ev: SwarmThreadEvent<B>) -> Dispatch<B> {
    match ev {
        SwarmThreadEvent::Behaviour(payload) => Dispatch::Behaviour(payload),
        SwarmThreadEvent::NewListenAddress { listener_id, address } =>
            Dispatch::NewListenAddress { listener_id, address },
        _ => Dispatch::Nothing,
    }
}

/// What a tick reports for what its receive found: the message, if one
/// came; nothing on an empty channel; a fault once the senders are gone.
pub open spec fn poll_outcome<T>(rec: Received<T>) -> Result<Option<T>, PollFault> {
    match rec {
        Received::Event(ev) => Ok(Some(ev)),
        Received::Empty => Ok(None),
        Received::Disconnected => Err(PollFault::Disconnected),
    }
}

/// What a tick dispatches for what its receive found.
pub open spec fn tick_outcome<B>(rec: Received<SwarmThreadEvent<B>>) -> Result<Dispatch<B>, PollFault> {
    match rec {
        Received::Event(ev) => Ok(dispatch_of(ev)),
        Received::Empty => Ok(Dispatch::Nothing),
        Received::Disconnected => Err(PollFault::Disconnected),
    }
}

/// Picks the handler for a message.  Kinds without a handler are no-ops,
/// never errors.
pub fn dispatch<B>(ev: SwarmThreadEvent<B>) -> (r: Dispatch<B>)
    ensures
        r == dispatch_of(ev),
        !(ev is Behaviour || ev is NewListenAddress) ==> r is Nothing,
{
    match ev {
        SwarmThreadEvent::Behaviour(payload) => Dispatch::Behaviour(payload),
        SwarmThreadEvent::NewListenAddress { listener_id, address } =>
            Dispatch::NewListenAddress { listener_id, address },
        _ => Dispatch::Nothing,
    }
}

/// What the host's tick does with what its receive found: a message goes
/// to its handler, an empty channel gives nothing to do, and a channel whose
/// senders are gone is a fault.
pub fn tick_of<B>(rec: Received<SwarmThreadEvent<B>>) -> (r: Result<Dispatch<B>, PollFault>)
    ensures
        r == tick_outcome(rec),
{
    match rec {
        Received::Event(ev) => Ok(dispatch(ev)),
        Received::Empty => Ok(Dispatch::Nothing),
        Received::Disconnected => Err(PollFault::Disconnected),
    }
}

/// Turns what a receive found into what the tick reports.
pub fn receive_outcome<T>(rec: Received<T>) -> (r: Result<Option<T>, PollFault>)
    ensures
        r == poll_outcome(rec),
{
    match rec {
        Received::Event(ev) => Ok(Some(ev)),
        Received::Empty => Ok(None),
        Received::Disconnected => Err(PollFault::Disconnected),
    }
}

/// A message without a handler is a no-op: its tick reports exactly what a
/// tick on an empty channel reports, and no fault.
pub proof fn unhandled_kinds_are_no_ops<B>(ev: SwarmThreadEvent<B>)
    requires
        !(ev is Behaviour || ev is NewListenAddress),
    ensures
        tick_outcome(Received::Event(ev)) == tick_outcome::<B>(Received::Empty),
        tick_outcome(Received::Event(ev)) == Ok::<Dispatch<B>, PollFault>(Dispatch::Nothing),
{
}

/// Relies on tokio's `Receiver::try_recv`: it does not wait for a message
/// to arrive (it may briefly wait for a send already under way to finish),
/// and finds a buffered message, an empty channel, or a channel whose
/// senders are all dropped.  Which of them depends on the other threads, so nothing more is
/// stated.
#[verifier::external_body]
fn try_receive<T>(rx: &mut Receiver<T>) -> (r: Received<T>) {
    match rx.try_recv() {
        Ok(v) => Received::Event(v),
        Err(TryRecvError::Empty) => Received::Empty,
        Err(TryRecvError::Disconnected) => Received::Disconnected,
    }
}

/// Relies on `Arc::clone`: the clone shares the same value.
#[verifier::external_body]
fn share<T>(a: &Arc<T>) -> (r: Arc<T>)
    ensures
        r == *a,
{
    Arc::clone(a)
}

/// The bridge's owner on the host's side: the async runtime that runs the
/// swarm's task, and, once started, the receiving end of the channel.
#[verifier::reject_recursive_types(B)]
pub struct Metaphy<B> {
    runtime: Arc<Runtime>,
    swarm_event_channel: Option<Receiver<SwarmThreadEvent<B>>>,
}

impl<B> Metaphy<B> {
    /// The runtime that this owner keeps alive.
    pub closed spec fn runtime_spec(&self) -> Arc<Runtime> {
        self.runtime
    }

    /// The receiving end, once the bridge is started.
    pub closed spec fn channel(&self) -> Option<Receiver<SwarmThreadEvent<B>>> {
        self.swarm_event_channel
    }

    /// A bridge owner that holds `runtime` and is not started yet.
    pub fn new(runtime: Arc<Runtime>) -> (r: Self)
        ensures
            r.runtime_spec() == runtime,
            r.channel() is None,
    {
        Metaphy { runtime, swarm_event_channel: None }
    }

    /// A shared handle on the runtime, for spawning the swarm's task.
    pub fn runtime(&self) -> (r: Arc<Runtime>)
        ensures
            r == self.runtime_spec(),
    {
        share(&self.runtime)
    }

    /// Whether the bridge has been started.
    pub fn is_started(&self) -> (r: bool)
        ensures
            r == self.channel() is Some,
    {
        self.swarm_event_channel.is_some()
    }

    /// Starts the bridge once: keeps `rx` for the ticks to read.  A second
    /// start is refused and changes nothing.
    pub fn start(&mut self, rx: Receiver<SwarmThreadEvent<B>>) -> (r: Result<(), StartError>)
        ensures
            old(self).channel() is None ==> r is Ok && final(self).channel() == Some(rx),
            old(self).channel() is Some ==> r == Err::<(), StartError>(StartError::AlreadyStarted)
                && final(self).channel() == old(self).channel(),
            final(self).runtime_spec() == old(self).runtime_spec(),
    {
        if self.swarm_event_channel.is_some() {
            Err(StartError::AlreadyStarted)
        } else {
            self.swarm_event_channel = Some(rx);
            Ok(())
        }
    }

    /// One look at the channel, without blocking: at most one message per
    /// call, in the order the swarm's task sent them.
    pub fn poll_event(&mut self) -> (r: Result<Option<SwarmThreadEvent<B>>, PollFault>)
        ensures
            old(self).channel() is None ==> r == Err::<Option<SwarmThreadEvent<B>>, PollFault>(
                PollFault::NoChannel,
            ),
            old(self).channel() is Some ==> exists|rec: Received<SwarmThreadEvent<B>>|
                r == poll_outcome(rec),
            final(self).channel() is Some == old(self).channel() is Some,
            final(self).runtime_spec() == old(self).runtime_spec(),
    {
        match &mut self.swarm_event_channel {
            Some(rx) => {
                let rec = try_receive(rx);
                receive_outcome(rec)
            },
            None => Err(PollFault::NoChannel),
        }
    }

    /// The host's tick: receives at most one message, without waiting for
    /// one, and hands what it found to `tick_of`.
    pub fn physics_process(&mut self) -> (r: Result<Dispatch<B>, PollFault>)
        ensures
            old(self).channel() is None ==> r == Err::<Dispatch<B>, PollFault>(
                PollFault::NoChannel,
            ),
            old(self).channel() is Some ==> exists|rec: Received<SwarmThreadEvent<B>>|
                r == tick_outcome(rec),
            final(self).channel() is Some == old(self).channel() is Some,
            final(self).runtime_spec() == old(self).runtime_spec(),
    {
        match &mut self.swarm_event_channel {
            Some(rx) => {
                let rec = try_receive(rx);
                tick_of(rec)
            },
            None => Err(PollFault::NoChannel),
        }
    }
}

} // verus!
