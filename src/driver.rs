//! The decisions of the swarm's task.  The task itself awaits the swarm and
//! the channel; after each send it asks this state what to do next.
use vstd::prelude::*;

verus! {

/// What a send of one message into the channel came to.
#[derive(Debug, PartialEq, Eq, Structural, Clone, Copy)]
pub enum SendOutcome {
    /// The channel took the message (after waiting for room, if it was full).
    Delivered,
    /// The host's end was dropped: nobody will ever read the message.
    ConsumerGone,
}

/// The swarm's task runs until a send finds the host's end dropped, and
/// then stops for good.
#[derive(Debug, PartialEq, Eq, Structural, Clone, Copy)]
pub enum DriverState {
    Running,
    Stopped,
}

/// The state after a send: still running only if it was running and the
/// message was delivered.
pub open spec fn next_state(state: DriverState, outcome: SendOutcome) -> DriverState {
    if state == DriverState::Running && outcome == SendOutcome::Delivered {
        DriverState::Running
    } else {
        DriverState::Stopped
    }
}

impl DriverState {
    /// Whether the task should wait for the swarm's next occurrence.
    pub fn is_running(&self) -> (r: bool)
        ensures
            r == (*self == DriverState::Running),
    {
        match self {
            DriverState::Running => true,
            DriverState::Stopped => false,
        }
    }

    /// Takes in what a send came to.  A failed send ends the task; it is
    /// the designed way for the task to stop.
    pub fn after_send(self, outcome: SendOutcome) -> (r: DriverState)
        ensures
            r == next_state(self, outcome),
            outcome == SendOutcome::ConsumerGone ==> r == DriverState::Stopped,
            self == DriverState::Stopped ==> r == DriverState::Stopped,
    {
        match (self, outcome) {
            (DriverState::Running, SendOutcome::Delivered) => DriverState::Running,
            _ => DriverState::Stopped,
        }
    }
}

} // verus!
