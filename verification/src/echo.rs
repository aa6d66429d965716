//! The echo client as a state machine. The task connects, and then for ever
//! receives into its buffer and sends back what it got. A send may take only
//! part of what is offered, so the task sends again from where the last send
//! stopped until all of it is gone. An error of any of the three operations
//! is a trap: the task has no way to go on.
//!
//! The operations themselves suspend and resume, which is the caller's part:
//! the caller does what [`EchoTask::step`] asks for and hands back how it
//! ended.

use vstd::prelude::*;
use crate::socket::{ConnectError, RecvError, SendError};

verus! {

/// What the caller does for the task next.
#[derive(Clone, Copy, Debug, PartialEq, Eq, Structural)]
pub enum EchoAction {
    /// Connect to the remote endpoint.
    Connect,
    /// Receive into the buffer, from its start.
    Recv,
    /// Send the octets of the buffer from index `from` up to index `to`.
    Send { from: usize, to: usize },
    /// Stop: an operation failed.
    Trap,
}

/// How the last action ended.
#[derive(Clone, Copy, Debug, PartialEq, Eq)]
pub enum EchoEvent {
    Connected(Result<(), ConnectError>),
    /// The number of octets received.
    Received(Result<usize, RecvError>),
    /// The number of octets that the send took.
    Sent(Result<usize, SendError>),
}

/// Where the task stands.
#[derive(Clone, Copy, Debug, PartialEq, Eq, Structural)]
pub enum EchoPhase {
    Connecting,
    Receiving,
    /// The octets of the buffer from `from` up to `to` are still to be sent.
    Sending { from: usize, to: usize },
    Trapped,
}

/// The task as contracts see it.
pub struct EchoView {
    /// The size of the task's buffer.
    pub capacity: nat,
    pub phase: EchoPhase,
}

impl EchoPhase {
    /// The action that brings the outcome this phase waits for.
    pub open spec fn action(self) -> EchoAction {
        match self {
            EchoPhase::Connecting => EchoAction::Connect,
            EchoPhase::Receiving => EchoAction::Recv,
            EchoPhase::Sending { from, to } => EchoAction::Send { from, to },
            EchoPhase::Trapped => EchoAction::Trap,
        }
    }
}

impl EchoView {
    /// What holds of every task: what is still to be sent is a part of the
    /// buffer, and not nothing.
    pub open spec fn wf(self) -> bool {
        self.phase matches EchoPhase::Sending { from, to } ==> from < to <= self.capacity
    }

    /// Whether `event` is an outcome of the action the task asked for: a
    /// receive hands out no more than the buffer holds, a send takes no more
    /// than it was offered, and a trapped task waits for nothing.
    pub open spec fn expects(self, event: EchoEvent) -> bool {
        match (self.phase, event) {
            (EchoPhase::Connecting, EchoEvent::Connected(_)) => true,
            (EchoPhase::Receiving, EchoEvent::Received(Ok(len))) => len <= self.capacity,
            (EchoPhase::Receiving, EchoEvent::Received(Err(_))) => true,
            (EchoPhase::Sending { from, to }, EchoEvent::Sent(Ok(n))) => n <= to - from,
            (EchoPhase::Sending { .. }, EchoEvent::Sent(Err(_))) => true,
            _ => false,
        }
    }

    /// The phase after `event`. Once connected the task receives. What it
    /// received it sends, from the start; after a send that left something
    /// over it sends the rest; with nothing left to send it receives again.
    /// Any error traps.
    pub open spec fn next_phase(self, event: EchoEvent) -> EchoPhase {
        match event {
            EchoEvent::Connected(Ok(())) => EchoPhase::Receiving,
            EchoEvent::Received(Ok(len)) => if len > 0 {
                EchoPhase::Sending { from: 0, to: len }
            } else {
                EchoPhase::Receiving
            },
            EchoEvent::Sent(Ok(n)) => match self.phase {
                EchoPhase::Sending { from, to } => if from + n < to {
                    EchoPhase::Sending { from: (from + n) as usize, to }
                } else {
                    EchoPhase::Receiving
                },
                _ => EchoPhase::Trapped,
            },
            _ => EchoPhase::Trapped,
        }
    }

    /// The task after `event`.
    pub open spec fn after(self, event: EchoEvent) -> EchoView {
        EchoView { capacity: self.capacity, phase: self.next_phase(event) }
    }

    /// What the task asks for after `event`.
    pub open spec fn action(self, event: EchoEvent) -> EchoAction {
        self.next_phase(event).action()
    }
}

/// The echo client.
#[derive(Debug)]
pub struct EchoTask {
    capacity: usize,
    phase: EchoPhase,
}

impl View for EchoTask {
    type V = EchoView;

    closed spec fn view(&self) -> EchoView {
        EchoView { capacity: self.capacity as nat, phase: self.phase }
    }
}

impl EchoTask {
    #[verifier::type_invariant]
    spec fn well_formed(self) -> bool {
        self@.wf()
    }

    /// A task with a buffer of `capacity` octets. The first thing to do is
    /// [`EchoAction::Connect`].
    pub fn new(capacity: usize) -> (task: Self)
        ensures
            task@ == (EchoView { capacity: capacity as nat, phase: EchoPhase::Connecting }),
    {
        EchoTask { capacity, phase: EchoPhase::Connecting }
    }

    /// Where the task stands.
    pub fn phase(&self) -> (phase: EchoPhase)
        ensures
            phase == self@.phase,
            self@.wf(),
    {
        proof {
            use_type_invariant(self);
        }
        self.phase
    }

    /// Whether `event` is an outcome of the action the task asked for.
    pub fn expects(&self, event: EchoEvent) -> (expected: bool)
        ensures
            expected == self@.expects(event),
    {
        proof {
            use_type_invariant(self);
        }
        match (self.phase, event) {
            (EchoPhase::Connecting, EchoEvent::Connected(_)) => true,
            (EchoPhase::Receiving, EchoEvent::Received(Ok(len))) => len <= self.capacity,
            (EchoPhase::Receiving, EchoEvent::Received(Err(_))) => true,
            (EchoPhase::Sending { from, to }, EchoEvent::Sent(Ok(n))) => n <= to - from,
            (EchoPhase::Sending { .. }, EchoEvent::Sent(Err(_))) => true,
            _ => false,
        }
    }

    /// Takes the outcome of the last action and says what to do next.
    pub fn step(&mut self, event: EchoEvent) -> (action: EchoAction)
        requires
            old(self)@.expects(event),
        ensures
            final(self)@ == old(self)@.after(event),
            action == old(self)@.action(event),
            final(self)@.wf(),
    {
        proof {
            use_type_invariant(&*self);
        }
        let next = match event {
            EchoEvent::Connected(Ok(())) => EchoPhase::Receiving,
            EchoEvent::Received(Ok(len)) => if len > 0 {
                EchoPhase::Sending { from: 0, to: len }
            } else {
                EchoPhase::Receiving
            },
            EchoEvent::Sent(Ok(n)) => match self.phase {
                EchoPhase::Sending { from, to } => if n < to - from {
                    EchoPhase::Sending { from: from + n, to }
                } else {
                    EchoPhase::Receiving
                },
                _ => EchoPhase::Trapped,
            },
            _ => EchoPhase::Trapped,
        };
        self.phase = next;
        match next {
            EchoPhase::Connecting => EchoAction::Connect,
            EchoPhase::Receiving => EchoAction::Recv,
            EchoPhase::Sending { from, to } => EchoAction::Send { from, to },
            EchoPhase::Trapped => EchoAction::Trap,
        }
    }
}

/// The sends of one echo leave nothing out and send nothing twice: each send
/// starts where the one before stopped, and the task goes back to receiving
/// exactly when the last octet received has been taken.
pub proof fn lemma_sends_continue(view: EchoView, from: usize, to: usize, n: usize)
    requires
        view.wf(),
        view.phase == (EchoPhase::Sending { from, to }),
        n <= to - from,
    ensures
        from + n < to ==> view.action(EchoEvent::Sent(Ok(n))) == (EchoAction::Send {
            from: (from + n) as usize,
            to,
        }),
        from + n == to ==> view.action(EchoEvent::Sent(Ok(n))) == EchoAction::Recv,
        view.after(EchoEvent::Sent(Ok(n))).wf(),
{
}

/// What was received is what is sent: a receive of at least one octet is
/// answered by a send of just the octets received, from the first on.
pub proof fn lemma_received_is_sent(view: EchoView, len: usize)
    requires
        view.phase == EchoPhase::Receiving,
        0 < len <= view.capacity,
    ensures
        view.action(EchoEvent::Received(Ok(len))) == (EchoAction::Send { from: 0, to: len }),
        view.after(EchoEvent::Received(Ok(len))).wf(),
{
}

} // verus!
