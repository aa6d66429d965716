//! The polled client: what a task without suspend-and-resume operations does
//! with its socket each time the protocol engine has made progress. A socket
//! that is not open is asked to connect. An open one is read from, if
//! anything has arrived, and is sent the reply, if there is room for any of
//! it.

use vstd::prelude::*;
use crate::net::{link_change, LinkChange, LinkMonitor};
use crate::socket::{
    addressable, connect_result, has_source_address, socket_can_recv, socket_can_send,
    socket_connect, socket_recv_slice, socket_send_slice, socket_state, tcp_view, ConnectError,
    Endpoint, ListenEndpoint, TcpView,
};

verus! {

/// What one service of the socket came to.
#[derive(Clone, Copy, Debug, PartialEq, Eq)]
pub enum Serviced {
    /// The socket was not open and a connect request was made, with this
    /// result.
    Connect(Result<(), ConnectError>),
    /// The socket was open. `received` is the number of octets read, if
    /// anything had arrived; `sent` is the number of octets of the reply
    /// that were queued, if the socket could send.
    Exchange { received: Option<usize>, sent: Option<usize> },
}

/// What a read into room for `room` octets hands out, if anything has
/// arrived.
pub open spec fn reads(view: TcpView, room: nat) -> Option<usize> {
    if view.rx.len() > 0 {
        Some(view.yields(room) as usize)
    } else {
        None
    }
}

/// What a send of `len` octets queues, if the socket can send.
pub open spec fn writes(view: TcpView, len: nat) -> Option<usize> {
    if view.state.may_send() && view.tx_free() > 0 {
        Some(view.accepts(len) as usize)
    } else {
        None
    }
}

/// What one service of a socket with this view comes to.
pub open spec fn service_result(view: TcpView, addressable: bool, room: nat, reply_len: nat) -> Serviced {
    if !view.state.is_open() {
        Serviced::Connect(connect_result(view.state, addressable))
    } else {
        Serviced::Exchange { received: reads(view, room), sent: writes(view, reply_len) }
    }
}

/// The socket after one service.
pub open spec fn after_service(view: TcpView, addressable: bool, room: nat, reply: Seq<u8>) -> TcpView {
    match service_result(view, addressable, room, reply.len()) {
        Serviced::Connect(Ok(())) => view.connecting(),
        Serviced::Connect(Err(_)) => view,
        Serviced::Exchange { received, sent } => TcpView {
            rx: match received {
                Some(n) => view.rx.skip(n as int),
                None => view.rx,
            },
            tx: match sent {
                Some(n) => view.tx + reply.take(n as int),
                None => view.tx,
            },
            ..view
        },
    }
}

/// The caller's buffer after one service: what was read stands at its
/// front.
pub open spec fn after_service_buffer(view: TcpView, buffer: Seq<u8>) -> Seq<u8> {
    if view.state.is_open() {
        match reads(view, buffer.len()) {
            Some(n) => view.rx.take(n as int) + buffer.skip(n as int),
            None => buffer,
        }
    } else {
        buffer
    }
}

/// Services the socket once.
pub fn service(
    socket: &mut smoltcp::socket::tcp::Socket<'_>,
    interface: &mut smoltcp::iface::Interface,
    remote_endpoint: Endpoint,
    local_endpoint: ListenEndpoint,
    buffer: &mut [u8],
    reply: &[u8],
) -> (serviced: Serviced)
    ensures
        serviced == service_result(
            tcp_view(*old(socket)),
            addressable(has_source_address(*old(interface)), remote_endpoint, local_endpoint),
            old(buffer)@.len(),
            reply@.len(),
        ),
        tcp_view(*final(socket)) == after_service(
            tcp_view(*old(socket)),
            addressable(has_source_address(*old(interface)), remote_endpoint, local_endpoint),
            old(buffer)@.len(),
            reply@,
        ),
        final(buffer)@ == after_service_buffer(tcp_view(*old(socket)), old(buffer)@),
{
    if !socket_state(socket).open() {
        return Serviced::Connect(socket_connect(socket, interface, remote_endpoint, local_endpoint));
    }
    let received = if socket_can_recv(socket) {
        match socket_recv_slice(socket, buffer) {
            Ok(n) => Some(n),
            Err(_) => None,
        }
    } else {
        None
    };
    let sent = if socket_can_send(socket) {
        match socket_send_slice(socket, reply) {
            Ok(n) => Some(n),
            Err(_) => None,
        }
    } else {
        None
    };
    Serviced::Exchange { received, sent }
}

/// The pause, in milliseconds, between two turns of the polled task.
pub const POLL_PERIOD_MS: u64 = 1;

/// What the caller does for the polled task next.
#[derive(Clone, Copy, Debug, PartialEq, Eq, Structural)]
pub enum PolledAction {
    /// Read the link state.
    PollLink,
    /// Let the engine advance.
    PollEngine,
    /// Service the socket; see [`service`].
    Service,
    /// Suspend for `millis` milliseconds.
    Sleep { millis: u64 },
}

/// The outcome of what the caller did.
#[derive(Clone, Copy, Debug, PartialEq, Eq, Structural)]
pub enum PolledEvent {
    /// The link state.
    Link(bool),
    /// The engine advanced; whether it made progress.
    Polled(bool),
    /// The socket was serviced.
    Serviced,
    /// The pause is over.
    Slept,
}

/// Where the polled task stands: which outcome it waits for.
#[derive(Clone, Copy, Debug, PartialEq, Eq, Structural)]
pub enum PolledPhase {
    PollingLink,
    PollingEngine,
    Servicing,
    Sleeping,
}

/// The polled task as contracts see it.
pub struct PolledView {
    pub phase: PolledPhase,
    pub link_up: bool,
}

impl PolledPhase {
    /// The action that brings the outcome this phase waits for.
    pub open spec fn action(self) -> PolledAction {
        match self {
            PolledPhase::PollingLink => PolledAction::PollLink,
            PolledPhase::PollingEngine => PolledAction::PollEngine,
            PolledPhase::Servicing => PolledAction::Service,
            PolledPhase::Sleeping => PolledAction::Sleep { millis: POLL_PERIOD_MS },
        }
    }

    /// Whether `event` is the outcome this phase waits for.
    pub open spec fn expects(self, event: PolledEvent) -> bool {
        match self {
            PolledPhase::PollingLink => event is Link,
            PolledPhase::PollingEngine => event is Polled,
            PolledPhase::Servicing => event is Serviced,
            PolledPhase::Sleeping => event is Slept,
        }
    }
}

impl PolledView {
    /// The phase after `event`. The engine is polled only while the link is
    /// up, and the socket is serviced only after the engine made progress;
    /// otherwise, and after a service, the task pauses and then looks at the
    /// link again.
    pub open spec fn next_phase(self, event: PolledEvent) -> PolledPhase {
        match event {
            PolledEvent::Link(up) => if up {
                PolledPhase::PollingEngine
            } else {
                PolledPhase::Sleeping
            },
            PolledEvent::Polled(progressed) => if progressed {
                PolledPhase::Servicing
            } else {
                PolledPhase::Sleeping
            },
            PolledEvent::Serviced => PolledPhase::Sleeping,
            PolledEvent::Slept => PolledPhase::PollingLink,
        }
    }

    /// The task after `event`.
    pub open spec fn after(self, event: PolledEvent) -> PolledView {
        PolledView {
            phase: self.next_phase(event),
            link_up: match event {
                PolledEvent::Link(up) => up,
                _ => self.link_up,
            },
        }
    }

    /// What the task asks for after `event`.
    pub open spec fn action(self, event: PolledEvent) -> PolledAction {
        self.next_phase(event).action()
    }

    /// How `event` changed the link.
    pub open spec fn change(self, event: PolledEvent) -> LinkChange {
        match event {
            PolledEvent::Link(up) => link_change(self.link_up, up),
            _ => LinkChange::Unchanged,
        }
    }
}

/// What one step of the polled task comes to.
#[derive(Clone, Copy, Debug, PartialEq, Eq, Structural)]
pub struct PolledStep {
    /// What to do next.
    pub action: PolledAction,
    /// How the link changed, for the link indicator and the log.
    pub link: LinkChange,
}

/// The polled task: link, engine, socket, pause, for ever.
#[derive(Debug)]
pub struct PolledTask {
    phase: PolledPhase,
    link: LinkMonitor,
}

impl View for PolledTask {
    type V = PolledView;

    closed spec fn view(&self) -> PolledView {
        PolledView { phase: self.phase, link_up: self.link@ }
    }
}

impl PolledTask {
    /// A task at its start: the link is taken to be down, and the first
    /// thing to do is [`PolledAction::PollLink`].
    pub fn new() -> (task: Self)
        ensures
            task@ == (PolledView { phase: PolledPhase::PollingLink, link_up: false }),
    {
        PolledTask { phase: PolledPhase::PollingLink, link: LinkMonitor::new() }
    }

    /// Which outcome the task waits for.
    pub fn phase(&self) -> (phase: PolledPhase)
        ensures
            phase == self@.phase,
    {
        self.phase
    }

    /// Whether `event` is the outcome the task waits for.
    pub fn expects(&self, event: PolledEvent) -> (expected: bool)
        ensures
            expected == self@.phase.expects(event),
    {
        match (self.phase, event) {
            (PolledPhase::PollingLink, PolledEvent::Link(_)) => true,
            (PolledPhase::PollingEngine, PolledEvent::Polled(_)) => true,
            (PolledPhase::Servicing, PolledEvent::Serviced) => true,
            (PolledPhase::Sleeping, PolledEvent::Slept) => true,
            _ => false,
        }
    }

    /// Takes the outcome of the last action and says what to do next. The
    /// task always has a next action: it never ends.
    pub fn step(&mut self, event: PolledEvent) -> (step: PolledStep)
        requires
            old(self)@.phase.expects(event),
        ensures
            final(self)@ == old(self)@.after(event),
            step.action == old(self)@.action(event),
            step.link == old(self)@.change(event),
    {
        let mut link = LinkChange::Unchanged;
        let next = match event {
            PolledEvent::Link(up) => {
                link = self.link.update(up);
                if up {
                    PolledPhase::PollingEngine
                } else {
                    PolledPhase::Sleeping
                }
            },
            PolledEvent::Polled(true) => PolledPhase::Servicing,
            PolledEvent::Polled(false) | PolledEvent::Serviced => PolledPhase::Sleeping,
            PolledEvent::Slept => PolledPhase::PollingLink,
        };
        self.phase = next;
        let action = match next {
            PolledPhase::PollingLink => PolledAction::PollLink,
            PolledPhase::PollingEngine => PolledAction::PollEngine,
            PolledPhase::Servicing => PolledAction::Service,
            PolledPhase::Sleeping => PolledAction::Sleep { millis: POLL_PERIOD_MS },
        };
        PolledStep { action, link }
    }
}

/// The socket is serviced only after the engine made progress with the link
/// up: whenever the task asks for a service, the engine has just reported
/// progress, and it was polled only because the link was seen up.
pub proof fn lemma_service_only_after_progress(view: PolledView, event: PolledEvent)
    requires
        view.phase.expects(event),
    ensures
        view.action(event) == PolledAction::Service ==> event == PolledEvent::Polled(true),
        view.action(event) == PolledAction::PollEngine ==> event == PolledEvent::Link(true),
{
}

} // verus!
