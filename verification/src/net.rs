//! The network poll task as a state machine. The task never ends: it asks
//! the protocol engine how long it may sleep, waits for that time to pass or
//! for the interrupt's wake signal, looks at the link, and lets the engine
//! advance while the link is up. Each of these is done by the caller, who
//! hands the outcome back to [`NetTask::step`] and is told what to do next.

use vstd::prelude::*;
use crate::notify::Notifier;
use crate::step::Step;

verus! {

/// The wait, in milliseconds, when the engine names no deadline.
pub const DEFAULT_POLL_DELAY_MS: u64 = 1;

/// How the link changed between two looks at it.
#[derive(Clone, Copy, Debug, PartialEq, Eq, Structural)]
pub enum LinkChange {
    Unchanged,
    Up,
    Down,
}

/// The change from link state `before` to link state `now`.
pub open spec fn link_change(before: bool, now: bool) -> LinkChange {
    if before == now {
        LinkChange::Unchanged
    } else if now {
        LinkChange::Up
    } else {
        LinkChange::Down
    }
}

/// Remembers the link state and reports its changes. The link starts down.
#[derive(Debug)]
pub struct LinkMonitor {
    up: bool,
}

impl View for LinkMonitor {
    type V = bool;

    /// Whether the link was up when last looked at.
    closed spec fn view(&self) -> bool {
        self.up
    }
}

impl LinkMonitor {
    /// A monitor of a link that is taken to be down.
    pub fn new() -> (monitor: Self)
        ensures
            !monitor@,
    {
        LinkMonitor { up: false }
    }

    /// Whether the link was up when last looked at.
    pub fn is_up(&self) -> (up: bool)
        ensures
            up == self@,
    {
        self.up
    }

    /// Takes note of the link state `up` and says how it changed.
    pub fn update(&mut self, up: bool) -> (change: LinkChange)
        ensures
            change == link_change(old(self)@, up),
            final(self)@ == up,
    {
        let before = self.up;
        self.up = up;
        if before == up {
            LinkChange::Unchanged
        } else if up {
            LinkChange::Up
        } else {
            LinkChange::Down
        }
    }
}

/// How long to wait, in milliseconds, given the delay that the engine asked
/// for.
pub open spec fn wait_for(poll_delay: Option<u64>) -> u64 {
    match poll_delay {
        Some(millis) => millis,
        None => DEFAULT_POLL_DELAY_MS,
    }
}

/// The wait of [`wait_for`].
pub fn wait_millis(poll_delay: Option<u64>) -> (millis: u64)
    ensures
        millis == wait_for(poll_delay),
{
    match poll_delay {
        Some(millis) => millis,
        None => DEFAULT_POLL_DELAY_MS,
    }
}

/// Why a waiting task was resumed.
#[derive(Clone, Copy, Debug, PartialEq, Eq, Structural)]
pub enum Wake {
    /// The deadline passed.
    Deadline,
    /// The notifier fired.
    Notified,
}

/// One look at a wait for a deadline or a notifier, whichever comes first.
/// A deadline that has passed ends the wait and leaves the notifier alone;
/// otherwise the notifier is polled.
pub fn until_deadline_or(deadline_passed: bool, notifier: &mut Notifier) -> (step: Step<Wake>)
    ensures
        step == (if deadline_passed {
            Step::Ready(Wake::Deadline)
        } else if old(notifier)@ {
            Step::Ready(Wake::Notified)
        } else {
            Step::Pending
        }),
        final(notifier)@ == (deadline_passed && old(notifier)@),
{
    if deadline_passed {
        Step::Ready(Wake::Deadline)
    } else if notifier.until_next().is_ready() {
        Step::Ready(Wake::Notified)
    } else {
        Step::Pending
    }
}

/// What the caller does for the task next.
#[derive(Clone, Copy, Debug, PartialEq, Eq, Structural)]
pub enum NetAction {
    /// Ask the engine for its poll delay.
    QueryDelay,
    /// Suspend until `millis` milliseconds have passed or the interrupt's
    /// notifier fires.
    Wait { millis: u64 },
    /// Read the link state.
    PollLink,
    /// Let the engine advance.
    PollEngine,
}

/// The outcome of what the caller did.
#[derive(Clone, Copy, Debug, PartialEq, Eq, Structural)]
pub enum NetEvent {
    /// The engine's poll delay in milliseconds, if it named one.
    Delay(Option<u64>),
    /// The wait is over.
    Resumed,
    /// The link state.
    Link(bool),
    /// The engine advanced; whether it made progress.
    Polled(bool),
}

/// Where the task stands: which outcome it waits for.
#[derive(Clone, Copy, Debug, PartialEq, Eq, Structural)]
pub enum NetPhase {
    QueryingDelay,
    Waiting,
    PollingLink,
    PollingEngine,
}

/// The task as contracts see it.
pub struct NetView {
    pub phase: NetPhase,
    pub link_up: bool,
}

impl NetPhase {
    /// The action that brings the outcome this phase waits for.
    pub open spec fn action(self, millis: u64) -> NetAction {
        match self {
            NetPhase::QueryingDelay => NetAction::QueryDelay,
            NetPhase::Waiting => NetAction::Wait { millis },
            NetPhase::PollingLink => NetAction::PollLink,
            NetPhase::PollingEngine => NetAction::PollEngine,
        }
    }

    /// Whether `event` is the outcome this phase waits for.
    pub open spec fn expects(self, event: NetEvent) -> bool {
        match self {
            NetPhase::QueryingDelay => event is Delay,
            NetPhase::Waiting => event is Resumed,
            NetPhase::PollingLink => event is Link,
            NetPhase::PollingEngine => event is Polled,
        }
    }
}

impl NetView {
    /// The phase after `event`: a delay is followed by the wait, the wait by
    /// a look at the link, and that by a poll of the engine if the link is
    /// up; with the link down, and after a poll, the task starts over.
    pub open spec fn next_phase(self, event: NetEvent) -> NetPhase {
        match event {
            NetEvent::Delay(_) => NetPhase::Waiting,
            NetEvent::Resumed => NetPhase::PollingLink,
            NetEvent::Link(up) => if up {
                NetPhase::PollingEngine
            } else {
                NetPhase::QueryingDelay
            },
            NetEvent::Polled(_) => NetPhase::QueryingDelay,
        }
    }

    /// The task after `event`.
    pub open spec fn after(self, event: NetEvent) -> NetView {
        NetView {
            phase: self.next_phase(event),
            link_up: match event {
                NetEvent::Link(up) => up,
                _ => self.link_up,
            },
        }
    }

    /// What the task asks for after `event`.
    pub open spec fn action(self, event: NetEvent) -> NetAction {
        self.next_phase(event).action(
            match event {
                NetEvent::Delay(poll_delay) => wait_for(poll_delay),
                _ => 0,
            },
        )
    }

    /// How `event` changed the link.
    pub open spec fn change(self, event: NetEvent) -> LinkChange {
        match event {
            NetEvent::Link(up) => link_change(self.link_up, up),
            _ => LinkChange::Unchanged,
        }
    }
}

/// What one step of the task comes to.
#[derive(Clone, Copy, Debug, PartialEq, Eq, Structural)]
pub struct NetStep {
    /// What to do next.
    pub action: NetAction,
    /// How the link changed, for the link indicator and the log.
    pub link: LinkChange,
}

/// The network poll task.
#[derive(Debug)]
pub struct NetTask {
    phase: NetPhase,
    link: LinkMonitor,
}

impl View for NetTask {
    type V = NetView;

    closed spec fn view(&self) -> NetView {
        NetView { phase: self.phase, link_up: self.link@ }
    }
}

impl NetTask {
    /// A task at its start: the link is taken to be down, and the first
    /// thing to do is [`NetAction::QueryDelay`].
    pub fn new() -> (task: Self)
        ensures
            task@ == (NetView { phase: NetPhase::QueryingDelay, link_up: false }),
    {
        NetTask { phase: NetPhase::QueryingDelay, link: LinkMonitor::new() }
    }

    /// Which outcome the task waits for.
    pub fn phase(&self) -> (phase: NetPhase)
        ensures
            phase == self@.phase,
    {
        self.phase
    }

    /// Whether the link was up when last looked at.
    pub fn link_up(&self) -> (up: bool)
        ensures
            up == self@.link_up,
    {
        self.link.is_up()
    }

    /// Whether `event` is the outcome the task waits for.
    pub fn expects(&self, event: NetEvent) -> (expected: bool)
        ensures
            expected == self@.phase.expects(event),
    {
        match (self.phase, event) {
            (NetPhase::QueryingDelay, NetEvent::Delay(_)) => true,
            (NetPhase::Waiting, NetEvent::Resumed) => true,
            (NetPhase::PollingLink, NetEvent::Link(_)) => true,
            (NetPhase::PollingEngine, NetEvent::Polled(_)) => true,
            _ => false,
        }
    }

    /// Takes the outcome of the last action and says what to do next. The
    /// task always has a next action: it never ends.
    pub fn step(&mut self, event: NetEvent) -> (step: NetStep)
        requires
            old(self)@.phase.expects(event),
        ensures
            final(self)@ == old(self)@.after(event),
            step.action == old(self)@.action(event),
            step.link == old(self)@.change(event),
    {
        match event {
            NetEvent::Delay(poll_delay) => {
                self.phase = NetPhase::Waiting;
                NetStep {
                    action: NetAction::Wait { millis: wait_millis(poll_delay) },
                    link: LinkChange::Unchanged,
                }
            },
            NetEvent::Resumed => {
                self.phase = NetPhase::PollingLink;
                NetStep { action: NetAction::PollLink, link: LinkChange::Unchanged }
            },
            NetEvent::Link(up) => {
                let link = self.link.update(up);
                if up {
                    self.phase = NetPhase::PollingEngine;
                    NetStep { action: NetAction::PollEngine, link }
                } else {
                    self.phase = NetPhase::QueryingDelay;
                    NetStep { action: NetAction::QueryDelay, link }
                }
            },
            NetEvent::Polled(_) => {
                self.phase = NetPhase::QueryingDelay;
                NetStep { action: NetAction::QueryDelay, link: LinkChange::Unchanged }
            },
        }
    }
}

/// The task keeps in step with its caller: the action it asks for is the one
/// whose outcome it then waits for.
pub proof fn lemma_action_matches_phase(view: NetView, event: NetEvent)
    requires
        view.phase.expects(event),
    ensures
        exists|millis: u64| view.action(event) == view.after(event).phase.action(millis),
{
    let millis = match event {
        NetEvent::Delay(poll_delay) => wait_for(poll_delay),
        _ => 0u64,
    };
    assert(view.action(event) == view.after(event).phase.action(millis));
}

/// The engine is polled only while the link is up: whenever the task asks
/// for a poll of the engine, it has just seen the link up.
pub proof fn lemma_poll_only_with_link_up(view: NetView, event: NetEvent)
    requires
        view.phase.expects(event),
        view.action(event) == NetAction::PollEngine,
    ensures
        event == NetEvent::Link(true),
        view.after(event).link_up,
{
}

} // verus!
