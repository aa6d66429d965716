//! The wake notifier: a one-bit signal that any producer may raise and that
//! its single consumer clears by observing it.

use vstd::prelude::*;
use crate::step::Step;

verus! {

/// A pending-or-idle wake signal.
///
/// Setting is idempotent and never suspends. The consumer's observation
/// completes exactly when the signal is pending and clears it in the same
/// step, so one `set` resumes the consumer once.
#[derive(Debug)]
pub struct Notifier {
    pending: bool,
}

/// Which of two awaited signals resumed a task.
#[derive(Clone, Copy, Debug, PartialEq, Eq, Structural)]
pub enum Either {
    First,
    Second,
}

/// What happens to a notifier: a producer sets it, or the consumer polls it.
pub enum Event {
    Signal,
    Poll,
}

impl View for Notifier {
    type V = bool;

    /// Whether the signal is pending.
    closed spec fn view(&self) -> bool {
        self.pending
    }
}

/// The signal after `event`.
pub open spec fn after(pending: bool, event: Event) -> bool {
    match event {
        Event::Signal => true,
        Event::Poll => false,
    }
}

/// Whether `event` resumes the consumer: only a poll that finds the signal
/// pending does.
pub open spec fn resumes(pending: bool, event: Event) -> bool {
    event is Poll && pending
}

/// The signal after a sequence of events.
pub open spec fn after_all(pending: bool, events: Seq<Event>) -> bool
    decreases events.len(),
{
    if events.len() == 0 {
        pending
    } else {
        after(after_all(pending, events.drop_last()), events.last())
    }
}

/// How often a sequence of events resumes the consumer.
pub open spec fn resumptions(pending: bool, events: Seq<Event>) -> nat
    decreases events.len(),
{
    if events.len() == 0 {
        0
    } else {
        let before = events.drop_last();
        resumptions(pending, before) + if resumes(after_all(pending, before), events.last()) {
            1nat
        } else {
            0nat
        }
    }
}

/// How many of the events are sets.
pub open spec fn sets(events: Seq<Event>) -> nat
    decreases events.len(),
{
    if events.len() == 0 {
        0
    } else {
        sets(events.drop_last()) + if events.last() is Signal {
            1nat
        } else {
            0nat
        }
    }
}

impl Notifier {
    /// An idle notifier.
    pub fn new() -> (notifier: Self)
        ensures
            !notifier@,
    {
        Notifier { pending: false }
    }

    /// Marks the signal pending. Setting a pending signal changes nothing.
    pub fn set(&mut self)
        ensures
            final(self)@ == after(old(self)@, Event::Signal),
    {
        self.pending = true;
    }

    /// Whether the signal is pending, without consuming it.
    pub fn is_pending(&self) -> (pending: bool)
        ensures
            pending == self@,
    {
        self.pending
    }

    /// The consumer's suspension point: completes exactly when the signal is
    /// pending, and leaves it idle either way.
    pub fn until_next(&mut self) -> (step: Step<()>)
        ensures
            step is Ready <==> resumes(old(self)@, Event::Poll),
            final(self)@ == after(old(self)@, Event::Poll),
    {
        let pending = self.pending;
        self.pending = false;
        if pending {
            Step::Ready(())
        } else {
            Step::Pending
        }
    }
}

/// Waits on two notifiers at once and resumes on whichever fired; the first
/// wins when both did, and the second then stays pending for the next wait.
pub fn until_either(first: &mut Notifier, second: &mut Notifier) -> (step: Step<Either>)
    ensures
        step == (if old(first)@ {
            Step::Ready(Either::First)
        } else if old(second)@ {
            Step::Ready(Either::Second)
        } else {
            Step::Pending
        }),
        !final(first)@,
        final(second)@ == (old(first)@ && old(second)@),
{
    if first.until_next().is_ready() {
        Step::Ready(Either::First)
    } else if second.until_next().is_ready() {
        Step::Ready(Either::Second)
    } else {
        Step::Pending
    }
}

/// No wake is lost: a poll that comes after at least one set since the
/// previous poll resumes the consumer, however many sets there were and
/// whatever came before them.
pub proof fn lemma_set_then_poll_resumes(pending: bool, events: Seq<Event>)
    requires
        events.len() > 0,
        events.last() is Signal,
    ensures
        resumes(after_all(pending, events), Event::Poll),
{
}

/// One set resumes once: the poll right after a poll never resumes, whatever
/// came before.
pub proof fn lemma_poll_then_poll_waits(pending: bool, events: Seq<Event>)
    requires
        events.len() > 0,
        events.last() is Poll,
    ensures
        !resumes(after_all(pending, events), Event::Poll),
{
}

/// No spurious resumption: over any sequence of events the consumer is
/// resumed at most once for each set, and once more if the signal was
/// pending at the start.
pub proof fn lemma_resumptions_bounded(pending: bool, events: Seq<Event>)
    ensures
        resumptions(pending, events) + (if after_all(pending, events) { 1nat } else { 0nat })
            <= sets(events) + (if pending { 1nat } else { 0nat }),
    decreases events.len(),
{
    if events.len() > 0 {
        lemma_resumptions_bounded(pending, events.drop_last());
    }
}

} // verus!
