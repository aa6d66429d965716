//! Small suspension points for tasks of the scheduler.

use vstd::prelude::*;
use crate::step::Step;

verus! {

/// The number of polls after which a [`Delay`] completes.
pub const DELAY_POLLS: u32 = 100;

/// Gives the other tasks one turn: pending on the first poll, ready from
/// the second on.
#[derive(Debug)]
pub struct Yield {
    polled: bool,
}

impl View for Yield {
    type V = bool;

    /// Whether the first poll has happened.
    closed spec fn view(&self) -> bool {
        self.polled
    }
}

impl Yield {
    /// A yield that has not been polled.
    pub fn new() -> (this: Self)
        ensures
            !this@,
    {
        Yield { polled: false }
    }

    /// One poll: ready if and only if there was a poll before.
    pub fn poll(&mut self) -> (step: Step<()>)
        ensures
            step is Ready <==> old(self)@,
            final(self)@,
    {
        if self.polled {
            return Step::Ready(());
        }
        self.polled = true;
        Step::Pending
    }
}

/// Completes on its hundredth poll.
#[derive(Debug)]
pub struct Delay {
    count: u32,
}

impl View for Delay {
    type V = nat;

    /// The number of polls so far.
    closed spec fn view(&self) -> nat {
        self.count as nat
    }
}

impl Delay {
    /// A delay that has not been polled.
    pub fn new() -> (this: Self)
        ensures
            this@ == 0,
    {
        Self { count: 0 }
    }

    /// One poll of a delay that has not completed: counts it, and completes
    /// if it was the hundredth.
    pub fn poll(&mut self) -> (step: Step<()>)
        requires
            old(self)@ < DELAY_POLLS,
        ensures
            final(self)@ == old(self)@ + 1,
            step is Ready <==> final(self)@ == DELAY_POLLS,
    {
        self.count += 1;
        if self.count == DELAY_POLLS {
            Step::Ready(())
        } else {
            Step::Pending
        }
    }
}

} // verus!
