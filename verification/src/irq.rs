//! The interrupt bridge: what the hardware interrupt does to the rest of the
//! system. Its handler acknowledges the peripheral, which is the caller's
//! business, and then signals the wake notifier of the network poll task. It
//! never touches the shared stack cell, and while a borrow of the cell is
//! open it does not run at all: the interrupt is held back until the borrow
//! closes.

use vstd::prelude::*;
use crate::notify::Notifier;
use crate::stack::{BorrowState, Delivery, Stack};

verus! {

/// The borrow state and the wake signal after the interrupt fires: with a
/// borrow open the interrupt is only recorded, otherwise the handler sets
/// the signal.
pub open spec fn fire(state: BorrowState, pending: bool) -> (BorrowState, bool) {
    (state.raise(), pending || !state.borrowed())
}

/// The borrow state and the wake signal after the interrupt fires `n` times
/// in a row.
pub open spec fn fire_times(state: BorrowState, pending: bool, n: nat) -> (BorrowState, bool)
    decreases n,
{
    if n == 0 {
        (state, pending)
    } else {
        let before = fire_times(state, pending, (n - 1) as nat);
        fire(before.0, before.1)
    }
}

/// The borrow state and the wake signal after the borrow closes: the handler
/// of an interrupt that was held back runs now.
pub open spec fn close(state: BorrowState, pending: bool) -> (BorrowState, bool) {
    (BorrowState::Free, pending || state.held())
}

/// The handler proper, run once the peripheral has been acknowledged:
/// signals the notifier.
pub fn handler(notifier: &mut Notifier)
    ensures
        final(notifier)@,
{
    notifier.set();
}

/// The interrupt fires. With no borrow of `stack` open the handler runs at
/// once; otherwise the interrupt is held back and `notifier` stays as it is.
/// The guarded pair is not touched.
pub fn interrupt(stack: &mut Stack<'_>, notifier: &mut Notifier) -> (delivery: Delivery)
    ensures
        delivery == old(stack).borrow_state().delivery(),
        (final(stack).borrow_state(), final(notifier)@) == fire(old(stack).borrow_state(), old(notifier)@),
        final(stack).inner() == old(stack).inner(),
{
    let delivery = stack.raise();
    match delivery {
        Delivery::Delivered => handler(notifier),
        Delivery::Deferred => {},
    }
    delivery
}

/// Closes the open borrow of `stack` and runs the handler of an interrupt
/// that was held back meanwhile. Returns whether there was one.
pub fn release(stack: &mut Stack<'_>, notifier: &mut Notifier) -> (due: bool)
    requires
        old(stack).borrow_state().borrowed(),
    ensures
        due == old(stack).borrow_state().held(),
        (final(stack).borrow_state(), final(notifier)@) == close(old(stack).borrow_state(), old(notifier)@),
        final(stack).inner() == old(stack).inner(),
{
    let due = stack.release();
    if due {
        handler(notifier);
    }
    due
}

/// An interrupt that fires while a borrow is open has no effect until the
/// borrow closes: however often it fires, the wake signal stays as it was and
/// the borrow stays open; when the borrow closes, the signal is set.
pub proof fn lemma_interrupt_waits_for_release(state: BorrowState, pending: bool, n: nat)
    requires
        state.borrowed(),
        n > 0,
    ensures
        fire_times(state, pending, n) == (BorrowState::OpenHeld, pending),
        close(BorrowState::OpenHeld, pending) == (BorrowState::Free, true),
    decreases n,
{
    if n > 1 {
        lemma_interrupt_waits_for_release(state, pending, (n - 1) as nat);
    } else {
        assert(fire_times(state, pending, 0) == (state, pending));
    }
}

/// A borrow during which no interrupt fired closes without running the
/// handler.
pub proof fn lemma_quiet_borrow_delivers_nothing(pending: bool)
    ensures
        close(BorrowState::Open, pending) == (BorrowState::Free, pending),
{
}

} // verus!
