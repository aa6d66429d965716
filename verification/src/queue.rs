//! A queue over borrowed storage that is split into a producer half and a
//! consumer half. The halves borrow the queue for a lifetime of their own,
//! shorter than that of the storage, so that the queue can be split where it
//! is made and used again once both halves are gone.

use vstd::prelude::*;

verus! {

/// A queue over borrowed storage.
pub struct Queue<'storage>(pub &'storage mut ());

/// The producer half of a split queue.
pub struct Pusher<'split, 'storage>(&'split Queue<'storage>);

/// The consumer half of a split queue.
pub struct Popper<'split, 'storage>(&'split Queue<'storage>);

impl<'split, 'storage> Pusher<'split, 'storage> {
    /// The queue that this half belongs to.
    pub closed spec fn queue(self) -> Queue<'storage> {
        *self.0
    }
}

impl<'split, 'storage> Popper<'split, 'storage> {
    /// The queue that this half belongs to.
    pub closed spec fn queue(self) -> Queue<'storage> {
        *self.0
    }
}

impl<'split, 'storage> Queue<'storage> {
    /// Splits the queue into its two halves. Both belong to this queue,
    /// which stays as it is.
    pub fn split(&'split mut self) -> (halves: (Pusher<'split, 'storage>, Popper<'split, 'storage>))
        ensures
            halves.0.queue() == *old(self),
            halves.1.queue() == *old(self),
            *final(self) == *old(self),
    {
        (Pusher(self), Popper(self))
    }
}

/// Splits `q` into its two halves; see [`Queue::split`].
pub fn split<'split, 'storage>(q: &'split mut Queue<'storage>) -> (halves: (
    Pusher<'split, 'storage>,
    Popper<'split, 'storage>,
))
    ensures
        halves.0.queue() == *old(q),
        halves.1.queue() == *old(q),
        *final(q) == *old(q),
{
    let (pusher, popper) = q.split();
    (pusher, popper)
}

} // verus!
