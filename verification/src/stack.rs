//! The shared stack cell: the single holder of the protocol engine's
//! interface state and socket table, lent out to one access at a time.
//!
//! An access runs to completion inside [`Stack::with`]; it cannot suspend
//! while it holds the pair. The interrupt source that could touch the pair is
//! held back for as long as a borrow is open: an interrupt that fires in that
//! window is delivered when the borrow closes.

use vstd::prelude::*;
use crate::sockets::{socket_set_len, socket_set_new, socket_slots, sockets_view, SocketView};

verus! {

/// The protocol engine's socket table together with its interface state.
pub struct InnerStack<'a> {
    sockets: smoltcp::iface::SocketSet<'a>,
    interface: smoltcp::iface::Interface,
    capacity: usize,
}

impl<'a> InnerStack<'a> {
    /// The socket table.
    pub closed spec fn socket_set(self) -> smoltcp::iface::SocketSet<'a> {
        self.sockets
    }

    /// The interface state.
    pub closed spec fn interface(self) -> smoltcp::iface::Interface {
        self.interface
    }

    /// The sockets in the table, by handle.
    pub open spec fn sockets(self) -> Map<smoltcp::iface::SocketHandle, SocketView> {
        sockets_view(self.socket_set())
    }

    /// The number of sockets the table has room for.
    pub open spec fn slots(self) -> nat {
        socket_slots(self.socket_set())
    }

    /// The number of slots that the table was made with.
    pub closed spec fn capacity(self) -> nat {
        self.capacity as nat
    }

    /// Lays a socket table over `storage` and pairs it with `interface`.
    pub fn new(
        storage: &'a mut [smoltcp::iface::SocketStorage<'a>],
        interface: smoltcp::iface::Interface,
    ) -> (inner: Self)
        ensures
            inner.slots() == old(storage)@.len(),
            inner.capacity() == old(storage)@.len(),
            inner.sockets() =~= Map::empty(),
            inner.interface() == interface,
    {
        let capacity = storage.len();
        Self { sockets: socket_set_new(storage), interface, capacity }
    }
}

/// Whether an interrupt ran its handler when it fired or was held back.
#[derive(Clone, Copy, Debug, PartialEq, Eq, Structural)]
pub enum Delivery {
    Delivered,
    Deferred,
}

/// The borrow state of the cell. While a borrow is open the interrupt source
/// is masked; an interrupt that fires then is held back.
#[derive(Clone, Copy, Debug, PartialEq, Eq, Structural)]
pub enum BorrowState {
    /// No borrow is open.
    Free,
    /// A borrow is open.
    Open,
    /// A borrow is open and an interrupt waits for it to close.
    OpenHeld,
}

impl BorrowState {
    /// Whether a borrow is open.
    pub open spec fn borrowed(self) -> bool {
        self != BorrowState::Free
    }

    /// Whether an interrupt is held back.
    pub open spec fn held(self) -> bool {
        self == BorrowState::OpenHeld
    }

    /// The borrow state after the interrupt fires.
    pub open spec fn raise(self) -> BorrowState {
        if self.borrowed() {
            BorrowState::OpenHeld
        } else {
            BorrowState::Free
        }
    }

    /// How an interrupt that fires now is dealt with.
    pub open spec fn delivery(self) -> Delivery {
        if self.borrowed() {
            Delivery::Deferred
        } else {
            Delivery::Delivered
        }
    }
}

/// The shared stack cell.
pub struct Stack<'a> {
    inner: InnerStack<'a>,
    state: BorrowState,
}

impl<'a> Stack<'a> {
    /// The pair that the cell guards.
    pub closed spec fn inner(self) -> InnerStack<'a> {
        self.inner
    }

    /// The borrow state.
    pub closed spec fn borrow_state(self) -> BorrowState {
        self.state
    }

    /// The sockets in the table, by handle.
    pub open spec fn sockets(self) -> Map<smoltcp::iface::SocketHandle, SocketView> {
        self.inner().sockets()
    }

    /// The table has a free slot.
    pub open spec fn has_room(self) -> bool {
        self.sockets().len() < self.inner().slots()
    }

    /// A cell around `inner` with no borrow open.
    pub fn new(inner: InnerStack<'a>) -> (stack: Self)
        ensures
            stack.inner() == inner,
            stack.borrow_state() == BorrowState::Free,
    {
        Stack { inner, state: BorrowState::Free }
    }

    /// Whether a borrow is open.
    pub fn is_borrowed(&self) -> (borrowed: bool)
        ensures
            borrowed == self.borrow_state().borrowed(),
    {
        match self.state {
            BorrowState::Free => false,
            _ => true,
        }
    }

    /// Whether the table holds fewer sockets than it was made with slots
    /// for: by [`Stack::has_room`], whether it has a free slot, as long as
    /// the table is the one the cell was made with.
    pub fn room(&self) -> (room: bool)
        ensures
            room == (self.sockets().len() < self.inner().capacity()),
    {
        socket_set_len(&self.inner.sockets) < self.inner.capacity
    }

    /// Lends the socket table and the interface state to `access` for the
    /// length of the call and hands back what it returns. No borrow may be
    /// open. `access` runs to its end with the interrupt source masked.
    pub fn with<F, U>(&mut self, access: F) -> (r: U) where
        F: FnOnce((&mut smoltcp::iface::SocketSet<'a>, &mut smoltcp::iface::Interface)) -> U,

        requires
            !old(self).borrow_state().borrowed(),
            forall|sockets: &mut smoltcp::iface::SocketSet<'a>, interface: &mut smoltcp::iface::Interface|
                *sockets == old(self).inner().socket_set() && *interface == old(
                    self,
                ).inner().interface() ==> access.requires(((sockets, interface),)),
        ensures
            final(self).borrow_state() == old(self).borrow_state(),
            final(self).inner().capacity() == old(self).inner().capacity(),
            exists|sockets: &mut smoltcp::iface::SocketSet<'a>, interface: &mut smoltcp::iface::Interface|
                {
                    &&& *sockets == old(self).inner().socket_set()
                    &&& *interface == old(self).inner().interface()
                    &&& *final(sockets) == final(self).inner().socket_set()
                    &&& *final(interface) == final(self).inner().interface()
                    &&& access.ensures(((sockets, interface),), r)
                },
    {
        self.acquire();
        let r = access(self.lend());
        self.release();
        r
    }

    /// Opens a borrow and masks the interrupt source. No borrow may be open.
    pub fn acquire(&mut self)
        requires
            !old(self).borrow_state().borrowed(),
        ensures
            final(self).borrow_state() == BorrowState::Open,
            final(self).inner() == old(self).inner(),
    {
        self.state = BorrowState::Open;
    }

    /// The socket table and the interface state, for the holder of the open
    /// borrow.
    pub fn lend(&mut self) -> (pair: (&mut smoltcp::iface::SocketSet<'a>, &mut smoltcp::iface::Interface))
        requires
            old(self).borrow_state().borrowed(),
        ensures
            *pair.0 == old(self).inner().socket_set(),
            *pair.1 == old(self).inner().interface(),
            final(self).inner().socket_set() == *final(pair.0),
            final(self).inner().interface() == *final(pair.1),
            final(self).inner().capacity() == old(self).inner().capacity(),
            final(self).borrow_state() == old(self).borrow_state(),
    {
        (&mut self.inner.sockets, &mut self.inner.interface)
    }

    /// Closes the borrow and unmasks the interrupt source. Returns whether
    /// an interrupt was held back: its handler is due now.
    pub fn release(&mut self) -> (due: bool)
        requires
            old(self).borrow_state().borrowed(),
        ensures
            due == old(self).borrow_state().held(),
            final(self).borrow_state() == BorrowState::Free,
            final(self).inner() == old(self).inner(),
    {
        let due = match self.state {
            BorrowState::OpenHeld => true,
            _ => false,
        };
        self.state = BorrowState::Free;
        due
    }

    /// The interrupt source fires. With no borrow open its handler may run
    /// at once; with a borrow open the interrupt is held back until the
    /// borrow closes. The guarded pair is not touched either way.
    pub fn raise(&mut self) -> (delivery: Delivery)
        ensures
            delivery == old(self).borrow_state().delivery(),
            final(self).borrow_state() == old(self).borrow_state().raise(),
            final(self).inner() == old(self).inner(),
    {
        match self.state {
            BorrowState::Free => Delivery::Delivered,
            _ => {
                self.state = BorrowState::OpenHeld;
                Delivery::Deferred
            },
        }
    }
}

} // verus!
