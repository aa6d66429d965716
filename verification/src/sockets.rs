//! The boundary to the protocol engine's socket table and interface.

use vstd::prelude::*;
use crate::socket::{tcp_view, TcpView};

verus! {

#[verifier::external_type_specification]
#[verifier::external_body]
pub struct ExSocketSet<'a>(smoltcp::iface::SocketSet<'a>);

#[verifier::external_type_specification]
#[verifier::external_body]
pub struct ExSocketStorage<'a>(smoltcp::iface::SocketStorage<'a>);

#[verifier::external_type_specification]
#[verifier::external_body]
pub struct ExSocketHandle(smoltcp::iface::SocketHandle);

#[verifier::external_type_specification]
#[verifier::external_body]
pub struct ExInterface(smoltcp::iface::Interface);

/// What the crate's contracts know of one entry of a socket table.
pub enum SocketView {
    /// A TCP socket.
    Tcp(TcpView),
    /// A socket of another protocol.
    Other,
}

impl SocketView {
    /// The view of a TCP socket.
    pub open spec fn tcp(self) -> TcpView
        recommends
            self is Tcp,
    {
        match self {
            SocketView::Tcp(view) => view,
            SocketView::Other => arbitrary(),
        }
    }
}

/// The sockets that a table holds, by handle.
pub uninterp spec fn sockets_view(sockets: smoltcp::iface::SocketSet<'_>) -> Map<
    smoltcp::iface::SocketHandle,
    SocketView,
>;

/// The number of slots of the storage that a table was made over.
pub uninterp spec fn socket_slots(sockets: smoltcp::iface::SocketSet<'_>) -> nat;

/// `smoltcp::iface::SocketSet::new` over borrowed storage. The table has one
/// slot for each element of the storage. A storage element can only be made
/// empty, and the storage stays borrowed for as long as it exists, so no
/// earlier table can have left a socket in it: the table starts out empty.
#[verifier::external_body]
pub(crate) fn socket_set_new<'a>(storage: &'a mut [smoltcp::iface::SocketStorage<'a>]) -> (sockets:
    smoltcp::iface::SocketSet<'a>)
    ensures
        socket_slots(sockets) == old(storage)@.len(),
        sockets_view(sockets) =~= Map::empty(),
{
    smoltcp::iface::SocketSet::new(storage)
}

/// Counts what `smoltcp::iface::SocketSet::iter` hands out: the number of
/// sockets in the table.
#[verifier::external_body]
pub(crate) fn socket_set_len(sockets: &smoltcp::iface::SocketSet<'_>) -> (n: usize)
    ensures
        n == sockets_view(*sockets).len(),
{
    sockets.iter().count()
}

/// `smoltcp::iface::SocketSet::add` for a TCP socket. Over borrowed storage
/// the engine panics when every slot is taken, so a free slot is required.
/// The socket goes into a free slot, whose handle is returned.
#[verifier::external_body]
pub(crate) fn socket_set_add<'a>(
    sockets: &mut smoltcp::iface::SocketSet<'a>,
    socket: smoltcp::socket::tcp::Socket<'a>,
) -> (handle: smoltcp::iface::SocketHandle)
    requires
        sockets_view(*old(sockets)).len() < socket_slots(*old(sockets)),
    ensures
        !sockets_view(*old(sockets)).contains_key(handle),
        sockets_view(*final(sockets)) == sockets_view(*old(sockets)).insert(
            handle,
            SocketView::Tcp(tcp_view(socket)),
        ),
        socket_slots(*final(sockets)) == socket_slots(*old(sockets)),
{
    sockets.add(socket)
}

/// `smoltcp::iface::SocketSet::get_mut` for a TCP socket. The engine panics
/// on a handle that names no socket or one of another protocol, so the handle
/// must name a TCP socket. Neither buffer of a socket holds more than it has
/// room for, and no receive buffer is larger than the engine admits. Whatever
/// is done to the socket through the reference shows in the table under that
/// handle; nothing else changes.
#[verifier::external_body]
pub(crate) fn socket_set_get_mut<'s, 'a>(
    sockets: &'s mut smoltcp::iface::SocketSet<'a>,
    handle: smoltcp::iface::SocketHandle,
) -> (socket: &'s mut smoltcp::socket::tcp::Socket<'a>)
    requires
        sockets_view(*old(sockets)).contains_key(handle),
        sockets_view(*old(sockets))[handle] is Tcp,
    ensures
        SocketView::Tcp(tcp_view(*socket)) == sockets_view(*old(sockets))[handle],
        tcp_view(*socket).wf(),
        sockets_view(*final(sockets)) == sockets_view(*old(sockets)).insert(
            handle,
            SocketView::Tcp(tcp_view(*final(socket))),
        ),
        socket_slots(*final(sockets)) == socket_slots(*old(sockets)),
{
    sockets.get_mut::<smoltcp::socket::tcp::Socket<'a>>(handle)
}

} // verus!
