//! A TCP client whose connect, send and receive are suspend-and-resume
//! operations: each call makes one non-blocking attempt and either completes
//! or registers a wake condition and reports that the caller must suspend.

use vstd::prelude::*;
use crate::socket::{
    addressable, connect_result, has_source_address, recv_result, send_result, socket_connect,
    socket_new, socket_recv_slice, socket_register_recv_waker, socket_register_send_waker,
    socket_send_slice, socket_state, tcp_view, ConnectError, Endpoint, ListenEndpoint, RecvError,
    SendError, TcpState, TcpView,
};
use crate::sockets::{socket_set_add, socket_set_get_mut, socket_slots, sockets_view, SocketView};
use crate::stack::Stack;
use crate::step::Step;

verus! {

/// What a connecting task does on finding its socket in `state`: fail on a
/// socket that is not open, wait while the handshake is under way, and
/// complete otherwise. A client never listens, so `Listen` is left out.
pub open spec fn connect_outcome(state: TcpState) -> Step<Result<(), ConnectError>>
    recommends
        state != TcpState::Listen,
{
    match state {
        TcpState::Closed | TcpState::TimeWait => Step::Ready(Err(ConnectError::InvalidState)),
        TcpState::SynSent | TcpState::SynReceived => Step::Pending,
        _ => Step::Ready(Ok(())),
    }
}

/// What a sending task does with the result of one send attempt: wait when
/// nothing was taken, and complete with the count or the error otherwise.
pub open spec fn send_outcome(result: Result<usize, SendError>) -> Step<Result<usize, SendError>> {
    match result {
        Ok(n) => if n == 0 {
            Step::Pending
        } else {
            Step::Ready(Ok(n))
        },
        Err(e) => Step::Ready(Err(e)),
    }
}

/// What a receiving task with room for `room` octets does with the result of
/// one receive attempt. A caller that asked for nothing gets 0 at once. When
/// the stream has ended the task completes with 0; when nothing has arrived
/// yet it waits; any other error goes to the caller.
pub open spec fn recv_outcome(result: Result<usize, RecvError>, room: nat) -> Step<
    Result<usize, RecvError>,
> {
    if room == 0 {
        Step::Ready(Ok(0))
    } else {
        match result {
            Ok(n) => if n == 0 {
                Step::Pending
            } else {
                Step::Ready(Ok(n))
            },
            Err(RecvError::Finished) => Step::Ready(Ok(0)),
            Err(RecvError::InvalidState) => Step::Ready(Err(RecvError::InvalidState)),
        }
    }
}

/// The decision of [`connect_outcome`].
pub fn decide_connect(state: TcpState) -> (r: Step<Result<(), ConnectError>>)
    requires
        state != TcpState::Listen,
    ensures
        r == connect_outcome(state),
{
    match state {
        TcpState::Closed | TcpState::TimeWait => Step::Ready(Err(ConnectError::InvalidState)),
        TcpState::SynSent | TcpState::SynReceived => Step::Pending,
        _ => Step::Ready(Ok(())),
    }
}

/// The decision of [`send_outcome`].
pub fn decide_send(result: Result<usize, SendError>) -> (r: Step<Result<usize, SendError>>)
    ensures
        r == send_outcome(result),
{
    match result {
        Ok(0) => Step::Pending,
        Ok(n) => Step::Ready(Ok(n)),
        Err(e) => Step::Ready(Err(e)),
    }
}

/// The decision of [`recv_outcome`].
pub fn decide_recv(result: Result<usize, RecvError>, room: usize) -> (r: Step<
    Result<usize, RecvError>,
>)
    ensures
        r == recv_outcome(result, room as nat),
{
    if room == 0 {
        return Step::Ready(Ok(0));
    }
    match result {
        Ok(0) => Step::Pending,
        Ok(n) => Step::Ready(Ok(n)),
        Err(RecvError::Finished) => Step::Ready(Ok(0)),
        Err(RecvError::InvalidState) => Step::Ready(Err(RecvError::InvalidState)),
    }
}

/// Result of one resume of a connecting task on a socket with this view.
pub open spec fn connect_step(view: TcpView) -> Step<Result<(), ConnectError>> {
    connect_outcome(view.state)
}

/// The socket after one resume of a connecting task: a task that waits has
/// registered for both send and receive readiness, one that completes has
/// left the socket alone.
pub open spec fn after_connect_step(view: TcpView) -> TcpView {
    if connect_step(view) is Pending {
        TcpView { send_armed: true, recv_armed: true, ..view }
    } else {
        view
    }
}

/// Result of one send attempt of `len` octets on a socket with this view.
pub open spec fn send_step(view: TcpView, len: nat) -> Step<Result<usize, SendError>> {
    send_outcome(send_result(view, len))
}

/// The socket after one send attempt of `data`: the accepted front of `data`
/// is queued behind what was waiting; a task that waits has registered for
/// send readiness.
pub open spec fn after_send_step(view: TcpView, data: Seq<u8>) -> TcpView {
    match send_step(view, data.len()) {
        Step::Pending => TcpView { send_armed: true, ..view },
        Step::Ready(Ok(n)) => TcpView { tx: view.tx + data.take(n as int), ..view },
        Step::Ready(Err(_)) => view,
    }
}

/// Result of one receive attempt into room for `room` octets on a socket
/// with this view.
pub open spec fn recv_step(view: TcpView, room: nat) -> Step<Result<usize, RecvError>> {
    recv_outcome(recv_result(view, room), room)
}

/// The socket after one receive attempt into room for `room` octets: what
/// was handed out has left the receive buffer; a task that waits has
/// registered for receive readiness.
pub open spec fn after_recv_step(view: TcpView, room: nat) -> TcpView {
    match recv_step(view, room) {
        Step::Pending => TcpView { recv_armed: true, ..view },
        Step::Ready(Ok(n)) => TcpView { rx: view.rx.skip(n as int), ..view },
        Step::Ready(Err(_)) => view,
    }
}

/// The caller's buffer after one receive attempt: the octets handed out
/// stand at its front, the rest is as it was.
pub open spec fn received(view: TcpView, buf: Seq<u8>) -> Seq<u8> {
    match recv_step(view, buf.len()) {
        Step::Ready(Ok(n)) => view.rx.take(n as int) + buf.skip(n as int),
        _ => buf,
    }
}

/// The connection state of `socket`.
pub fn state(socket: &smoltcp::socket::tcp::Socket<'_>) -> (state: TcpState)
    ensures
        state == tcp_view(*socket).state,
{
    socket_state(socket)
}

/// One resume of a connecting task: inspects the socket and, where the
/// handshake is still under way, registers `waker` for send and for receive
/// readiness.
pub fn poll_connect(socket: &mut smoltcp::socket::tcp::Socket<'_>, waker: &core::task::Waker) -> (r:
    Step<Result<(), ConnectError>>)
    requires
        tcp_view(*old(socket)).state != TcpState::Listen,
    ensures
        r == connect_step(tcp_view(*old(socket))),
        tcp_view(*final(socket)) == after_connect_step(tcp_view(*old(socket))),
{
    let r = decide_connect(socket_state(socket));
    if r.is_pending() {
        socket_register_send_waker(socket, waker);
        socket_register_recv_waker(socket, waker);
    }
    r
}

/// Result of the first step of a connect: a refused request fails at once,
/// an accepted one leaves the socket in `SynSent`, where the task waits.
pub open spec fn connect_start(view: TcpView, addressable: bool) -> Step<Result<(), ConnectError>> {
    match connect_result(view.state, addressable) {
        Ok(()) => Step::Pending,
        Err(e) => Step::Ready(Err(e)),
    }
}

/// The socket after the first step of a connect: a refused request leaves it
/// alone; an accepted one has reset it and put it in `SynSent`, and the task
/// has registered for both send and receive readiness.
pub open spec fn after_connect_start(view: TcpView, addressable: bool) -> TcpView {
    if connect_start(view, addressable) is Pending {
        after_connect_step(view.connecting())
    } else {
        view
    }
}

/// The first step of a connect: issues the connect request once and, where
/// the engine accepts it, inspects the socket as every later resume does.
pub fn start_connect(
    socket: &mut smoltcp::socket::tcp::Socket<'_>,
    interface: &mut smoltcp::iface::Interface,
    remote_endpoint: Endpoint,
    local_endpoint: ListenEndpoint,
    waker: &core::task::Waker,
) -> (r: Step<Result<(), ConnectError>>)
    ensures
        r == connect_start(
            tcp_view(*old(socket)),
            addressable(has_source_address(*old(interface)), remote_endpoint, local_endpoint),
        ),
        tcp_view(*final(socket)) == after_connect_start(
            tcp_view(*old(socket)),
            addressable(has_source_address(*old(interface)), remote_endpoint, local_endpoint),
        ),
{
    match socket_connect(socket, interface, remote_endpoint, local_endpoint) {
        Ok(()) => poll_connect(socket, waker),
        Err(e) => Step::Ready(Err(e)),
    }
}

/// One send attempt: writes as much of `buf` as the transmit buffer takes
/// and, where that is nothing, registers `waker` for send readiness.
pub fn poll_send(
    socket: &mut smoltcp::socket::tcp::Socket<'_>,
    buf: &[u8],
    waker: &core::task::Waker,
) -> (r: Step<Result<usize, SendError>>)
    ensures
        r == send_step(tcp_view(*old(socket)), buf@.len()),
        tcp_view(*final(socket)) == after_send_step(tcp_view(*old(socket)), buf@),
{
    let r = decide_send(socket_send_slice(socket, buf));
    if r.is_pending() {
        assert(tcp_view(*old(socket)).tx + buf@.take(0) =~= tcp_view(*old(socket)).tx);
        socket_register_send_waker(socket, waker);
    }
    r
}

/// One receive attempt: reads what has arrived into the front of `buf` and,
/// where nothing has arrived yet, registers `waker` for receive readiness.
/// With an empty `buf` the socket is not touched.
pub fn poll_recv(
    socket: &mut smoltcp::socket::tcp::Socket<'_>,
    buf: &mut [u8],
    waker: &core::task::Waker,
) -> (r: Step<Result<usize, RecvError>>)
    ensures
        r == recv_step(tcp_view(*old(socket)), old(buf)@.len()),
        tcp_view(*final(socket)) == after_recv_step(tcp_view(*old(socket)), old(buf)@.len()),
        final(buf)@ == received(tcp_view(*old(socket)), old(buf)@),
{
    if buf.len() == 0 {
        assert(tcp_view(*old(socket)).rx.skip(0) =~= tcp_view(*old(socket)).rx);
        return Step::Ready(Ok(0));
    }
    let ghost before = tcp_view(*socket);
    let room = buf.len();
    let r = decide_recv(socket_recv_slice(socket, buf), room);
    assert(before.rx.skip(0) =~= before.rx);
    if r.is_pending() {
        assert(before.rx.take(0) + old(buf)@.skip(0) =~= old(buf)@);
        socket_register_recv_waker(socket, waker);
    }
    r
}

/// The socket after a run of send attempts, one for each buffer in turn.
pub open spec fn after_sends(view: TcpView, bufs: Seq<Seq<u8>>) -> TcpView
    decreases bufs.len(),
{
    if bufs.len() == 0 {
        view
    } else {
        after_send_step(after_sends(view, bufs.drop_last()), bufs.last())
    }
}

/// The octets of all the buffers, in order.
pub open spec fn joined(bufs: Seq<Seq<u8>>) -> Seq<u8>
    decreases bufs.len(),
{
    if bufs.len() == 0 {
        Seq::empty()
    } else {
        joined(bufs.drop_last()) + bufs.last()
    }
}

/// Sends that fit are taken whole and in order. On a socket whose transmit
/// half is open, a run of sends whose sizes add up to no more than the free
/// room of the transmit buffer leaves in that buffer, behind what was
/// waiting, exactly the octets of the buffers in the order sent: nothing
/// twice, nothing out of place. Each send of at least one octet in the run
/// completes at once with the full size of its buffer.
pub proof fn lemma_sends_in_order(view: TcpView, bufs: Seq<Seq<u8>>)
    requires
        view.wf(),
        view.state.may_send(),
        joined(bufs).len() <= view.tx_free(),
    ensures
        after_sends(view, bufs).tx == view.tx + joined(bufs),
        after_sends(view, bufs).state == view.state,
        after_sends(view, bufs).tx_capacity == view.tx_capacity,
        forall|i: int|
            0 <= i < bufs.len() && bufs[i].len() > 0 ==> #[trigger] send_step(
                after_sends(view, bufs.take(i)),
                bufs[i].len(),
            ) == Step::Ready(Ok::<usize, SendError>(bufs[i].len() as usize)),
    decreases bufs.len(),
{
    if bufs.len() == 0 {
        assert(view.tx + joined(bufs) =~= view.tx);
    } else {
        let front = bufs.drop_last();
        let last = bufs.last();
        lemma_sends_in_order(view, front);
        let before = after_sends(view, front);
        assert(before.tx.len() == view.tx.len() + joined(front).len());
        assert(before.tx_free() == view.tx_free() - joined(front).len());
        assert(last.len() <= before.tx_free());
        assert(last.take(last.len() as int) =~= last);
        assert(before.tx + last =~= view.tx + joined(bufs));
        assert(before.tx + last.take(0) =~= before.tx);
        assert forall|i: int| 0 <= i < bufs.len() && bufs[i].len() > 0 implies #[trigger] send_step(
            after_sends(view, bufs.take(i)),
            bufs[i].len(),
        ) == Step::Ready(Ok::<usize, SendError>(bufs[i].len() as usize)) by {
            if i < front.len() {
                assert(bufs.take(i) =~= front.take(i));
                assert(bufs[i] == front[i]);
            } else {
                assert(bufs.take(i) =~= front);
            }
        }
    }
}

/// The socket after a run of receive attempts, one for each amount of room
/// in turn.
pub open spec fn after_recvs(view: TcpView, rooms: Seq<nat>) -> TcpView
    decreases rooms.len(),
{
    if rooms.len() == 0 {
        view
    } else {
        after_recv_step(after_recvs(view, rooms.drop_last()), rooms.last())
    }
}

/// The octets that one receive attempt hands out.
pub open spec fn handed_out(view: TcpView, room: nat) -> Seq<u8> {
    match recv_step(view, room) {
        Step::Ready(Ok(n)) => view.rx.take(n as int),
        _ => Seq::empty(),
    }
}

/// The octets that a run of receive attempts hands out, in order.
pub open spec fn collected(view: TcpView, rooms: Seq<nat>) -> Seq<u8>
    decreases rooms.len(),
{
    if rooms.len() == 0 {
        Seq::empty()
    } else {
        collected(view, rooms.drop_last()) + handed_out(
            after_recvs(view, rooms.drop_last()),
            rooms.last(),
        )
    }
}

/// Receives hand out what was buffered, whole and in order. Over any run of
/// receive attempts, with nothing arriving in between, the octets handed
/// out, followed by the octets still in the receive buffer, are the octets
/// that were in the buffer at the start: none is lost, none comes twice,
/// none out of place.
pub proof fn lemma_recvs_in_order(view: TcpView, rooms: Seq<nat>)
    requires
        view.wf(),
    ensures
        collected(view, rooms) + after_recvs(view, rooms).rx == view.rx,
        after_recvs(view, rooms).wf(),
    decreases rooms.len(),
{
    if rooms.len() == 0 {
        assert(collected(view, rooms) + view.rx =~= view.rx);
    } else {
        let front = rooms.drop_last();
        lemma_recvs_in_order(view, front);
        let before = after_recvs(view, front);
        let room = rooms.last();
        let out = handed_out(before, room);
        assert(out + after_recv_step(before, room).rx =~= before.rx);
        assert(collected(view, rooms) + after_recvs(view, rooms).rx =~= collected(view, front) + (
        out + after_recv_step(before, room).rx));
    }
}

/// A send larger than the free room of the transmit buffer is taken in part:
/// with the transmit half open and some room left, it completes at once with
/// the size of that room, which is less than what was offered, and the
/// accepted front of the data is queued.
pub proof fn lemma_oversized_send_is_partial(view: TcpView, data: Seq<u8>)
    requires
        view.wf(),
        view.state.may_send(),
        0 < view.tx_free() < data.len(),
    ensures
        send_step(view, data.len()) == Step::Ready(Ok::<usize, SendError>(view.tx_free() as usize)),
        after_send_step(view, data).tx == view.tx + data.take(view.tx_free() as int),
{
}

/// A receive that asks for nothing gets 0 at once: it never suspends, and it
/// leaves the socket and the buffer as they were.
pub proof fn lemma_recv_nothing_asked(view: TcpView, buf: Seq<u8>)
    requires
        buf.len() == 0,
    ensures
        recv_step(view, buf.len()) == Step::Ready(Ok::<usize, RecvError>(0)),
        after_recv_step(view, buf.len()) == view,
        received(view, buf) == buf,
{
    assert(view.rx.skip(0) =~= view.rx);
    assert(view.rx.take(0) + buf.skip(0) =~= buf);
}

/// Once the peer has closed the stream and the receive buffer is drained, a
/// receive completes with 0 and not with an error, it does not suspend, and
/// it leaves the socket as it was, so that every further receive says the
/// same.
pub proof fn lemma_recv_at_end_of_stream(view: TcpView, room: nat)
    requires
        view.fin_received,
        !view.may_recv(),
    ensures
        recv_step(view, room) == Step::Ready(Ok::<usize, RecvError>(0)),
        after_recv_step(view, room) == view,
{
    assert(view.rx.skip(0) =~= view.rx);
}

/// A connecting task that finds its socket closed or in `TimeWait` fails at
/// once with `InvalidState`: it does not suspend and registers nothing.
pub proof fn lemma_connect_on_closed_fails(view: TcpView)
    requires
        view.state == TcpState::Closed || view.state == TcpState::TimeWait,
    ensures
        connect_step(view) == Step::Ready(Err::<(), ConnectError>(ConnectError::InvalidState)),
        after_connect_step(view) == view,
{
}

/// A TCP client: one socket of the stack's table.
pub struct TcpClient {
    pub handle: smoltcp::iface::SocketHandle,
}

impl TcpClient {
    /// The client's handle names a TCP socket of `stack`.
    pub open spec fn attached(self, stack: Stack<'_>) -> bool {
        stack.sockets().contains_key(self.handle) && stack.sockets()[self.handle] is Tcp
    }

    /// The client's socket in `stack`.
    pub open spec fn socket(self, stack: Stack<'_>) -> TcpView {
        stack.sockets()[self.handle].tcp()
    }

    /// Makes a socket over the two buffers, adds it to the table of `stack`
    /// and returns the client for it.
    pub fn new<'a>(stack: &mut Stack<'a>, rx_buffer: &'a mut [u8], tx_buffer: &'a mut [u8]) -> (client:
        Self)
        requires
            !old(stack).borrow_state().borrowed(),
            old(stack).has_room(),
            old(rx_buffer)@.len() <= 0x4000_0000,
        ensures
            !old(stack).sockets().contains_key(client.handle),
            TcpView::closed(old(rx_buffer)@.len(), old(tx_buffer)@.len()).wf(),
            final(stack).sockets() == old(stack).sockets().insert(
                client.handle,
                SocketView::Tcp(TcpView::closed(old(rx_buffer)@.len(), old(tx_buffer)@.len())),
            ),
            final(stack).inner().slots() == old(stack).inner().slots(),
            final(stack).inner().capacity() == old(stack).inner().capacity(),
            final(stack).inner().interface() == old(stack).inner().interface(),
            final(stack).borrow_state() == old(stack).borrow_state(),
    {
        let socket = socket_new(rx_buffer, tx_buffer);
        let handle = stack.with(
            |pair: (&mut smoltcp::iface::SocketSet<'a>, &mut smoltcp::iface::Interface)| -> (handle:
                smoltcp::iface::SocketHandle)
                requires
                    sockets_view(*old(pair.0)).len() < socket_slots(*old(pair.0)),
                ensures
                    !sockets_view(*old(pair.0)).contains_key(handle),
                    sockets_view(*final(pair.0)) == sockets_view(*old(pair.0)).insert(
                        handle,
                        SocketView::Tcp(tcp_view(socket)),
                    ),
                    socket_slots(*final(pair.0)) == socket_slots(*old(pair.0)),
                    *final(pair.1) == *old(pair.1)
                {
                    let (sockets, _interface) = pair;
                    socket_set_add(sockets, socket)
                },
        );
        TcpClient { handle }
    }

    /// Lends the client's socket, together with the interface state, to
    /// `access` for the length of the call and hands back what it returns.
    /// The socket that `access` gets is well formed.
    pub fn with<'a, F, U>(&mut self, stack: &mut Stack<'a>, access: F) -> (r: U) where
        F: FnOnce(&mut smoltcp::socket::tcp::Socket<'a>, &mut smoltcp::iface::Interface) -> U,

        requires
            !old(stack).borrow_state().borrowed(),
            old(self).attached(*old(stack)),
            forall|socket: &mut smoltcp::socket::tcp::Socket<'a>, interface: &mut smoltcp::iface::Interface|
                tcp_view(*socket) == old(self).socket(*old(stack)) && tcp_view(*socket).wf()
                    && *interface == old(stack).inner().interface() ==> access.requires(
                    (socket, interface),
                ),
        ensures
            *final(self) == *old(self),
            final(stack).borrow_state() == old(stack).borrow_state(),
            final(stack).inner().slots() == old(stack).inner().slots(),
            final(stack).inner().capacity() == old(stack).inner().capacity(),
            exists|socket: &mut smoltcp::socket::tcp::Socket<'a>, interface: &mut smoltcp::iface::Interface|
                {
                    &&& tcp_view(*socket) == old(self).socket(*old(stack))
                    &&& tcp_view(*socket).wf()
                    &&& *interface == old(stack).inner().interface()
                    &&& final(stack).sockets() == old(stack).sockets().insert(
                        old(self).handle,
                        SocketView::Tcp(tcp_view(*final(socket))),
                    )
                    &&& *final(interface) == final(stack).inner().interface()
                    &&& access.ensures((socket, interface), r)
                },
    {
        stack.acquire();
        let (sockets, interface) = stack.lend();
        let socket = socket_set_get_mut(sockets, self.handle);
        let r = access(socket, interface);
        stack.release();
        r
    }

    /// The connection state of the client's socket.
    pub fn state<'a>(&mut self, stack: &mut Stack<'a>) -> (state: TcpState)
        requires
            !old(stack).borrow_state().borrowed(),
            old(self).attached(*old(stack)),
        ensures
            *final(self) == *old(self),
            state == old(self).socket(*old(stack)).state,
            final(stack).sockets() == old(stack).sockets(),
            final(stack).inner().slots() == old(stack).inner().slots(),
            final(stack).inner().capacity() == old(stack).inner().capacity(),
            final(stack).inner().interface() == old(stack).inner().interface(),
            final(stack).borrow_state() == old(stack).borrow_state(),
    {
        let state = self.with(
            stack,
            |socket: &mut smoltcp::socket::tcp::Socket<'a>, interface: &mut smoltcp::iface::Interface| -> (state:
                TcpState)
                ensures
                    state == tcp_view(*old(socket)).state,
                    tcp_view(*final(socket)) == tcp_view(*old(socket)),
                    *final(interface) == *old(interface)
                { socket_state(socket) },
        );
        assert(stack.sockets() =~= old(stack).sockets());
        state
    }

    /// One send attempt on the client's socket; see [`poll_send`].
    pub fn send<'a>(&mut self, stack: &mut Stack<'a>, buf: &[u8], waker: &core::task::Waker) -> (r:
        Step<Result<usize, SendError>>)
        requires
            !old(stack).borrow_state().borrowed(),
            old(self).attached(*old(stack)),
        ensures
            *final(self) == *old(self),
            old(self).socket(*old(stack)).wf(),
            r == send_step(old(self).socket(*old(stack)), buf@.len()),
            final(stack).sockets() == old(stack).sockets().insert(
                old(self).handle,
                SocketView::Tcp(after_send_step(old(self).socket(*old(stack)), buf@)),
            ),
            final(stack).inner().slots() == old(stack).inner().slots(),
            final(stack).inner().capacity() == old(stack).inner().capacity(),
            final(stack).inner().interface() == old(stack).inner().interface(),
            final(stack).borrow_state() == old(stack).borrow_state(),
    {
        self.with(
            stack,
            |socket: &mut smoltcp::socket::tcp::Socket<'a>, interface: &mut smoltcp::iface::Interface| -> (r:
                Step<Result<usize, SendError>>)
                ensures
                    r == send_step(tcp_view(*old(socket)), buf@.len()),
                    tcp_view(*final(socket)) == after_send_step(tcp_view(*old(socket)), buf@),
                    *final(interface) == *old(interface)
                { poll_send(socket, buf, waker) },
        )
    }

    /// The first step of a connect on the client's socket; see
    /// [`start_connect`]. While the result is pending, the task suspends and
    /// goes on with [`TcpClient::poll_connect`] when it is resumed.
    pub fn connect<'a>(
        &mut self,
        stack: &mut Stack<'a>,
        remote_endpoint: Endpoint,
        local_endpoint: ListenEndpoint,
        waker: &core::task::Waker,
    ) -> (r: Step<Result<(), ConnectError>>)
        requires
            !old(stack).borrow_state().borrowed(),
            old(self).attached(*old(stack)),
        ensures
            *final(self) == *old(self),
            old(self).socket(*old(stack)).wf(),
            r == connect_start(
                old(self).socket(*old(stack)),
                addressable(
                    has_source_address(old(stack).inner().interface()),
                    remote_endpoint,
                    local_endpoint,
                ),
            ),
            final(stack).sockets() == old(stack).sockets().insert(
                old(self).handle,
                SocketView::Tcp(
                    after_connect_start(
                        old(self).socket(*old(stack)),
                        addressable(
                    has_source_address(old(stack).inner().interface()),
                    remote_endpoint,
                    local_endpoint,
                ),
                    ),
                ),
            ),
            final(stack).inner().slots() == old(stack).inner().slots(),
            final(stack).inner().capacity() == old(stack).inner().capacity(),
            final(stack).borrow_state() == old(stack).borrow_state(),
    {
        self.with(
            stack,
            |socket: &mut smoltcp::socket::tcp::Socket<'a>, interface: &mut smoltcp::iface::Interface| -> (r:
                Step<Result<(), ConnectError>>)
                ensures
                    r == connect_start(
                        tcp_view(*old(socket)),
                        addressable(has_source_address(*old(interface)), remote_endpoint, local_endpoint),
                    ),
                    tcp_view(*final(socket)) == after_connect_start(
                        tcp_view(*old(socket)),
                        addressable(has_source_address(*old(interface)), remote_endpoint, local_endpoint),
                    )
                { start_connect(socket, interface, remote_endpoint, local_endpoint, waker) },
        )
    }

    /// One resume of a connecting task on the client's socket; see
    /// [`poll_connect`].
    pub fn poll_connect<'a>(&mut self, stack: &mut Stack<'a>, waker: &core::task::Waker) -> (r: Step<
        Result<(), ConnectError>,
    >)
        requires
            !old(stack).borrow_state().borrowed(),
            old(self).attached(*old(stack)),
            old(self).socket(*old(stack)).state != TcpState::Listen,
        ensures
            *final(self) == *old(self),
            old(self).socket(*old(stack)).wf(),
            r == connect_step(old(self).socket(*old(stack))),
            final(stack).sockets() == old(stack).sockets().insert(
                old(self).handle,
                SocketView::Tcp(after_connect_step(old(self).socket(*old(stack)))),
            ),
            final(stack).inner().slots() == old(stack).inner().slots(),
            final(stack).inner().capacity() == old(stack).inner().capacity(),
            final(stack).inner().interface() == old(stack).inner().interface(),
            final(stack).borrow_state() == old(stack).borrow_state(),
    {
        self.with(
            stack,
            |socket: &mut smoltcp::socket::tcp::Socket<'a>, interface: &mut smoltcp::iface::Interface| -> (r:
                Step<Result<(), ConnectError>>)
                requires
                    tcp_view(*old(socket)).state != TcpState::Listen,
                ensures
                    r == connect_step(tcp_view(*old(socket))),
                    tcp_view(*final(socket)) == after_connect_step(tcp_view(*old(socket))),
                    *final(interface) == *old(interface)
                { poll_connect(socket, waker) },
        )
    }

    /// One receive attempt on the client's socket; see [`poll_recv`].
    pub fn recv(&mut self, stack: &mut Stack<'_>, buf: &mut [u8], waker: &core::task::Waker) -> (r:
        Step<Result<usize, RecvError>>)
        requires
            !old(stack).borrow_state().borrowed(),
            old(self).attached(*old(stack)),
        ensures
            *final(self) == *old(self),
            old(self).socket(*old(stack)).wf(),
            r == recv_step(old(self).socket(*old(stack)), old(buf)@.len()),
            final(buf)@ == received(old(self).socket(*old(stack)), old(buf)@),
            final(stack).sockets() == old(stack).sockets().insert(
                old(self).handle,
                SocketView::Tcp(after_recv_step(old(self).socket(*old(stack)), old(buf)@.len())),
            ),
            final(stack).inner().slots() == old(stack).inner().slots(),
            final(stack).inner().capacity() == old(stack).inner().capacity(),
            final(stack).inner().interface() == old(stack).inner().interface(),
            final(stack).borrow_state() == old(stack).borrow_state(),
    {
        // `buf` is written to, so the attempt cannot be a closure for `with`:
        // the borrow is opened and closed here.
        stack.acquire();
        let (sockets, _interface) = stack.lend();
        let socket = socket_set_get_mut(sockets, self.handle);
        let r = poll_recv(socket, buf, waker);
        stack.release();
        r
    }
}

} // verus!
