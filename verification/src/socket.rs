//! The boundary to the protocol engine's TCP socket.
//!
//! The socket is an opaque value of the engine. What the rest of the crate
//! needs to know of it is collected in [`TcpView`]; the functions in this
//! module are the only ones that touch the engine, and their contracts are
//! taken on trust from the engine's source.

use vstd::prelude::*;
use smoltcp::socket::tcp;
use smoltcp::wire::{IpAddress, IpEndpoint, IpListenEndpoint};

verus! {

#[verifier::external_type_specification]
#[verifier::external_body]
pub struct ExSocket<'a>(smoltcp::socket::tcp::Socket<'a>);

#[verifier::external_type_specification]
#[verifier::external_body]
pub struct ExWaker(core::task::Waker);

/// State of a TCP connection, after RFC 793.
#[derive(Clone, Copy, Debug, PartialEq, Eq, Structural)]
pub enum TcpState {
    Closed,
    Listen,
    SynSent,
    SynReceived,
    Established,
    FinWait1,
    FinWait2,
    CloseWait,
    Closing,
    LastAck,
    TimeWait,
}

impl TcpState {
    /// The socket processes packets: every state but `Closed` and `TimeWait`.
    pub open spec fn is_open(self) -> bool {
        self != TcpState::Closed && self != TcpState::TimeWait
    }

    /// Whether the socket processes packets; see [`TcpState::is_open`].
    pub fn open(self) -> (open: bool)
        ensures
            open == self.is_open(),
    {
        match self {
            TcpState::Closed | TcpState::TimeWait => false,
            _ => true,
        }
    }

    /// The transmit half of the connection is open.
    pub open spec fn may_send(self) -> bool {
        self == TcpState::Established || self == TcpState::CloseWait
    }

    /// The receive half of the connection is open, whatever the buffer holds.
    pub open spec fn receiving(self) -> bool {
        self == TcpState::Established || self == TcpState::FinWait1 || self == TcpState::FinWait2
    }
}

/// Why a connect request was turned down.
#[derive(Clone, Copy, Debug, PartialEq, Eq, Structural)]
pub enum ConnectError {
    InvalidState,
    Unaddressable,
}

/// Why a send attempt failed.
#[derive(Clone, Copy, Debug, PartialEq, Eq, Structural)]
pub enum SendError {
    InvalidState,
}

/// Why a receive attempt failed.
#[derive(Clone, Copy, Debug, PartialEq, Eq, Structural)]
pub enum RecvError {
    InvalidState,
    Finished,
}

/// The far end of a connection: an IPv4 address and a port.
#[derive(Clone, Copy, Debug, PartialEq, Eq)]
pub struct Endpoint {
    pub addr: [u8; 4],
    pub port: u16,
}

/// The near end of a connection: a port, and an IPv4 address where the
/// caller names one. Without an address the interface picks its own.
#[derive(Clone, Copy, Debug, PartialEq, Eq)]
pub struct ListenEndpoint {
    pub addr: Option<[u8; 4]>,
    pub port: u16,
}

/// Whether the engine takes `addr` for no address at all: its first octet
/// is 0.
pub open spec fn unspecified(addr: [u8; 4]) -> bool {
    addr[0] == 0
}

/// Whether a connection from `local` to `remote` can be addressed: both
/// ports and the remote address are given, and so is the local address,
/// by the caller or, failing that, by the interface if it has one
/// (`has_source`).
pub open spec fn addressable(has_source: bool, remote: Endpoint, local: ListenEndpoint) -> bool {
    &&& remote.port != 0
    &&& !unspecified(remote.addr)
    &&& local.port != 0
    &&& match local.addr {
        Some(addr) => !unspecified(addr),
        None => has_source,
    }
}

/// What the crate's contracts know of a socket.
pub struct TcpView {
    /// Connection state.
    pub state: TcpState,
    /// Octets waiting in the transmit buffer, oldest first.
    pub tx: Seq<u8>,
    /// Size of the transmit buffer.
    pub tx_capacity: nat,
    /// Octets waiting in the receive buffer, oldest first.
    pub rx: Seq<u8>,
    /// Size of the receive buffer.
    pub rx_capacity: nat,
    /// The peer has closed its half of the connection.
    pub fin_received: bool,
    /// A waker is registered for send readiness.
    pub send_armed: bool,
    /// A waker is registered for receive readiness.
    pub recv_armed: bool,
}

impl TcpView {
    /// What holds of the view of every socket: neither buffer holds more than
    /// it has room for, the transmit buffer is of a machine size, and the
    /// receive buffer is of no more than 2^30 octets.
    pub open spec fn wf(self) -> bool {
        &&& self.tx.len() <= self.tx_capacity
        &&& self.tx_capacity <= usize::MAX
        &&& self.rx.len() <= self.rx_capacity
        &&& self.rx_capacity <= 0x4000_0000
    }

    /// Room left in the transmit buffer.
    pub open spec fn tx_free(self) -> nat {
        if self.tx.len() <= self.tx_capacity {
            (self.tx_capacity - self.tx.len()) as nat
        } else {
            0
        }
    }

    /// Data can be taken from the socket: the receive half is open, or the
    /// buffer still holds something.
    pub open spec fn may_recv(self) -> bool {
        self.state.receiving() || self.rx.len() > 0
    }

    /// How many of `len` offered octets one send attempt takes.
    pub open spec fn accepts(self, len: nat) -> nat {
        if len <= self.tx_free() {
            len
        } else {
            self.tx_free()
        }
    }

    /// How many octets one receive attempt into room for `len` hands out.
    pub open spec fn yields(self, len: nat) -> nat {
        if len <= self.rx.len() {
            len
        } else {
            self.rx.len()
        }
    }

    /// A socket as it is made: closed, with empty buffers and no waker.
    pub open spec fn closed(rx_capacity: nat, tx_capacity: nat) -> TcpView {
        TcpView {
            state: TcpState::Closed,
            tx: Seq::empty(),
            tx_capacity,
            rx: Seq::empty(),
            rx_capacity,
            fin_received: false,
            send_armed: false,
            recv_armed: false,
        }
    }

    /// The socket right after an accepted connect request.
    pub open spec fn connecting(self) -> TcpView {
        TcpView {
            state: TcpState::SynSent,
            tx: Seq::empty(),
            tx_capacity: self.tx_capacity,
            rx: Seq::empty(),
            rx_capacity: self.rx_capacity,
            fin_received: false,
            send_armed: false,
            recv_armed: false,
        }
    }
}

/// The view of a socket of the engine.
pub uninterp spec fn tcp_view(socket: smoltcp::socket::tcp::Socket<'_>) -> TcpView;

/// Whether `interface` has an IPv4 address to send from: what
/// `smoltcp::iface::Interface::get_source_address_ipv4` looks for.
pub uninterp spec fn has_source_address(interface: smoltcp::iface::Interface) -> bool;

/// What a connect request returns on a socket in `state`.
pub open spec fn connect_result(state: TcpState, addressable: bool) -> Result<(), ConnectError> {
    if state.is_open() {
        Err(ConnectError::InvalidState)
    } else if !addressable {
        Err(ConnectError::Unaddressable)
    } else {
        Ok(())
    }
}

/// What a send attempt of `len` octets returns.
pub open spec fn send_result(view: TcpView, len: nat) -> Result<usize, SendError> {
    if view.state.may_send() {
        Ok(view.accepts(len) as usize)
    } else {
        Err(SendError::InvalidState)
    }
}

/// What a receive attempt into room for `len` octets returns.
pub open spec fn recv_result(view: TcpView, len: nat) -> Result<usize, RecvError> {
    if view.may_recv() {
        Ok(view.yields(len) as usize)
    } else if view.fin_received {
        Err(RecvError::Finished)
    } else {
        Err(RecvError::InvalidState)
    }
}

/// `smoltcp::socket::tcp::Socket::new` over ring buffers laid on the two
/// slices. The engine refuses a receive buffer of more than 2^30 octets. The
/// new socket is closed, both buffers are empty and as large as the slices,
/// and no waker is registered.
#[verifier::external_body]
pub(crate) fn socket_new<'a>(rx_buffer: &'a mut [u8], tx_buffer: &'a mut [u8]) -> (socket:
    smoltcp::socket::tcp::Socket<'a>)
    requires
        old(rx_buffer)@.len() <= 0x4000_0000,
    ensures
        tcp_view(socket) == TcpView::closed(old(rx_buffer)@.len(), old(tx_buffer)@.len()),
        tcp_view(socket).wf(),
{
    smoltcp::socket::tcp::Socket::new(
        smoltcp::storage::RingBuffer::new(rx_buffer),
        smoltcp::storage::RingBuffer::new(tx_buffer),
    )
}

/// `smoltcp::socket::tcp::Socket::state`: the connection state, unchanged.
#[verifier::external_body]
pub(crate) fn socket_state(socket: &smoltcp::socket::tcp::Socket<'_>) -> (state: TcpState)
    ensures
        state == tcp_view(*socket).state,
{
    match socket.state() {
        smoltcp::socket::tcp::State::Closed => TcpState::Closed,
        smoltcp::socket::tcp::State::Listen => TcpState::Listen,
        smoltcp::socket::tcp::State::SynSent => TcpState::SynSent,
        smoltcp::socket::tcp::State::SynReceived => TcpState::SynReceived,
        smoltcp::socket::tcp::State::Established => TcpState::Established,
        smoltcp::socket::tcp::State::FinWait1 => TcpState::FinWait1,
        smoltcp::socket::tcp::State::FinWait2 => TcpState::FinWait2,
        smoltcp::socket::tcp::State::CloseWait => TcpState::CloseWait,
        smoltcp::socket::tcp::State::Closing => TcpState::Closing,
        smoltcp::socket::tcp::State::LastAck => TcpState::LastAck,
        smoltcp::socket::tcp::State::TimeWait => TcpState::TimeWait,
    }
}

/// `smoltcp::socket::tcp::Socket::connect` for IPv4 endpoints, with the
/// context of `interface` (`smoltcp::iface::Interface::context`). An open
/// socket refuses with `InvalidState`. A closed one refuses with
/// `Unaddressable` where a port is 0, where the remote or the given local
/// address is unspecified, or where no local address is given and the
/// interface has none. Either refusal leaves the socket as it was. An
/// accepted request resets the socket, which empties both buffers and drops
/// both wakers, and puts it in `SynSent`.
#[verifier::external_body]
pub(crate) fn socket_connect(
    socket: &mut tcp::Socket<'_>,
    interface: &mut smoltcp::iface::Interface,
    remote: Endpoint,
    local: ListenEndpoint,
) -> (r: Result<(), ConnectError>)
    ensures
        r == connect_result(
            tcp_view(*old(socket)).state,
            addressable(has_source_address(*old(interface)), remote, local),
        ),
        r is Ok ==> tcp_view(*final(socket)) == tcp_view(*old(socket)).connecting(),
        r is Err ==> tcp_view(*final(socket)) == tcp_view(*old(socket)),
{
    let [a, b, c, d] = remote.addr;
    let to = IpEndpoint::new(IpAddress::v4(a, b, c, d), remote.port);
    let addr = match local.addr {
        Some([a, b, c, d]) => Some(IpAddress::v4(a, b, c, d)),
        None => None,
    };
    match socket.connect(interface.context(), to, IpListenEndpoint { addr, port: local.port }) {
        Ok(()) => Ok(()),
        Err(tcp::ConnectError::InvalidState) => Err(ConnectError::InvalidState),
        Err(tcp::ConnectError::Unaddressable) => Err(ConnectError::Unaddressable),
    }
}

/// `smoltcp::socket::tcp::Socket::send_slice`. With the transmit half closed
/// it fails and changes nothing. Otherwise it appends as much of the front of
/// `data` as the transmit buffer has room for and returns that count.
#[verifier::external_body]
pub(crate) fn socket_send_slice(socket: &mut smoltcp::socket::tcp::Socket<'_>, data: &[u8]) -> (r:
    Result<usize, SendError>)
    ensures
        r == send_result(tcp_view(*old(socket)), data@.len()),
        r is Err ==> tcp_view(*final(socket)) == tcp_view(*old(socket)),
        r matches Ok(n) ==> tcp_view(*final(socket)) == (TcpView {
            tx: tcp_view(*old(socket)).tx + data@.take(n as int),
            ..tcp_view(*old(socket))
        }),
{
    match socket.send_slice(data) {
        Ok(n) => Ok(n),
        Err(smoltcp::socket::tcp::SendError::InvalidState) => Err(SendError::InvalidState),
    }
}

/// `smoltcp::socket::tcp::Socket::recv_slice`. With nothing buffered and the
/// receive half closed it fails, with `Finished` after the peer's FIN and
/// with `InvalidState` otherwise, and changes nothing. Otherwise it moves as
/// many octets as fit from the front of the receive buffer to the front of
/// `data`, leaves the rest of `data` alone and returns the count.
#[verifier::external_body]
pub(crate) fn socket_recv_slice(socket: &mut smoltcp::socket::tcp::Socket<'_>, data: &mut [u8]) -> (r:
    Result<usize, RecvError>)
    ensures
        r == recv_result(tcp_view(*old(socket)), old(data)@.len()),
        r is Err ==> tcp_view(*final(socket)) == tcp_view(*old(socket)) && final(data)@ == old(data)@,
        r matches Ok(n) ==> tcp_view(*final(socket)) == (TcpView {
            rx: tcp_view(*old(socket)).rx.skip(n as int),
            ..tcp_view(*old(socket))
        }) && final(data)@ == tcp_view(*old(socket)).rx.take(n as int) + old(data)@.skip(n as int),
{
    match socket.recv_slice(data) {
        Ok(n) => Ok(n),
        Err(smoltcp::socket::tcp::RecvError::InvalidState) => Err(RecvError::InvalidState),
        Err(smoltcp::socket::tcp::RecvError::Finished) => Err(RecvError::Finished),
    }
}

/// `smoltcp::socket::tcp::Socket::register_send_waker`: afterwards a waker
/// for send readiness is registered; nothing else changes.
#[verifier::external_body]
pub(crate) fn socket_register_send_waker(
    socket: &mut smoltcp::socket::tcp::Socket<'_>,
    waker: &core::task::Waker,
)
    ensures
        tcp_view(*final(socket)) == (TcpView { send_armed: true, ..tcp_view(*old(socket)) }),
{
    socket.register_send_waker(waker)
}

/// `smoltcp::socket::tcp::Socket::register_recv_waker`: afterwards a waker
/// for receive readiness is registered; nothing else changes.
#[verifier::external_body]
pub(crate) fn socket_register_recv_waker(
    socket: &mut smoltcp::socket::tcp::Socket<'_>,
    waker: &core::task::Waker,
)
    ensures
        tcp_view(*final(socket)) == (TcpView { recv_armed: true, ..tcp_view(*old(socket)) }),
{
    socket.register_recv_waker(waker)
}

/// `smoltcp::socket::tcp::Socket::can_recv`: whether the receive buffer
/// holds anything. The engine also asks for an open receive half, which it
/// takes as given where the buffer is not empty.
#[verifier::external_body]
pub(crate) fn socket_can_recv(socket: &smoltcp::socket::tcp::Socket<'_>) -> (r: bool)
    ensures
        r == (tcp_view(*socket).rx.len() > 0),
{
    socket.can_recv()
}

/// `smoltcp::socket::tcp::Socket::can_send`: whether the transmit half is
/// open and the transmit buffer is not full.
#[verifier::external_body]
pub(crate) fn socket_can_send(socket: &smoltcp::socket::tcp::Socket<'_>) -> (r: bool)
    ensures
        r == (tcp_view(*socket).state.may_send() && tcp_view(*socket).tx.len() < tcp_view(
            *socket,
        ).tx_capacity),
{
    socket.can_send()
}

} // verus!
