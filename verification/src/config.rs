//! The fixed configuration of the firmware. There is no other configuration
//! surface and nothing is kept across resets.

use vstd::prelude::*;

verus! {

/// The hardware address of the Ethernet interface.
pub const MAC: [u8; 6] = [0x12, 0x00, 0x00, 0x00, 0x00, 0x00];

/// The static IPv4 address of the interface.
pub const IP_ADDR: [u8; 4] = [10, 106, 0, 251];

/// The prefix length of the interface's network.
pub const PREFIX_LEN: u8 = 24;

/// The IPv4 address of the remote endpoint.
pub const REMOTE_ADDR: [u8; 4] = [10, 106, 0, 198];

/// The port of the remote endpoint.
pub const REMOTE_PORT: u16 = 8001;

/// The local port of the client's connection.
pub const LOCAL_ENDPOINT: u16 = 55128;

/// The interrupt priority threshold of the scheduler: while a task runs,
/// interrupts of this priority value and above are held back.
pub const NVIC_BASEPRI: u8 = 0x80;

/// The priority of the Ethernet interrupt: one step more urgent than the
/// threshold, so that it preempts the tasks.
pub const ETH_PRIORITY: u8 = 0x7f;

} // verus!
