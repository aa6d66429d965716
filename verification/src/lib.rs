//! Suspend-and-resume TCP client operations over a polled protocol engine,
//! together with the wake notifier, cooperative scheduler and interrupt
//! masking discipline that drive it on a single core.

pub mod config;
pub mod step;
pub mod suspend;
pub mod notify;
pub mod sched;
pub mod socket;
pub mod sockets;
pub mod stack;
pub mod tcp;
pub mod irq;
pub mod net;
pub mod echo;
pub mod polled;
pub mod queue;
