//! An embeddable network-stack adapter: hosts a poll-driven TCP/IP protocol
//! engine inside a process that a discrete-event host drives from outside.
//! The host owns time and the physical transport; this crate owns the
//! adapter's protocol-side bookkeeping and exposes a minimal boundary:
//! create a stack instance, feed it timestamps and engine observations to
//! advance it, and receive back the engine- and host-facing actions each
//! poll cycle asks for.

pub mod addr;
pub mod boundary;
pub mod device;
pub mod socket;
pub mod stack;
pub mod transform;
