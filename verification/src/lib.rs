//! Event-dispatch core for a paravirtualized network device.
//!
//! The heart of the crate is a verified state machine ([`dispatch`]) that
//! classifies host readiness notifications for a network tap and two guest
//! queue-kick descriptors, decides which queue processor to run, and on any
//! fatal condition tears the device's registrations down in a fixed order.
//! The machine is pure: it consumes notifications and the outcomes of the
//! actions it requested, and emits the next action; an unverified driver
//! performs the actual descriptor I/O.
//!
//! [`cmdline`] builds the kernel-command-line fragment that announces the
//! device's MMIO window and interrupt line to the guest.

pub mod cmdline;
pub mod dispatch;
pub mod laws;
