//! Coordination core of a driver for a multi-port USB Power-Delivery
//! controller: interrupt masking with scoped restoration, a single-slot
//! event mailbox, the interrupt scan and the command protocol, each stated
//! and proved over plain values.
use vstd::prelude::*;

pub mod command;
pub mod controller;
pub mod event;
pub mod guard;
pub mod scan;

verus! {

/// The widest port count any supported chip has; masks and snapshots are
/// always this wide.
pub const MAX_SUPPORTED_PORTS: usize = 2;

/// Port count of the single-port chip variant.
pub const TPS66993_NUM_PORTS: usize = 1;

/// Port count of the dual-port chip variant.
pub const TPS66994_NUM_PORTS: usize = 2;

/// Failures raised by the core itself (bus errors pass through unchanged
/// and never reach it).
#[derive(Clone, Copy, Debug, PartialEq, Eq, Structural)]
pub enum PdError {
    /// A port index at or above the controller's port count.
    InvalidPort,
    /// A generic device failure, such as an unreadable interrupt line.
    Failed,
    /// A command whose completion was not observed before its deadline.
    Timeout,
}

} // verus!
