//! A fleet supervisor for a cluster of locally spawned worker processes.
//!
//! The library is the verified bookkeeping core of the supervisor: which
//! members exist, which ports each one listens on, which indices are
//! administratively stopped, which process handles are still live, and when a
//! readiness wait may give up.  Launching processes, draining their output,
//! opening TCP connections and sleeping are I/O and live in the unverified
//! shell around the library; the shell reports plain facts (a process id, a
//! connection outcome) and performs the actions the library decides on.

use vstd::prelude::*;

pub mod cluster;
pub mod member;
pub mod probe;
pub mod process;
pub mod service;

verus! {

/// The failure classes of the supervisor.
#[derive(Clone, Copy, Debug, PartialEq, Eq, Structural)]
pub enum FleetError {
    /// The requested configuration cannot be realised: the executable is
    /// missing, or a derived port would not fit in a port number.
    ConfigurationError,
    /// The operating system refused to create the process.
    SpawnFailure,
    /// The readiness wait reached its deadline before the process answered.
    StartupTimeout,
    /// An RPC client could not be constructed against the member's endpoint.
    ClientConstructionError,
    /// A lifecycle call named an index outside `[0, size)`.
    IndexOutOfRange,
}

} // verus!
