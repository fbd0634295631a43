//! Signals that the supervisor asks its host to deliver.

use vstd::prelude::*;

verus! {

/// How a process is asked to stop.
#[derive(Clone, Copy, Debug, PartialEq, Eq, Structural)]
pub enum SignalKind {
    /// Graceful: the receiver may clean up before it exits.
    Terminate,
    /// Forcible: the receiver is stopped at once.
    Kill,
}

/// One signal to deliver. A positive `target` addresses the process with that
/// identifier; a negative one addresses every process of the group whose
/// identifier is its absolute value.
#[derive(Clone, Copy, Debug, PartialEq, Eq, Structural)]
pub struct SignalOrder {
    pub target: i32,
    pub kind: SignalKind,
}

} // verus!
